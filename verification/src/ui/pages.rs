//! What key presses do on the screens, and what the screens show.
use vstd::prelude::*;
use vstd::string::*;
use crate::git::parse::contains_string;
use crate::logic::flow::is_name_char;
use crate::text::views;
use crate::ui::widgets::{next_choice, previous_choice, InputState, MultiChoiceState};
use crate::ui::{AppState, Key, Kind};

verus! {

/// Whether the name inputs take `c`: ASCII letters and digits, and `-`.
pub fn accepts_name_char(c: char) -> (b: bool)
    ensures
        b == is_name_char(c),
{
    let u = c as u32;
    (97 <= u && u <= 122) || (65 <= u && u <= 90) || (48 <= u && u <= 57) || u == 45
}

/// `list` joined with `sep` between its entries.
pub open spec fn join(list: Seq<Seq<char>>, sep: Seq<char>) -> Seq<char>
    decreases list.len(),
{
    if list.len() == 0 {
        Seq::empty()
    } else if list.len() == 1 {
        list[0]
    } else {
        join(list.drop_last(), sep) + sep + list.last()
    }
}

/// The last `height` messages (all of them when there are fewer), one per
/// line: what fits in a body `height` lines high.
pub fn visible_messages(messages: &[String], height: usize) -> (t: String)
    ensures
        t@ == join(
            views(messages@).skip(
                if messages@.len() > height {
                    messages@.len() - height
                } else {
                    0
                },
            ),
            "\n"@,
        ),
{
    let n = messages.len();
    let first = if n > height {
        n - height
    } else {
        0
    };
    let ghost shown = views(messages@).skip(first as int);
    let mut t = String::new();
    let mut i = first;
    assert(shown.take(0) == Seq::<Seq<char>>::empty());
    while i < n
        invariant
            first <= i <= n == messages.len(),
            shown == views(messages@).skip(first as int),
            t@ == join(shown.take(i - first), "\n"@),
        decreases n - i,
    {
        assert(shown.take(i + 1 - first).drop_last() == shown.take(i - first));
        assert(shown.take(i + 1 - first).last() == messages@[i as int]@);
        if i > first {
            t.append("\n");
        } else {
            assert(shown.take(i + 1 - first) == seq![messages@[i as int]@]);
        }
        t.append(messages[i].as_str());
        i = i + 1;
    }
    assert(shown.take(n - first) == shown);
    t
}

/// What a key press on a list of branches leads to.
#[derive(Debug, PartialEq, Eq)]
pub enum ListAction {
    /// Go to this screen.
    Goto(AppState),
    /// Finish this branch, on this screen.
    Finish(String, AppState),
    /// Nothing more.
    Nothing,
}

/// A `ListAction` with its branch as a character sequence.
pub enum ListActionView {
    Goto(AppState),
    Finish(Seq<char>, AppState),
    Nothing,
}

impl View for ListAction {
    type V = ListActionView;

    open spec fn view(&self) -> ListActionView {
        match self {
            ListAction::Goto(s) => ListActionView::Goto(*s),
            ListAction::Finish(branch, s) => ListActionView::Finish(branch@, *s),
            ListAction::Nothing => ListActionView::Nothing,
        }
    }
}

/// The entry selected after moving down from `selected`: the next one, the
/// first when none was selected.
pub open spec fn next_entry(selected: Option<usize>) -> Option<usize> {
    match selected {
        Some(i) => Some(if i < usize::MAX { (i + 1) as usize } else { i }),
        None => Some(0),
    }
}

/// The entry selected after moving up from `selected`: the previous one
/// (staying on the first), the last when none was selected.
pub open spec fn previous_entry(selected: Option<usize>) -> Option<usize> {
    match selected {
        Some(i) => Some(if i > 0 { (i - 1) as usize } else { 0 }),
        None => Some(usize::MAX),
    }
}

/// The entry selected once a list of `len` entries is shown: none in an
/// empty list, the last one for a selection past the end.
pub open spec fn shown_entry(selected: Option<usize>, len: nat) -> Option<usize> {
    if len == 0 {
        None
    } else {
        match selected {
            Some(i) => if i >= len {
                Some((len - 1) as usize)
            } else {
                Some(i)
            },
            None => None,
        }
    }
}

/// The selection after `key` on a list.
pub open spec fn selection_after(selected: Option<usize>, key: Key) -> Option<usize> {
    match key {
        Key::Up => previous_entry(selected),
        Key::Down => next_entry(selected),
        _ => selected,
    }
}

/// Where `key` leads on the list of the branches `list` of kind `kind`
/// with entry `selected` selected: Esc to the main menu, `+` to the screen
/// that starts a branch of the kind, Delete to the screen that finishes the
/// selected branch (when there is one, and the kind has such a screen).
pub open spec fn list_action(
    kind: Kind,
    list: Option<Seq<Seq<char>>>,
    selected: Option<usize>,
    key: Key,
) -> ListActionView {
    match key {
        Key::Esc => ListActionView::Goto(AppState::MainMenu),
        Key::Char(c) => if c == '+' {
            ListActionView::Goto(kind.start_screen())
        } else {
            ListActionView::Nothing
        },
        Key::Delete => match (selected, list, kind.finish_screen()) {
            (Some(i), Some(l), Some(s)) => if i < l.len() {
                ListActionView::Finish(l[i as int], s)
            } else {
                ListActionView::Nothing
            },
            _ => ListActionView::Nothing,
        },
        _ => ListActionView::Nothing,
    }
}

/// The list of the branches of one kind, as last shown, and the selected
/// entry.
pub struct ListPage {
    kind: Kind,
    list: Option<Vec<String>>,
    selected: Option<usize>,
}

impl ListPage {
    pub closed spec fn spec_kind(&self) -> Kind {
        self.kind
    }

    pub closed spec fn spec_list(&self) -> Option<Seq<Seq<char>>> {
        match self.list {
            Some(l) => Some(views(l@)),
            None => None,
        }
    }

    pub closed spec fn spec_selected(&self) -> Option<usize> {
        self.selected
    }

    /// A list of kind `kind` not shown yet, its first entry selected.
    pub fn new(kind: Kind) -> (p: ListPage)
        ensures
            p.spec_kind() == kind,
            p.spec_list() is None,
            p.spec_selected() == Some(0usize),
    {
        ListPage { kind, list: None, selected: Some(0) }
    }

    /// The kind listed.
    pub fn kind(&self) -> (k: Kind)
        ensures
            k == self.spec_kind(),
    {
        self.kind
    }

    /// The selected entry, if any.
    pub fn selected(&self) -> (s: Option<usize>)
        ensures
            s == self.spec_selected(),
    {
        self.selected
    }

    /// Shows the branches `names`: the selection stays inside them.
    pub fn shown(&mut self, names: Vec<String>)
        ensures
            final(self).spec_kind() == old(self).spec_kind(),
            final(self).spec_list() == Some(views(names@)),
            final(self).spec_selected() == shown_entry(old(self).spec_selected(), names@.len()),
    {
        let len = names.len();
        if len == 0 {
            self.selected = None;
        } else {
            match self.selected {
                Some(i) => {
                    if i >= len {
                        self.selected = Some(len - 1);
                    }
                },
                None => {},
            }
        }
        self.list = Some(names);
    }

    /// What `key` does: Up and Down move the selection; Esc, `+` and Delete
    /// lead to another screen (`list_action`).
    pub fn handle_input(&mut self, key: &Key) -> (r: ListAction)
        ensures
            r@ == list_action(
                old(self).spec_kind(),
                old(self).spec_list(),
                old(self).spec_selected(),
                *key,
            ),
            final(self).spec_kind() == old(self).spec_kind(),
            final(self).spec_list() == old(self).spec_list(),
            final(self).spec_selected() == selection_after(old(self).spec_selected(), *key),
    {
        match key {
            Key::Esc => ListAction::Goto(AppState::MainMenu),
            Key::Char(c) => {
                if *c == '+' {
                    ListAction::Goto(self.kind.start_state())
                } else {
                    ListAction::Nothing
                }
            },
            Key::Up => {
                self.selected = match self.selected {
                    Some(i) => Some(if i > 0 { i - 1 } else { 0 }),
                    None => Some(usize::MAX),
                };
                ListAction::Nothing
            },
            Key::Down => {
                self.selected = match self.selected {
                    Some(i) => Some(if i < usize::MAX { i + 1 } else { i }),
                    None => Some(0),
                };
                ListAction::Nothing
            },
            Key::Delete => {
                let finish = self.kind.finish_state();
                match (self.selected, &self.list, finish) {
                    (Some(i), Some(l), Some(s)) => {
                        if i < l.len() {
                            ListAction::Finish(l[i].clone(), s)
                        } else {
                            ListAction::Nothing
                        }
                    },
                    _ => ListAction::Nothing,
                }
            },
            _ => ListAction::Nothing,
        }
    }
}

/// What a key press on the main menu leads to.
#[derive(Debug, PartialEq, Eq)]
pub enum MenuAction {
    /// Leave the application.
    Quit,
    /// What the list under the current tab made of the key.
    Page(ListAction),
}

/// The number of tabs of the main menu: features, releases, bugfixes,
/// hotfixes.
pub open spec fn tab_count() -> int {
    4
}

/// The tab shown after `key` on tab `tab`: Left and Right move between the
/// tabs without leaving them.
pub open spec fn tab_after(tab: int, key: Key) -> int {
    match key {
        Key::Left => if tab > 0 { tab - 1 } else { 0 },
        Key::Right => if tab + 1 < tab_count() { tab + 1 } else { tab_count() - 1 },
        _ => tab,
    }
}

/// Whether `key` quits the main menu: Esc, `q` or `Q`.
pub open spec fn quits(key: Key) -> bool {
    match key {
        Key::Esc => true,
        Key::Char(c) => c == 'q' || c == 'Q',
        _ => false,
    }
}

/// The main menu: a tab for each kind of branch, with the list of that kind
/// under it.
pub struct MainMenu {
    tab: usize,
    page: ListPage,
}

impl MainMenu {
    #[verifier::type_invariant]
    spec fn tab_listed(&self) -> bool {
        &&& self.tab < tab_count()
        &&& self.page.kind == Kind::of_tab(self.tab as int)
    }

    pub closed spec fn spec_tab(&self) -> int {
        self.tab as int
    }

    pub closed spec fn spec_page(&self) -> ListPage {
        self.page
    }

    /// The menu on the first tab, features, with a fresh list.
    pub fn new() -> (m: MainMenu)
        ensures
            m.spec_tab() == 0,
            m.spec_page().spec_kind() == Kind::Feature,
            m.spec_page().spec_list() is None,
            m.spec_page().spec_selected() == Some(0usize),
    {
        MainMenu { tab: 0, page: ListPage::new(Kind::Feature) }
    }

    /// The tab shown.
    pub fn tab(&self) -> (t: usize)
        ensures
            t == self.spec_tab(),
            t < tab_count(),
    {
        proof {
            use_type_invariant(self);
        }
        self.tab
    }

    /// The list under the tab.
    pub fn page(&self) -> (p: &ListPage)
        ensures
            *p == self.spec_page(),
            p.spec_kind() == Kind::of_tab(self.spec_tab()),
    {
        proof {
            use_type_invariant(self);
        }
        &self.page
    }

    /// Shows the branches `names` in the list under the tab.
    pub fn shown(&mut self, names: Vec<String>)
        ensures
            final(self).spec_tab() == old(self).spec_tab(),
            final(self).spec_page().spec_kind() == old(self).spec_page().spec_kind(),
            final(self).spec_page().spec_list() == Some(views(names@)),
            final(self).spec_page().spec_selected() == shown_entry(
                old(self).spec_page().spec_selected(),
                names@.len(),
            ),
    {
        proof {
            use_type_invariant(&*self);
        }
        let mut page = ListPage::new(self.page.kind());
        page.selected = self.page.selected;
        page.shown(names);
        self.page = page;
    }

    /// What `key` does: Esc, `q` and `Q` quit; Left and Right change the
    /// tab, and the list under it is a fresh one of the new tab's kind when
    /// the tab changes; other keys go to the list.
    pub fn handle_input(&mut self, key: &Key) -> (r: MenuAction)
        ensures
            quits(*key) ==> r is Quit && *final(self) == *old(self),
            !quits(*key) && (*key is Left || *key is Right) ==> {
                let t = tab_after(old(self).spec_tab(), *key);
                &&& r == MenuAction::Page(ListAction::Nothing)
                &&& final(self).spec_tab() == t
                &&& t != old(self).spec_tab() ==> final(self).spec_page().spec_kind() == Kind::of_tab(t)
                    && final(self).spec_page().spec_list() is None
                    && final(self).spec_page().spec_selected() == Some(0usize)
                &&& t == old(self).spec_tab() ==> final(self).spec_page() == old(self).spec_page()
            },
            !quits(*key) && !(*key is Left || *key is Right) ==> {
                &&& r matches MenuAction::Page(a) && a@ == list_action(
                    old(self).spec_page().spec_kind(),
                    old(self).spec_page().spec_list(),
                    old(self).spec_page().spec_selected(),
                    *key,
                )
                &&& final(self).spec_tab() == old(self).spec_tab()
                &&& final(self).spec_page().spec_kind() == old(self).spec_page().spec_kind()
                &&& final(self).spec_page().spec_list() == old(self).spec_page().spec_list()
                &&& final(self).spec_page().spec_selected() == selection_after(
                    old(self).spec_page().spec_selected(),
                    *key,
                )
            },
    {
        proof {
            use_type_invariant(&*self);
        }
        let quit = match key {
            Key::Esc => true,
            Key::Char(c) => *c == 'q' || *c == 'Q',
            _ => false,
        };
        if quit {
            return MenuAction::Quit;
        }
        let moved = match key {
            Key::Left => Some(if self.tab > 0 { self.tab - 1 } else { 0 }),
            Key::Right => Some(if self.tab < 3 { self.tab + 1 } else { 3 }),
            _ => None,
        };
        match moved {
            Some(t) => {
                if t != self.tab {
                    let kind = Kind::tab_kind(t);
                    *self = MainMenu { tab: t, page: ListPage::new(kind) };
                }
                MenuAction::Page(ListAction::Nothing)
            },
            None => {
                let mut page = ListPage::new(self.page.kind());
                std::mem::swap(&mut page, &mut self.page);
                let r = page.handle_input(key);
                self.page = page;
                MenuAction::Page(r)
            },
        }
    }
}

/// Where a screen that starts a branch is.
#[derive(Debug, PartialEq, Eq)]
pub enum StartProcState {
    /// Fetching from the remotes before asking for a name.
    Fetching,
    /// Asking for the name.
    EnterName,
    /// The branch is being created.
    Creating,
    /// Done, one way or the other.
    Finished,
}

/// What a key press on a screen that starts a branch leads to.
#[derive(Debug, PartialEq, Eq)]
pub enum StartInput {
    /// Leave the screen for this one.
    Back(AppState),
    /// Check the typed name against the existing branches
    /// (`confirm_name`), then start the branch.
    CheckName,
    /// Nothing more.
    Nothing,
}

/// A screen that asks for a name and starts a branch of that name.
pub struct StartPage {
    kind: Kind,
    name: InputState,
    state: StartProcState,
    popup_message: Option<String>,
    messages: Vec<String>,
}

/// Whether every character of `s` is one the name inputs take.
pub open spec fn all_name_chars(s: Seq<char>) -> bool {
    forall|i: int| 0 <= i < s.len() ==> is_name_char(#[trigger] s[i])
}

impl StartPage {
    #[verifier::type_invariant]
    spec fn typed_names_only(&self) -> bool {
        all_name_chars(self.name.value@)
    }

    pub closed spec fn spec_kind(&self) -> Kind {
        self.kind
    }

    pub closed spec fn spec_name(&self) -> Seq<char> {
        self.name.value@
    }

    pub closed spec fn spec_state(&self) -> StartProcState {
        self.state
    }

    pub closed spec fn spec_popup(&self) -> Option<Seq<char>> {
        match self.popup_message {
            Some(m) => Some(m@),
            None => None,
        }
    }

    pub closed spec fn spec_messages(&self) -> Seq<Seq<char>> {
        views(self.messages@)
    }

    /// A screen starting a branch of kind `kind`, no name typed; it fetches
    /// first, and says so, when the kind asks for it.
    pub fn new(kind: Kind) -> (p: StartPage)
        ensures
            p.spec_kind() == kind,
            p.spec_name() == Seq::<char>::empty(),
            p.spec_state() == if kind.fetches_first() {
                StartProcState::Fetching
            } else {
                StartProcState::EnterName
            },
            p.spec_popup() is None,
            p.spec_messages() == if kind.fetches_first() {
                seq!["Fetching from remotes..."@]
            } else {
                Seq::<Seq<char>>::empty()
            },
    {
        let fetch_first = kind.fetches();
        let mut messages: Vec<String> = Vec::new();
        if fetch_first {
            messages.push(String::from_str("Fetching from remotes..."));
        }
        proof {
            assert(views(messages@) =~= if kind.fetches_first() {
                seq!["Fetching from remotes..."@]
            } else {
                Seq::<Seq<char>>::empty()
            });
        }
        StartPage {
            kind,
            name: InputState { value: String::new() },
            state: if fetch_first {
                StartProcState::Fetching
            } else {
                StartProcState::EnterName
            },
            popup_message: None,
            messages,
        }
    }

    /// The kind of branch started.
    pub fn kind(&self) -> (k: Kind)
        ensures
            k == self.spec_kind(),
    {
        self.kind
    }

    /// The name typed so far.
    pub fn name(&self) -> (n: &str)
        ensures
            n@ == self.spec_name(),
            all_name_chars(n@),
    {
        proof {
            use_type_invariant(self);
        }
        self.name.value.as_str()
    }

    /// Where the screen is.
    pub fn state(&self) -> (s: &StartProcState)
        ensures
            *s == self.spec_state(),
    {
        &self.state
    }

    /// The error shown over the screen, if any.
    pub fn popup_message(&self) -> (m: Option<&String>)
        ensures
            match m {
                Some(s) => self.spec_popup() == Some(s@),
                None => self.spec_popup() is None,
            },
    {
        match &self.popup_message {
            Some(m) => Some(m),
            None => None,
        }
    }

    /// The messages shown, oldest first.
    pub fn messages(&self) -> (m: &Vec<String>)
        ensures
            views(m@) == self.spec_messages(),
    {
        &self.messages
    }

    /// Adds `message` to the messages shown (what the running operation
    /// reports).
    pub fn add_message(&mut self, message: String)
        ensures
            final(self).spec_messages() == old(self).spec_messages().push(message@),
            final(self).spec_kind() == old(self).spec_kind(),
            final(self).spec_name() == old(self).spec_name(),
            final(self).spec_state() == old(self).spec_state(),
            final(self).spec_popup() == old(self).spec_popup(),
    {
        proof {
            use_type_invariant(&*self);
        }
        let ghost before = views(self.messages@);
        let mut messages: Vec<String> = Vec::new();
        std::mem::swap(&mut messages, &mut self.messages);
        messages.push(message);
        proof {
            assert(views(messages@) =~= before.push(message@));
        }
        self.messages = messages;
    }

    /// The footer: Enter is offered once the typed name is longer than four
    /// characters (bytes: names are ASCII); once done only Esc is; while
    /// fetching or creating nothing is.
    pub fn footer(&self) -> (t: Option<String>)
        ensures
            match self.spec_state() {
                StartProcState::EnterName => t matches Some(s) && s@ == if self.spec_name().len() > 4 {
                    "Enter: continue | Esc: back"@
                } else {
                    "Esc: back"@
                },
                StartProcState::Finished => t matches Some(s) && s@ == "Esc: back"@,
                _ => t is None,
            },
    {
        match self.state {
            StartProcState::EnterName => {
                if self.name.value.as_str().unicode_len() > 4 {
                    Some(String::from_str("Enter: continue | Esc: back"))
                } else {
                    Some(String::from_str("Esc: back"))
                }
            },
            StartProcState::Finished => Some(String::from_str("Esc: back")),
            _ => None,
        }
    }

    /// What `key` does: Esc closes the popup, or else goes back to the
    /// kind's list while the screen asks for a name or is done; while it
    /// asks for a name, Enter asks for the name to be checked, a name
    /// character is typed and Backspace erases the last one.
    pub fn handle_input(&mut self, key: &Key) -> (r: StartInput)
        ensures
            match *key {
                Key::Esc => if old(self).spec_popup() is Some {
                    r is Nothing && final(self).spec_popup() is None
                        && final(self).spec_name() == old(self).spec_name()
                        && final(self).spec_state() == old(self).spec_state()
                        && final(self).spec_kind() == old(self).spec_kind()
                        && final(self).spec_messages() == old(self).spec_messages()
                } else {
                    (if old(self).spec_state() is EnterName || old(self).spec_state() is Finished {
                        r == StartInput::Back(old(self).spec_kind().list_screen())
                    } else {
                        r is Nothing
                    }) && *final(self) == *old(self)
                },
                Key::Enter => (if old(self).spec_state() is EnterName {
                    r is CheckName
                } else {
                    r is Nothing
                }) && *final(self) == *old(self),
                Key::Char(c) => r is Nothing && final(self).spec_state() == old(self).spec_state()
                    && final(self).spec_popup() == old(self).spec_popup()
                    && final(self).spec_kind() == old(self).spec_kind()
                    && final(self).spec_messages() == old(self).spec_messages()
                    && final(self).spec_name() == if old(self).spec_state() is EnterName
                    && is_name_char(c) {
                    old(self).spec_name().push(c)
                } else {
                    old(self).spec_name()
                },
                Key::Backspace => r is Nothing && final(self).spec_state() == old(self).spec_state()
                    && final(self).spec_popup() == old(self).spec_popup()
                    && final(self).spec_kind() == old(self).spec_kind()
                    && final(self).spec_messages() == old(self).spec_messages()
                    && final(self).spec_name() == if old(self).spec_state() is EnterName
                    && old(self).spec_name().len() > 0 {
                    old(self).spec_name().drop_last()
                } else {
                    old(self).spec_name()
                },
                _ => r is Nothing && *final(self) == *old(self),
            },
    {
        proof {
            use_type_invariant(&*self);
        }
        let entering = match self.state {
            StartProcState::EnterName => true,
            _ => false,
        };
        match key {
            Key::Esc => {
                if self.popup_message.is_some() {
                    self.popup_message = None;
                    StartInput::Nothing
                } else {
                    match self.state {
                        StartProcState::EnterName | StartProcState::Finished => StartInput::Back(
                            self.kind.back_state(),
                        ),
                        _ => StartInput::Nothing,
                    }
                }
            },
            Key::Enter => {
                if entering {
                    StartInput::CheckName
                } else {
                    StartInput::Nothing
                }
            },
            Key::Char(c) => {
                if entering && accepts_name_char(*c) {
                    let mut name = InputState::new(self.name.value.as_str());
                    name.push(*c);
                    assert(all_name_chars(name.value@));
                    self.name = name;
                }
                StartInput::Nothing
            },
            Key::Backspace => {
                if entering && !self.name.value.as_str().is_empty() {
                    let mut name = InputState::new(self.name.value.as_str());
                    name.pop();
                    assert(all_name_chars(name.value@));
                    self.name = name;
                }
                StartInput::Nothing
            },
            _ => StartInput::Nothing,
        }
    }

    /// The check of the typed name against the local branches `local` of
    /// the kind and, for kinds that check them, its remote branches
    /// `remote`. A taken name is erased and refused: the kind's message is
    /// shown in a popup, or, for features, added to the messages unless
    /// they hold it already. Another name starts the creation. Whether the
    /// creation starts.
    pub fn confirm_name(&mut self, local: &[String], remote: &[String]) -> (start: bool)
        ensures
            start == !(views(local@).contains(old(self).spec_name()) || (
            old(self).spec_kind().checks_remote() && views(remote@).contains(old(self).spec_name()))),
            final(self).spec_kind() == old(self).spec_kind(),
            start ==> final(self).spec_state() is Creating && final(self).spec_name()
                == old(self).spec_name() && final(self).spec_popup() == old(self).spec_popup()
                && final(self).spec_messages() == old(self).spec_messages(),
            !start ==> final(self).spec_state() == old(self).spec_state() && final(self).spec_name()
                == Seq::<char>::empty(),
            !start && old(self).spec_kind().checks_remote() ==> final(self).spec_popup() == Some(
                old(self).spec_kind().taken_text(),
            ) && final(self).spec_messages() == old(self).spec_messages(),
            !start && !old(self).spec_kind().checks_remote() ==> final(self).spec_popup() == old(
                self,
            ).spec_popup() && final(self).spec_messages() == if old(self).spec_messages().contains(
                old(self).spec_kind().taken_text(),
            ) {
                old(self).spec_messages()
            } else {
                old(self).spec_messages().push(old(self).spec_kind().taken_text())
            },
    {
        proof {
            use_type_invariant(&*self);
        }
        let check_remote = self.kind.checks_remote_branches();
        let taken = contains_string(local, &self.name.value) || (check_remote && contains_string(
            remote,
            &self.name.value,
        ));
        if taken {
            let message = self.kind.taken_message();
            if check_remote {
                self.popup_message = Some(message);
            } else if !contains_string(self.messages.as_slice(), &message) {
                self.add_message(message);
            }
            self.name = InputState { value: String::new() };
            false
        } else {
            self.state = StartProcState::Creating;
            true
        }
    }

    /// After fetching from the remotes (`fetched` is how that went): on
    /// success the screen asks for a name; on failure it is done, and the
    /// error's description is added to the messages. Outside the fetch
    /// nothing changes.
    pub fn fetched(&mut self, fetched: &Result<(), crate::git::errors::GitError>)
        ensures
            final(self).spec_kind() == old(self).spec_kind(),
            final(self).spec_name() == old(self).spec_name(),
            final(self).spec_popup() == old(self).spec_popup(),
            old(self).spec_state() is Fetching ==> match *fetched {
                Ok(()) => final(self).spec_state() is EnterName && final(self).spec_messages()
                    == old(self).spec_messages(),
                Err(e) => final(self).spec_state() is Finished && final(self).spec_messages()
                    == old(self).spec_messages().push(e@.message()),
            },
            !(old(self).spec_state() is Fetching) ==> final(self).spec_state() == old(self).spec_state()
                && final(self).spec_messages() == old(self).spec_messages(),
    {
        proof {
            use_type_invariant(&*self);
        }
        match self.state {
            StartProcState::Fetching => match fetched {
                Ok(()) => {
                    self.state = StartProcState::EnterName;
                },
                Err(e) => {
                    self.state = StartProcState::Finished;
                    self.add_message(e.message());
                },
            },
            _ => {},
        }
    }

    /// While the branch is being created: once the work has `finished`, the
    /// screen is done.
    pub fn worker_finished(&mut self, finished: bool)
        ensures
            final(self).spec_kind() == old(self).spec_kind(),
            final(self).spec_name() == old(self).spec_name(),
            final(self).spec_popup() == old(self).spec_popup(),
            final(self).spec_messages() == old(self).spec_messages(),
            final(self).spec_state() == if old(self).spec_state() is Creating && finished {
                StartProcState::Finished
            } else {
                old(self).spec_state()
            },
    {
        proof {
            use_type_invariant(&*self);
        }
        if finished {
            match self.state {
                StartProcState::Creating => {
                    self.state = StartProcState::Finished;
                },
                _ => {},
            }
        }
    }
}

/// Where a screen that finishes a branch is.
#[derive(Debug, PartialEq, Eq)]
pub enum FinishProcState {
    /// Asking whether to finish.
    Confirm,
    /// The branch is being finished.
    Finishing,
    /// Done, one way or the other.
    Finished,
}

/// What a key press on a screen that finishes a branch leads to.
#[derive(Debug, PartialEq, Eq)]
pub enum FinishInput {
    /// Leave the screen for this one.
    Back(AppState),
    /// Start finishing the branch.
    StartFinishing,
    /// Nothing more.
    Nothing,
}

/// Whether `key` moves to the previous choice on the finish screen of
/// `kind`: features list their choices one above the other (Up), the other
/// kinds side by side (Left).
pub open spec fn previous_key(kind: Kind, key: Key) -> bool {
    if kind is Feature {
        key is Up
    } else {
        key is Left
    }
}

/// Whether `key` moves to the next choice on the finish screen of `kind`
/// (Down for features, Right for the other kinds).
pub open spec fn next_key(kind: Kind, key: Key) -> bool {
    if kind is Feature {
        key is Down
    } else {
        key is Right
    }
}

/// A screen that asks whether to finish the branch `name` of a kind ("No"
/// is the first choice, "Yes" the second) and then finishes it.
pub struct FinishPage {
    kind: Kind,
    name: String,
    entry: MultiChoiceState,
    state: FinishProcState,
    messages: Vec<String>,
}

impl FinishPage {
    pub closed spec fn spec_kind(&self) -> Kind {
        self.kind
    }

    pub closed spec fn spec_name(&self) -> Seq<char> {
        self.name@
    }

    pub closed spec fn spec_state(&self) -> FinishProcState {
        self.state
    }

    pub closed spec fn spec_entry(&self) -> MultiChoiceState {
        self.entry
    }

    pub closed spec fn spec_messages(&self) -> Seq<Seq<char>> {
        views(self.messages@)
    }

    /// A screen asking whether to finish the branch `name` of kind `kind`,
    /// with "No" selected.
    pub fn new(kind: Kind, name: String) -> (p: FinishPage)
        ensures
            p.spec_kind() == kind,
            p.spec_name() == name@,
            p.spec_state() is Confirm,
            p.spec_entry().spec_selected() == 0,
            p.spec_entry().spec_available() is None,
            p.spec_messages() == Seq::<Seq<char>>::empty(),
    {
        let messages: Vec<String> = Vec::new();
        assert(views(messages@) =~= Seq::<Seq<char>>::empty());
        FinishPage { kind, name, entry: MultiChoiceState::new(), state: FinishProcState::Confirm, messages }
    }

    /// The kind of branch finished.
    pub fn kind(&self) -> (k: Kind)
        ensures
            k == self.spec_kind(),
    {
        self.kind
    }

    /// The branch finished.
    pub fn name(&self) -> (n: &str)
        ensures
            n@ == self.spec_name(),
    {
        self.name.as_str()
    }

    /// The question asked: `Are you sure you want to finish '<name>' <kind>?`.
    pub fn question(&self) -> (q: String)
        ensures
            q@ == "Are you sure you want to finish '"@ + self.spec_name() + "' "@
                + self.spec_kind().label() + "?"@,
    {
        let kind = self.kind.name();
        String::from_str("Are you sure you want to finish '").concat(self.name.as_str()).concat(
            "' ",
        ).concat(kind.as_str()).concat("?")
    }

    /// The choice between "No" and "Yes".
    pub fn entry(&self) -> (e: &MultiChoiceState)
        ensures
            *e == self.spec_entry(),
    {
        &self.entry
    }

    /// Where the screen is.
    pub fn state(&self) -> (s: &FinishProcState)
        ensures
            *s == self.spec_state(),
    {
        &self.state
    }

    /// The messages shown, oldest first.
    pub fn messages(&self) -> (m: &Vec<String>)
        ensures
            views(m@) == self.spec_messages(),
    {
        &self.messages
    }

    /// Adds `message` to the messages shown (what the running operation
    /// reports).
    pub fn add_message(&mut self, message: String)
        ensures
            final(self).spec_messages() == old(self).spec_messages().push(message@),
            final(self).spec_kind() == old(self).spec_kind(),
            final(self).spec_name() == old(self).spec_name(),
            final(self).spec_state() == old(self).spec_state(),
            final(self).spec_entry() == old(self).spec_entry(),
    {
        let ghost before = views(self.messages@);
        self.messages.push(message);
        assert(views(self.messages@) =~= before.push(message@));
    }

    /// Records how many choices the question shows.
    pub fn set_choices(&mut self, size: usize)
        ensures
            final(self).spec_kind() == old(self).spec_kind(),
            final(self).spec_name() == old(self).spec_name(),
            final(self).spec_state() == old(self).spec_state(),
            final(self).spec_messages() == old(self).spec_messages(),
            final(self).spec_entry().spec_selected() == old(self).spec_entry().spec_selected(),
            final(self).spec_entry().spec_available() == Some(size),
    {
        self.entry.set_available(size);
    }

    /// The footer: while asking, the keys that move between the choices
    /// (Up/Down for features, Left/Right for the other kinds), Enter and
    /// Esc; once done, Esc; while finishing, nothing.
    pub fn footer(&self) -> (t: Option<String>)
        ensures
            match self.spec_state() {
                FinishProcState::Confirm => t matches Some(s) && s@ == if self.spec_kind() is Feature {
                    "Up/Down: navigate | Enter: select | Esc: back"@
                } else {
                    "Left/Right: navigate | Enter: select | Esc: back"@
                },
                FinishProcState::Finished => t matches Some(s) && s@ == "Esc: back"@,
                FinishProcState::Finishing => t is None,
            },
    {
        match self.state {
            FinishProcState::Confirm => match self.kind {
                Kind::Feature => Some(String::from_str("Up/Down: navigate | Enter: select | Esc: back")),
                _ => Some(String::from_str("Left/Right: navigate | Enter: select | Esc: back")),
            },
            FinishProcState::Finishing => None,
            FinishProcState::Finished => Some(String::from_str("Esc: back")),
        }
    }

    /// What `key` does: Esc goes back to the kind's list unless the branch
    /// is being finished; while asking, the navigation keys move between the
    /// choices and Enter either goes back ("No") or starts finishing
    /// ("Yes").
    pub fn handle_input(&mut self, key: &Key) -> (r: FinishInput)
        ensures
            match *key {
                Key::Esc => (if old(self).spec_state() is Finishing {
                    r is Nothing
                } else {
                    r == FinishInput::Back(old(self).spec_kind().list_screen())
                }) && *final(self) == *old(self),
                Key::Enter => if old(self).spec_state() is Confirm {
                    if old(self).spec_entry().spec_selected() == 0 {
                        r == FinishInput::Back(old(self).spec_kind().list_screen())
                            && *final(self) == *old(self)
                    } else {
                        r is StartFinishing && final(self).spec_state() is Finishing
                            && final(self).spec_entry() == old(self).spec_entry()
                            && final(self).spec_kind() == old(self).spec_kind()
                            && final(self).spec_name() == old(self).spec_name()
                            && final(self).spec_messages() == old(self).spec_messages()
                    }
                } else {
                    r is Nothing && *final(self) == *old(self)
                },
                _ => r is Nothing && final(self).spec_state() == old(self).spec_state()
                    && final(self).spec_kind() == old(self).spec_kind()
                    && final(self).spec_name() == old(self).spec_name()
                    && final(self).spec_messages() == old(self).spec_messages()
                    && final(self).spec_entry().spec_available() == old(self).spec_entry().spec_available()
                    && final(self).spec_entry().spec_selected() == if old(self).spec_state() is Confirm
                    && previous_key(old(self).spec_kind(), *key) {
                    previous_choice(old(self).spec_entry().spec_selected())
                } else if old(self).spec_state() is Confirm && next_key(old(self).spec_kind(), *key) {
                    next_choice(old(self).spec_entry().spec_selected(), old(self).spec_entry().spec_available())
                } else {
                    old(self).spec_entry().spec_selected()
                },
            },
    {
        let confirming = match self.state {
            FinishProcState::Confirm => true,
            _ => false,
        };
        let vertical = match self.kind {
            Kind::Feature => true,
            _ => false,
        };
        match key {
            Key::Esc => {
                match self.state {
                    FinishProcState::Finishing => FinishInput::Nothing,
                    _ => FinishInput::Back(self.kind.back_state()),
                }
            },
            Key::Enter => {
                if confirming {
                    if self.entry.selected() == 0 {
                        FinishInput::Back(self.kind.back_state())
                    } else {
                        self.state = FinishProcState::Finishing;
                        FinishInput::StartFinishing
                    }
                } else {
                    FinishInput::Nothing
                }
            },
            _ => {
                let previous = match key {
                    Key::Up => vertical,
                    Key::Left => !vertical,
                    _ => false,
                };
                let next = match key {
                    Key::Down => vertical,
                    Key::Right => !vertical,
                    _ => false,
                };
                if confirming && previous {
                    self.entry.select_previous();
                } else if confirming && next {
                    self.entry.select_next();
                }
                FinishInput::Nothing
            },
        }
    }

    /// While the branch is being finished: once the work has `finished`,
    /// the screen is done.
    pub fn worker_finished(&mut self, finished: bool)
        ensures
            final(self).spec_kind() == old(self).spec_kind(),
            final(self).spec_name() == old(self).spec_name(),
            final(self).spec_messages() == old(self).spec_messages(),
            final(self).spec_entry() == old(self).spec_entry(),
            final(self).spec_state() == if old(self).spec_state() is Finishing && finished {
                FinishProcState::Finished
            } else {
                old(self).spec_state()
            },
    {
        if finished {
            match self.state {
                FinishProcState::Finishing => {
                    self.state = FinishProcState::Finished;
                },
                _ => {},
            }
        }
    }
}

} // verus!
