//! The decisions of the terminal screens: which screen comes next, what a
//! key press does to a screen's state, and what the screens show.
pub mod pages;
pub mod widgets;

use vstd::prelude::*;
use vstd::string::*;

verus! {

/// The screens of the application. The hotfixes are listed under a tab of
/// the main menu only, which is where their start screen goes back to.
#[derive(Debug, Clone, PartialEq, Eq)]
pub enum AppState {
    MainMenu,
    FeatureList,
    FeatureStart,
    FeatureFinish,
    ReleaseList,
    ReleaseStart,
    ReleaseFinish,
    BugfixList,
    BugfixStart,
    BugfixFinish,
    HotfixStart,
}

/// A key press, as far as the screens tell keys apart.
#[derive(Debug, Clone, PartialEq, Eq)]
pub enum Key {
    Esc,
    Enter,
    Left,
    Right,
    Up,
    Down,
    Backspace,
    Delete,
    Char(char),
    Other,
}

/// The kinds of branches the screens work on; each has a list, a start
/// screen and (but hotfixes) a finish screen.
#[derive(Debug, Clone, Copy, PartialEq, Eq)]
pub enum Kind {
    Feature,
    Release,
    Bugfix,
    Hotfix,
}

impl Kind {
    /// The screen that the start and finish screens of the kind go back to.
    pub open spec fn list_screen(self) -> AppState {
        match self {
            Kind::Feature => AppState::FeatureList,
            Kind::Release => AppState::ReleaseList,
            Kind::Bugfix => AppState::BugfixList,
            Kind::Hotfix => AppState::MainMenu,
        }
    }

    /// The screen that starts a branch of the kind.
    pub open spec fn start_screen(self) -> AppState {
        match self {
            Kind::Feature => AppState::FeatureStart,
            Kind::Release => AppState::ReleaseStart,
            Kind::Bugfix => AppState::BugfixStart,
            Kind::Hotfix => AppState::HotfixStart,
        }
    }

    /// The screen that finishes a branch of the kind; hotfixes have none.
    pub open spec fn finish_screen(self) -> Option<AppState> {
        match self {
            Kind::Feature => Some(AppState::FeatureFinish),
            Kind::Release => Some(AppState::ReleaseFinish),
            Kind::Bugfix => Some(AppState::BugfixFinish),
            Kind::Hotfix => None,
        }
    }

    /// The kind listed under tab `tab` of the main menu.
    pub open spec fn of_tab(tab: int) -> Kind {
        if tab == 0 {
            Kind::Feature
        } else if tab == 1 {
            Kind::Release
        } else if tab == 2 {
            Kind::Bugfix
        } else {
            Kind::Hotfix
        }
    }

    /// The kind's name, as in its branches `<name>/...`.
    pub open spec fn label(self) -> Seq<char> {
        match self {
            Kind::Feature => "feature"@,
            Kind::Release => "release"@,
            Kind::Bugfix => "bugfix"@,
            Kind::Hotfix => "hotfix"@,
        }
    }

    /// What the start screen says when the typed name is taken.
    pub open spec fn taken_text(self) -> Seq<char> {
        match self {
            Kind::Feature => "Feature already exists"@,
            Kind::Release => "Release already exists"@,
            Kind::Bugfix => "Bugfix already exists"@,
            Kind::Hotfix => "Hotfix already exists"@,
        }
    }

    /// Whether the start screen fetches from the remotes before asking for a
    /// name: hotfixes branch off the main branch, which must be up to date.
    pub open spec fn fetches_first(self) -> bool {
        self is Hotfix
    }

    /// Whether the start screen refuses names that remote branches of the
    /// kind have too (features are checked against local branches only),
    /// and says so in a popup (features add a line to the messages).
    pub open spec fn checks_remote(self) -> bool {
        !(self is Feature)
    }

    /// The screen that the start and finish screens of the kind go back to.
    pub fn back_state(&self) -> (s: AppState)
        ensures
            s == self.list_screen(),
    {
        match self {
            Kind::Feature => AppState::FeatureList,
            Kind::Release => AppState::ReleaseList,
            Kind::Bugfix => AppState::BugfixList,
            Kind::Hotfix => AppState::MainMenu,
        }
    }

    /// The screen that starts a branch of the kind.
    pub fn start_state(&self) -> (s: AppState)
        ensures
            s == self.start_screen(),
    {
        match self {
            Kind::Feature => AppState::FeatureStart,
            Kind::Release => AppState::ReleaseStart,
            Kind::Bugfix => AppState::BugfixStart,
            Kind::Hotfix => AppState::HotfixStart,
        }
    }

    /// The screen that finishes a branch of the kind, if it has one.
    pub fn finish_state(&self) -> (s: Option<AppState>)
        ensures
            s == self.finish_screen(),
    {
        match self {
            Kind::Feature => Some(AppState::FeatureFinish),
            Kind::Release => Some(AppState::ReleaseFinish),
            Kind::Bugfix => Some(AppState::BugfixFinish),
            Kind::Hotfix => None,
        }
    }

    /// The kind listed under tab `tab` of the main menu (the last tab for
    /// any index past it).
    pub fn tab_kind(tab: usize) -> (k: Kind)
        ensures
            k == Kind::of_tab(tab as int),
    {
        if tab == 0 {
            Kind::Feature
        } else if tab == 1 {
            Kind::Release
        } else if tab == 2 {
            Kind::Bugfix
        } else {
            Kind::Hotfix
        }
    }

    /// The kind's name, as in its branches `<name>/...`.
    pub fn name(&self) -> (n: String)
        ensures
            n@ == self.label(),
    {
        match self {
            Kind::Feature => String::from_str("feature"),
            Kind::Release => String::from_str("release"),
            Kind::Bugfix => String::from_str("bugfix"),
            Kind::Hotfix => String::from_str("hotfix"),
        }
    }

    /// What the start screen says when the typed name is taken.
    pub fn taken_message(&self) -> (t: String)
        ensures
            t@ == self.taken_text(),
    {
        match self {
            Kind::Feature => String::from_str("Feature already exists"),
            Kind::Release => String::from_str("Release already exists"),
            Kind::Bugfix => String::from_str("Bugfix already exists"),
            Kind::Hotfix => String::from_str("Hotfix already exists"),
        }
    }

    /// The header of the kind's start screen: `Start <kind>`.
    pub fn start_title(&self) -> (t: String)
        ensures
            t@ == "Start "@ + self.label(),
    {
        let name = self.name();
        String::from_str("Start ").concat(name.as_str())
    }

    /// The header of the kind's finish screen: `Finish <kind>`.
    pub fn finish_title(&self) -> (t: String)
        ensures
            t@ == "Finish "@ + self.label(),
    {
        let name = self.name();
        String::from_str("Finish ").concat(name.as_str())
    }

    /// The title of the name input on the kind's start screen:
    /// `Enter <kind> name`.
    pub fn name_prompt(&self) -> (t: String)
        ensures
            t@ == "Enter "@ + self.label() + " name"@,
    {
        let name = self.name();
        String::from_str("Enter ").concat(name.as_str()).concat(" name")
    }

    /// Whether the start screen fetches from the remotes first.
    pub fn fetches(&self) -> (b: bool)
        ensures
            b == self.fetches_first(),
    {
        match self {
            Kind::Hotfix => true,
            _ => false,
        }
    }

    /// Whether the start screen checks the remote branches too.
    pub fn checks_remote_branches(&self) -> (b: bool)
        ensures
            b == self.checks_remote(),
    {
        match self {
            Kind::Feature => false,
            _ => true,
        }
    }
}

} // verus!
