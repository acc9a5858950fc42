//! The state behind the small widgets: a popup, a text input and a row of
//! choices.
use vstd::prelude::*;
use vstd::string::*;
use crate::text::push_char;

verus! {

/// A titled box drawn over a screen.
pub struct Popup {
    title: String,
    content: String,
}

impl Popup {
    pub closed spec fn spec_title(&self) -> Seq<char> {
        self.title@
    }

    pub closed spec fn spec_content(&self) -> Seq<char> {
        self.content@
    }

    /// A popup titled `title` that shows `content`.
    pub fn new(title: &str, content: &str) -> (p: Popup)
        ensures
            p.spec_title() == title@,
            p.spec_content() == content@,
    {
        Popup { title: title.to_owned(), content: content.to_owned() }
    }

    pub fn title(&self) -> (t: &str)
        ensures
            t@ == self.spec_title(),
    {
        self.title.as_str()
    }

    pub fn content(&self) -> (c: &str)
        ensures
            c@ == self.spec_content(),
    {
        self.content.as_str()
    }
}

/// Removes the last character of a string (`String::pop`).
#[verifier::external_body]
fn pop_char(s: &mut String) -> (c: Option<char>)
    ensures
        old(s)@.len() > 0 ==> c == Some(old(s)@.last()) && final(s)@ == old(s)@.drop_last(),
        old(s)@.len() == 0 ==> c is None && final(s)@ == old(s)@,
{
    s.pop()
}

/// The text typed into a text input.
pub struct InputState {
    pub value: String,
}

impl InputState {
    /// An input holding `value`.
    pub fn new(value: &str) -> (s: InputState)
        ensures
            s.value@ == value@,
    {
        InputState { value: value.to_owned() }
    }

    /// Types `c` at the end.
    pub fn push(&mut self, c: char)
        ensures
            final(self).value@ == old(self).value@.push(c),
    {
        push_char(&mut self.value, c);
    }

    /// Erases the last character, if any.
    pub fn pop(&mut self)
        ensures
            final(self).value@ == if old(self).value@.len() > 0 {
                old(self).value@.drop_last()
            } else {
                old(self).value@
            },
    {
        let _ = pop_char(&mut self.value);
    }

    /// Erases everything.
    pub fn clear(&mut self)
        ensures
            final(self).value@ == Seq::<char>::empty(),
    {
        self.value = String::new();
    }
}

/// A text input: a title followed by what was typed.
pub struct TextInput {
    pub title: String,
}

impl TextInput {
    /// An input titled `title`.
    pub fn new(title: &str) -> (t: TextInput)
        ensures
            t.title@ == title@,
    {
        TextInput { title: title.to_owned() }
    }
}

/// Which of a row of choices is selected, and how many choices there are
/// once the row has been drawn.
pub struct MultiChoiceState {
    selected: usize,
    available: Option<usize>,
}

/// The choice `select_next` moves to from `selected`: one further, but not
/// past the last choice; nowhere before the choices are known.
pub open spec fn next_choice(selected: int, available: Option<usize>) -> int {
    match available {
        Some(max) => {
            let last = if max > 0 { max - 1 } else { 0 };
            if selected + 1 <= last { selected + 1 } else { last }
        },
        None => selected,
    }
}

/// The choice `select_previous` moves to from `selected`: one back, but not
/// before the first.
pub open spec fn previous_choice(selected: int) -> int {
    if selected > 0 { selected - 1 } else { 0 }
}

impl MultiChoiceState {
    #[verifier::type_invariant]
    spec fn below_max(&self) -> bool {
        self.selected < usize::MAX
    }

    pub closed spec fn spec_selected(&self) -> int {
        self.selected as int
    }

    pub closed spec fn spec_available(&self) -> Option<usize> {
        self.available
    }

    /// The first choice selected; the number of choices not known yet.
    pub fn new() -> (s: MultiChoiceState)
        ensures
            s.spec_selected() == 0,
            s.spec_available() is None,
    {
        MultiChoiceState { selected: 0, available: None }
    }

    /// The index of the selected choice.
    pub fn selected(&self) -> (i: usize)
        ensures
            i == self.spec_selected(),
    {
        self.selected
    }

    /// Selects the next choice, staying on the last one.
    pub fn select_next(&mut self)
        ensures
            final(self).spec_selected() == next_choice(old(self).spec_selected(), old(self).spec_available()),
            final(self).spec_available() == old(self).spec_available(),
    {
        proof {
            use_type_invariant(&*self);
        }
        if let Some(max) = self.available {
            let last = if max > 0 { max - 1 } else { 0 };
            let further = self.selected + 1;
            self.selected = if further <= last { further } else { last };
        }
    }

    /// Selects the previous choice, staying on the first one.
    pub fn select_previous(&mut self)
        ensures
            final(self).spec_selected() == previous_choice(old(self).spec_selected()),
            final(self).spec_available() == old(self).spec_available(),
    {
        proof {
            use_type_invariant(&*self);
        }
        self.selected = if self.selected > 0 { self.selected - 1 } else { 0 };
    }

    /// Records how many choices there are.
    pub fn set_available(&mut self, size: usize)
        ensures
            final(self).spec_selected() == old(self).spec_selected(),
            final(self).spec_available() == Some(size),
    {
        proof {
            use_type_invariant(&*self);
        }
        self.available = Some(size);
    }
}

/// A question with a row of choices.
pub struct MultiChoice {
    title: String,
    options: Vec<String>,
}

impl MultiChoice {
    pub closed spec fn spec_title(&self) -> Seq<char> {
        self.title@
    }

    pub closed spec fn spec_options(&self) -> Seq<String> {
        self.options@
    }

    /// The question `title` with the choices `options`, in order.
    pub fn new(title: &str, options: Vec<String>) -> (m: MultiChoice)
        ensures
            m.spec_title() == title@,
            m.spec_options() == options@,
    {
        MultiChoice { title: title.to_owned(), options }
    }

    pub fn title(&self) -> (t: &str)
        ensures
            t@ == self.spec_title(),
    {
        self.title.as_str()
    }

    pub fn options(&self) -> (o: &Vec<String>)
        ensures
            o@ == self.spec_options(),
    {
        &self.options
    }
}

} // verus!
