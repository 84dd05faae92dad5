use vstd::prelude::*;
use vstd::string::*;
use crate::action::Action;
use crate::components::views::ViewComponent;
use crate::input::KeyEvent;
use crate::text::concat3;

verus! {

/// A placeholder view that shows its title.
pub struct TestViewComponent {
    pub title: String,
}

impl Default for TestViewComponent {
    fn default() -> (v: Self)
        ensures
            v.title@ == Seq::<char>::empty(),
    {
        Self { title: String::new() }
    }
}

impl TestViewComponent {
    /// The placeholder titled `title`.
    pub fn new(title: &str) -> (v: TestViewComponent)
        ensures
            v.title@ == title@,
    {
        TestViewComponent { title: String::from_str(title) }
    }

    /// The text it shows: " ", its title, then ": Component".
    pub fn text(&self) -> (s: String)
        ensures
            s@ == " "@ + self.title@ + ": Component"@,
    {
        concat3(" ", self.title.as_str(), ": Component")
    }
}

impl ViewComponent for TestViewComponent {
    open spec fn key_ready(&self, key: KeyEvent) -> bool {
        true
    }

    open spec fn action_ready(&self, action: Action) -> bool {
        true
    }

    fn title(&self) -> (t: &str)
        ensures
            t@ == self.title@,
    {
        self.title.as_str()
    }

    fn handle_key_events(&mut self, key: KeyEvent) -> (r: Option<Action>)
        ensures
            r is None,
            *final(self) == *old(self),
    {
        None
    }
}

} // verus!
