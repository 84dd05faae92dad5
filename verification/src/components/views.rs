use vstd::prelude::*;
use crate::action::Action;
use crate::input::{KeyCode, KeyEvent, KeyEventKind};

pub mod locale;
pub mod password;
pub mod pinout;
pub mod ssh;
pub mod test;
pub mod wifi;

verus! {

/// A view shown in the configuration area: it has a title, reacts to keys and to actions, and
/// may answer with an action for the application.
pub trait ViewComponent: Sized {
    /// The view can take `key` in its present state.
    spec fn key_ready(&self, key: KeyEvent) -> bool;

    /// The view can take `action` in its present state.
    spec fn action_ready(&self, action: Action) -> bool;

    /// The title shown in the menu and above the view.
    fn title(&self) -> &str;

    /// Reacts to a key.  Unless a view says otherwise, it ignores every key.
    fn handle_key_events(&mut self, key: KeyEvent) -> (r: Option<Action>)
        requires
            old(self).key_ready(key),
        default_ensures
            r is None,
            *final(self) == *old(self),
    {
        if key.kind != KeyEventKind::Press {
            return None;
        }
        match key.code {
            KeyCode::Backspace => {},
            _ => {},
        }
        None
    }

    /// Reacts to an action.  Unless a view says otherwise, it ignores every action.
    fn update(&mut self, action: Action) -> (r: Option<Action>)
        requires
            old(self).action_ready(action),
        default_ensures
            r is None,
            *final(self) == *old(self),
    {
        None
    }
}

} // verus!
