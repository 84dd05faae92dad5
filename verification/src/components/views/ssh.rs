use vstd::prelude::*;
use vstd::string::*;
use crate::action::Action;
use crate::components::views::ViewComponent;
use crate::input::{KeyCode, KeyEvent, Rect};
use crate::layout::{Constraint, layout_areas, padded_inner, block_padded_inner, split2, split3};
use crate::text::concat2;
use crate::widgets::button::ButtonState;

verus! {

/// Which control of the SSH view has the focus.
#[derive(Clone, Copy, Debug, PartialEq, Eq, Structural)]
pub enum SshFocus {
    Unfocused,
    Enable,
    Disable,
    Back,
}

/// The focus after moving up: towards Enable, which is the top.
pub open spec fn ssh_focus_up(f: SshFocus) -> SshFocus {
    match f {
        SshFocus::Back => SshFocus::Disable,
        SshFocus::Disable => SshFocus::Enable,
        SshFocus::Enable => SshFocus::Enable,
        SshFocus::Unfocused => SshFocus::Enable,
    }
}

/// The focus after moving down: towards Back, which is the bottom.
pub open spec fn ssh_focus_down(f: SshFocus) -> SshFocus {
    match f {
        SshFocus::Unfocused => SshFocus::Enable,
        SshFocus::Enable => SshFocus::Disable,
        SshFocus::Disable => SshFocus::Back,
        SshFocus::Back => SshFocus::Back,
    }
}

/// A button's state: selected exactly when it has the focus.
pub open spec fn focus_state(has_focus: bool) -> ButtonState {
    if has_focus { ButtonState::Selected } else { ButtonState::Normal }
}

/// Where the SSH view's parts go.
pub struct SshLayout {
    pub status: Rect,
    pub enable: Rect,
    pub disable: Rect,
    pub back: Rect,
}

/// The SSH view: a status line and the buttons Enable, Disable and Back.
pub struct SshView {
    pub title: String,
    pub status: String,
    pub focus: SshFocus,
    pub en_button_state: ButtonState,
    pub di_button_state: ButtonState,
    pub ba_button_state: ButtonState,
}

impl SshView {
    /// Exactly the focused button is drawn selected.
    pub open spec fn wf(self) -> bool {
        &&& self.en_button_state == focus_state(self.focus == SshFocus::Enable)
        &&& self.di_button_state == focus_state(self.focus == SshFocus::Disable)
        &&& self.ba_button_state == focus_state(self.focus == SshFocus::Back)
    }

    /// The view with the focus on `f` and the buttons drawn accordingly.
    pub open spec fn focused_on(self, f: SshFocus) -> SshView {
        SshView {
            focus: f,
            en_button_state: focus_state(f == SshFocus::Enable),
            di_button_state: focus_state(f == SshFocus::Disable),
            ba_button_state: focus_state(f == SshFocus::Back),
            ..self
        }
    }

    /// The view after the key `code`, and what it answers: Up and Left move the focus up,
    /// Down and Right move it down; Enter on Back, and Backspace anywhere, drop the focus and
    /// go back to the menu; every other key changes nothing.
    pub open spec fn after_key(self, code: KeyCode) -> (SshView, Option<Action>) {
        match code {
            KeyCode::Up | KeyCode::Left => (self.focused_on(ssh_focus_up(self.focus)), None),
            KeyCode::Down | KeyCode::Right => (self.focused_on(ssh_focus_down(self.focus)), None),
            KeyCode::Enter => if self.focus == SshFocus::Back {
                (self.focused_on(SshFocus::Unfocused), Some(Action::BackToMenu))
            } else {
                (self, None)
            },
            KeyCode::Backspace => (self.focused_on(SshFocus::Unfocused), Some(Action::BackToMenu)),
            _ => (self, None),
        }
    }

    /// The view titled "SSH", with status "Active", nothing focused and every button normal.
    pub fn init() -> (v: SshView)
        ensures
            v.title@ == "SSH"@,
            v.status@ == "Active"@,
            v.focus == SshFocus::Unfocused,
            v.wf(),
    {
        let status = String::from_str("Active");
        SshView {
            title: String::from_str("SSH"),
            status,
            focus: SshFocus::Unfocused,
            en_button_state: ButtonState::Normal,
            di_button_state: ButtonState::Normal,
            ba_button_state: ButtonState::Normal,
        }
    }

    fn move_focus_up(&mut self)
        ensures
            *final(self) == old(self).focused_on(ssh_focus_up(old(self).focus)),
    {
        self.focus = match self.focus {
            SshFocus::Back => SshFocus::Disable,
            SshFocus::Disable => SshFocus::Enable,
            SshFocus::Enable => SshFocus::Enable,
            SshFocus::Unfocused => SshFocus::Enable,
        };
        self.update_states();
    }

    fn move_focus_down(&mut self)
        ensures
            *final(self) == old(self).focused_on(ssh_focus_down(old(self).focus)),
    {
        self.focus = match self.focus {
            SshFocus::Unfocused => SshFocus::Enable,
            SshFocus::Enable => SshFocus::Disable,
            SshFocus::Disable => SshFocus::Back,
            SshFocus::Back => SshFocus::Back,
        };
        self.update_states();
    }

    fn update_states(&mut self)
        ensures
            *final(self) == old(self).focused_on(old(self).focus),
    {
        self.en_button_state = if self.focus == SshFocus::Enable {
            ButtonState::Selected
        } else {
            ButtonState::Normal
        };
        self.di_button_state = if self.focus == SshFocus::Disable {
            ButtonState::Selected
        } else {
            ButtonState::Normal
        };
        self.ba_button_state = if self.focus == SshFocus::Back {
            ButtonState::Selected
        } else {
            ButtonState::Normal
        };
    }

    /// Where the parts go in `area`: inside two cells of side padding, a status line, a
    /// three-line row halved between Enable and Disable, and a three-line Back row.
    pub fn layout(area: Rect) -> (l: SshLayout)
        ensures
            ({
                let rows = layout_areas(padded_inner(area, 2), true,
                    seq![Constraint::Length(1), Constraint::Length(3), Constraint::Length(3)]);
                let halves = layout_areas(rows[1], false, seq![Constraint::Fill(1), Constraint::Fill(1)]);
                &&& l.status == rows[0]
                &&& l.enable == halves[0]
                &&& l.disable == halves[1]
                &&& l.back == rows[2]
            }),
    {
        let padded = block_padded_inner(area, 2);
        let (status, buttons, back) = split3(padded, true, Constraint::Length(1), Constraint::Length(3),
            Constraint::Length(3));
        let (enable, disable) = split2(buttons, false, Constraint::Fill(1), Constraint::Fill(1));
        SshLayout { status, enable, disable, back }
    }

    /// The status line: "Status: " and the status.
    pub fn status_line(&self) -> (s: String)
        ensures
            s@ == "Status: "@ + self.status@,
    {
        concat2("Status: ", self.status.as_str())
    }
}

/// Up undoes Down on the Enable and Disable buttons, and Down undoes Up on Disable and Back:
/// the buttons form one column, Enable on top; Up moves the focus off every button but the
/// top one, and Down off every button but the bottom one.
pub proof fn lemma_ssh_up_and_down_undo_each_other(v: SshView)
    ensures
        v.focus == SshFocus::Enable || v.focus == SshFocus::Disable
            ==> v.after_key(KeyCode::Down).0.after_key(KeyCode::Up).0.focus == v.focus,
        v.focus == SshFocus::Disable || v.focus == SshFocus::Back
            ==> v.after_key(KeyCode::Up).0.after_key(KeyCode::Down).0.focus == v.focus,
        v.focus != SshFocus::Enable ==> v.after_key(KeyCode::Up).0.focus != v.focus,
        v.focus != SshFocus::Back ==> v.after_key(KeyCode::Down).0.focus != v.focus,
        v.after_key(KeyCode::Up).0.focus != SshFocus::Unfocused,
{
}

/// Every key keeps the buttons in step with the focus.
pub proof fn lemma_ssh_keys_keep_buttons_in_step(v: SshView, code: KeyCode)
    requires
        v.wf(),
    ensures
        v.after_key(code).0.wf(),
{
}

impl ViewComponent for SshView {
    open spec fn key_ready(&self, key: KeyEvent) -> bool {
        true
    }

    open spec fn action_ready(&self, action: Action) -> bool {
        true
    }

    fn title(&self) -> (t: &str)
        ensures
            t@ == self.title@,
    {
        self.title.as_str()
    }

    fn handle_key_events(&mut self, key: KeyEvent) -> (r: Option<Action>)
        ensures
            (*final(self), r) == old(self).after_key(key.code),
    {
        match key.code {
            KeyCode::Up => self.move_focus_up(),
            KeyCode::Down => self.move_focus_down(),
            KeyCode::Left => self.move_focus_up(),
            KeyCode::Right => self.move_focus_down(),
            KeyCode::Enter => match self.focus {
                SshFocus::Unfocused => {},
                SshFocus::Enable => {},
                SshFocus::Disable => {},
                SshFocus::Back => {
                    self.focus = SshFocus::Unfocused;
                    self.update_states();
                    return Some(Action::BackToMenu);
                },
            },
            KeyCode::Backspace => {
                self.focus = SshFocus::Unfocused;
                self.update_states();
                return Some(Action::BackToMenu);
            },
            _ => {},
        }
        None
    }
}

} // verus!
