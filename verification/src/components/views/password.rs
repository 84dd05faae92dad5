use vstd::prelude::*;
use vstd::string::*;
use crate::action::Action;
use crate::components::views::ViewComponent;
use crate::components::views::ssh::focus_state;
use crate::input::{KeyCode, KeyEvent, Rect};
use crate::layout::{Constraint, layout_areas, bordered_inner, padded_inner, block_bordered_inner, block_padded_inner, split2, split3};
use crate::text::{push_char, pop_char, clear_string, repeat_char, byte_len, trim_str, trimmed, concat2};
use crate::widgets::button::ButtonState;

verus! {

/// whoami's `username`: the name of the user who runs the program.  It depends on the
/// environment, so nothing is stated of it.
#[verifier::external_body]
fn current_username() -> String {
    whoami::username()
}

/// Which control of the password view has the focus.
#[derive(Clone, Copy, Debug, PartialEq, Eq, Structural)]
pub enum PasswordFocus {
    Unfocused,
    OldPassword,
    NewPassword,
    ShowPassword,
    ApplyButton,
    BackButton,
}

/// The focus after moving up: towards the old password, which is the top.
pub open spec fn password_focus_up(f: PasswordFocus) -> PasswordFocus {
    match f {
        PasswordFocus::BackButton => PasswordFocus::ApplyButton,
        PasswordFocus::ApplyButton => PasswordFocus::ShowPassword,
        PasswordFocus::ShowPassword => PasswordFocus::NewPassword,
        PasswordFocus::NewPassword => PasswordFocus::OldPassword,
        PasswordFocus::OldPassword => PasswordFocus::OldPassword,
        PasswordFocus::Unfocused => PasswordFocus::OldPassword,
    }
}

/// The focus after moving down: towards the Back button, which is the bottom.
pub open spec fn password_focus_down(f: PasswordFocus) -> PasswordFocus {
    match f {
        PasswordFocus::Unfocused => PasswordFocus::OldPassword,
        PasswordFocus::OldPassword => PasswordFocus::NewPassword,
        PasswordFocus::NewPassword => PasswordFocus::ShowPassword,
        PasswordFocus::ShowPassword => PasswordFocus::ApplyButton,
        PasswordFocus::ApplyButton => PasswordFocus::BackButton,
        PasswordFocus::BackButton => PasswordFocus::BackButton,
    }
}

/// The focus is on one of the two password fields.
pub open spec fn is_input(f: PasswordFocus) -> bool {
    f == PasswordFocus::OldPassword || f == PasswordFocus::NewPassword
}

/// How an attempt to change the password ended, as the application saw it.
#[derive(Clone, Debug)]
pub enum ChangeOutcome {
    /// `sudo` could not be started; the text is the system's error.
    SpawnFailed(String),
    /// The passwords could not be written to `sudo`; the text is the system's error.
    WriteFailed(String),
    /// `sudo` ran to its end, successfully or not, and wrote `stderr` (decoded leniently).
    Finished { success: bool, stderr: String },
}

/// The password view's state, with its texts as sequences of characters.
pub struct PasswordModel {
    pub title: Seq<char>,
    pub username: Seq<char>,
    pub old_input: Seq<char>,
    pub new_input: Seq<char>,
    pub focus: PasswordFocus,
    pub editing: bool,
    pub button_state: ButtonState,
    pub show_password: bool,
    pub back_button_state: ButtonState,
    pub update_active: bool,
    pub error_message: Option<Seq<char>>,
    pub pending_change: Option<Seq<char>>,
}

/// The message shown when a password field is empty.
pub open spec fn empty_password_message() -> Seq<char> {
    "Passwords cannot be empty"@
}

/// `s` without its last character, if it has one.
pub open spec fn without_last(s: Seq<char>) -> Seq<char> {
    if s.len() > 0 { s.drop_last() } else { s }
}

impl PasswordModel {
    /// The Apply button is drawn selected exactly when it has the focus.
    pub open spec fn settled(self) -> PasswordModel {
        PasswordModel { button_state: focus_state(self.focus == PasswordFocus::ApplyButton), ..self }
    }

    /// The focus on `f`, editing exactly when `f` is a password field, the buttons drawn
    /// accordingly.
    pub open spec fn focused_on(self, f: PasswordFocus) -> PasswordModel {
        PasswordModel {
            focus: f,
            editing: is_input(f),
            button_state: focus_state(f == PasswordFocus::ApplyButton),
            back_button_state: focus_state(f == PasswordFocus::BackButton),
            ..self
        }
    }

    /// Moving the focus to `f`; while the result of a change is shown the focus stays.
    pub open spec fn moved(self, f: PasswordFocus) -> PasswordModel {
        if self.update_active { self } else { self.focused_on(f) }
    }

    /// Both password fields emptied.
    pub open spec fn cleared(self) -> PasswordModel {
        PasswordModel { old_input: Seq::empty(), new_input: Seq::empty(), ..self }
    }

    /// The text handed to `sudo -S chpasswd`: the old password (for sudo), a newline, then
    /// `user:new password` and a newline.
    pub open spec fn change_request(self) -> Seq<char> {
        self.old_input + "\n"@ + self.username + ":"@ + self.new_input + "\n"@
    }

    /// The state after the key `code`, and what the view answers.
    pub open spec fn after_key(self, code: KeyCode) -> (PasswordModel, Option<Action>) {
        match code {
            KeyCode::Up | KeyCode::Left =>
                (self.moved(password_focus_up(self.focus)).settled(), None),
            KeyCode::Down | KeyCode::Right =>
                (self.moved(password_focus_down(self.focus)).settled(), None),
            KeyCode::Enter => match self.focus {
                PasswordFocus::Unfocused => if self.update_active {
                    (PasswordModel { update_active: false, ..self }, Some(Action::BackToMenu))
                } else {
                    (self.settled(), None)
                },
                PasswordFocus::ShowPassword =>
                    (PasswordModel { show_password: !self.show_password, ..self }.settled(), None),
                PasswordFocus::OldPassword | PasswordFocus::NewPassword =>
                    (PasswordModel { editing: !self.editing, ..self }.settled(), None),
                PasswordFocus::ApplyButton => if self.old_input.len() == 0
                    || self.new_input.len() == 0 {
                    (PasswordModel {
                        update_active: true,
                        focus: PasswordFocus::Unfocused,
                        error_message: Some(empty_password_message()),
                        ..self
                    }.cleared(), None)
                } else {
                    (PasswordModel {
                        update_active: true,
                        focus: PasswordFocus::Unfocused,
                        error_message: None,
                        pending_change: Some(self.change_request()),
                        ..self
                    }, None)
                },
                PasswordFocus::BackButton =>
                    (self.cleared().focused_on(PasswordFocus::Unfocused), Some(Action::BackToMenu)),
            },
            KeyCode::Esc => (PasswordModel { editing: false, ..self }.settled(), None),
            KeyCode::Char(c) => if self.editing {
                (match self.focus {
                    PasswordFocus::OldPassword =>
                        PasswordModel { old_input: self.old_input.push(c), ..self },
                    PasswordFocus::NewPassword =>
                        PasswordModel { new_input: self.new_input.push(c), ..self },
                    _ => self,
                }.settled(), None)
            } else {
                (self.settled(), None)
            },
            KeyCode::Backspace => if self.editing {
                match self.focus {
                    PasswordFocus::OldPassword => (PasswordModel {
                        old_input: without_last(self.old_input),
                        ..self
                    }.settled(), None),
                    PasswordFocus::NewPassword => (PasswordModel {
                        new_input: without_last(self.new_input),
                        ..self
                    }.settled(), None),
                    _ => (self, Some(Action::BackToMenu)),
                }
            } else {
                (self.settled(), None)
            },
            _ => (self.settled(), None),
        }
    }

    /// The state once the change attempt ended with `outcome`: the request is gone, both
    /// fields are emptied, and the message tells the outcome.
    pub open spec fn after_change(self, outcome_message: Seq<char>, success: bool) -> PasswordModel {
        PasswordModel {
            pending_change: None,
            update_active: if success { true } else { self.update_active },
            error_message: Some(outcome_message),
            ..self
        }.cleared()
    }
}

/// The message for an ended change attempt.
pub open spec fn outcome_message(outcome: ChangeOutcome) -> Seq<char> {
    match outcome {
        ChangeOutcome::SpawnFailed(e) => "Failed to start sudo: "@ + e@,
        ChangeOutcome::WriteFailed(e) => "Failed to write input: "@ + e@,
        ChangeOutcome::Finished { success, stderr } => if success {
            "Success"@
        } else {
            "Error: "@ + trimmed(stderr@)
        },
    }
}

/// The attempt succeeded.
pub open spec fn outcome_success(outcome: ChangeOutcome) -> bool {
    outcome matches ChangeOutcome::Finished { success: true, .. }
}

/// The password view: the old and the new password, a box to show them, Apply and Back.
pub struct PasswordView {
    pub title: String,
    pub username: String,
    pub old_input: String,
    pub new_input: String,
    pub focus: PasswordFocus,
    pub editing: bool,
    pub button_state: ButtonState,
    pub show_password: bool,
    pub back_button_state: ButtonState,
    pub update_active: bool,
    pub error_message: Option<String>,
    pub pending_change: Option<String>,
}

/// The view of an optional text.
pub open spec fn opt_view(s: Option<String>) -> Option<Seq<char>> {
    match s {
        Some(t) => Some(t@),
        None => None,
    }
}

impl View for PasswordView {
    type V = PasswordModel;

    open spec fn view(&self) -> PasswordModel {
        PasswordModel {
            title: self.title@,
            username: self.username@,
            old_input: self.old_input@,
            new_input: self.new_input@,
            focus: self.focus,
            editing: self.editing,
            button_state: self.button_state,
            show_password: self.show_password,
            back_button_state: self.back_button_state,
            update_active: self.update_active,
            error_message: opt_view(self.error_message),
            pending_change: opt_view(self.pending_change),
        }
    }
}

/// What the password view shows.
pub struct PasswordScreen {
    /// The outcome panel is shown in place of the form.
    pub outcome_panel: bool,
    pub username: String,
    /// The old password as shown: in clear, or one `*` per byte.
    pub old_display: String,
    pub new_display: String,
    /// The field is framed because it has the focus.
    pub old_framed: bool,
    pub new_framed: bool,
    /// The field is being edited.
    pub old_editing: bool,
    pub new_editing: bool,
    /// "[x] " or "[ ] ".
    pub checkbox: String,
    pub checkbox_focused: bool,
    pub apply_state: ButtonState,
    pub back_state: ButtonState,
    pub message: Option<String>,
}

/// A password field: its frame, the label inside it, and the input beside the label.
pub struct FieldLayout {
    pub frame: Rect,
    pub label: Rect,
    pub input: Rect,
}

/// Where the form's parts go.
pub struct PasswordFormLayout {
    pub user: Rect,
    pub old: FieldLayout,
    pub new: FieldLayout,
    pub checkbox: Rect,
    pub checkbox_label: Rect,
    pub apply: Rect,
    pub back: Rect,
}

/// Where the outcome panel's parts go: the panel, its message and its button.
pub struct PasswordPanelLayout {
    pub panel: Rect,
    pub message: Rect,
    pub button: Rect,
}

/// A field in `frame`: inside the frame's border, a fourteen-cell label and the input.
pub open spec fn lays_out_field(f: FieldLayout, frame: Rect) -> bool {
    let parts = layout_areas(bordered_inner(frame), false, seq![Constraint::Length(14), Constraint::Min(1)]);
    &&& f.frame == frame
    &&& f.label == parts[0]
    &&& f.input == parts[1]
}

fn field_layout(frame: Rect) -> (f: FieldLayout)
    ensures
        lays_out_field(f, frame),
{
    let inner = block_bordered_inner(frame);
    let (label, input) = split2(inner, false, Constraint::Length(14), Constraint::Min(1));
    FieldLayout { frame, label, input }
}

/// The form's rows inside two cells of side padding.
pub open spec fn form_rows(area: Rect) -> Seq<Rect> {
    layout_areas(padded_inner(area, 2), true, seq![
        Constraint::Length(1),
        Constraint::Length(3),
        Constraint::Length(3),
        Constraint::Length(1),
        Constraint::Length(3),
    ])
}

/// A password as shown: in clear when shown, else one `*` per byte of it (the byte count
/// taken as a `usize`, as `str::len` returns it).
pub open spec fn masked(s: Seq<char>, show: bool) -> Seq<char> {
    if show { s } else { Seq::new((byte_len(s) as usize) as nat, |i: int| '*') }
}

fn masked_text(s: &String, show: bool) -> (r: String)
    ensures
        r@ == masked(s@, show),
{
    if show {
        s.clone()
    } else {
        repeat_char('*', s.as_str().len())
    }
}

impl PasswordView {
    /// The view for `username`: titled "Password", both fields empty, nothing focused or
    /// edited, passwords hidden, buttons normal, no message and no pending change.
    pub fn for_user(username: String) -> (v: PasswordView)
        ensures
            v@.username == username@,
            v@.title == "Password"@,
            v@.old_input.len() == 0,
            v@.new_input.len() == 0,
            v.focus == PasswordFocus::Unfocused,
            !v.editing,
            v.button_state == ButtonState::Normal,
            !v.show_password,
            v.back_button_state == ButtonState::Normal,
            !v.update_active,
            v.error_message is None,
            v.pending_change is None,
    {
        PasswordView {
            title: String::from_str("Password"),
            username,
            old_input: String::new(),
            new_input: String::new(),
            focus: PasswordFocus::Unfocused,
            editing: false,
            button_state: ButtonState::Normal,
            show_password: false,
            back_button_state: ButtonState::Normal,
            update_active: false,
            error_message: None,
            pending_change: None,
        }
    }

    /// The view for the user who runs the program (as whoami reports it), otherwise as
    /// `for_user`.
    pub fn init() -> (v: PasswordView)
        ensures
            v@.title == "Password"@,
            v@.old_input.len() == 0,
            v@.new_input.len() == 0,
            v.focus == PasswordFocus::Unfocused,
            !v.editing,
            v.button_state == ButtonState::Normal,
            !v.show_password,
            v.back_button_state == ButtonState::Normal,
            !v.update_active,
            v.error_message is None,
            v.pending_change is None,
    {
        let user = current_username();
        Self::for_user(user)
    }

    fn move_focus_up(&mut self)
        ensures
            final(self)@ == old(self)@.moved(password_focus_up(old(self).focus)),
    {
        if self.update_active {
            return;
        }
        self.focus = match self.focus {
            PasswordFocus::BackButton => PasswordFocus::ApplyButton,
            PasswordFocus::ApplyButton => PasswordFocus::ShowPassword,
            PasswordFocus::ShowPassword => PasswordFocus::NewPassword,
            PasswordFocus::NewPassword => PasswordFocus::OldPassword,
            PasswordFocus::OldPassword => PasswordFocus::OldPassword,
            PasswordFocus::Unfocused => PasswordFocus::OldPassword,
        };
        self.update_states();
    }

    fn move_focus_down(&mut self)
        ensures
            final(self)@ == old(self)@.moved(password_focus_down(old(self).focus)),
    {
        if self.update_active {
            return;
        }
        self.focus = match self.focus {
            PasswordFocus::Unfocused => PasswordFocus::OldPassword,
            PasswordFocus::OldPassword => PasswordFocus::NewPassword,
            PasswordFocus::NewPassword => PasswordFocus::ShowPassword,
            PasswordFocus::ShowPassword => PasswordFocus::ApplyButton,
            PasswordFocus::ApplyButton => PasswordFocus::BackButton,
            PasswordFocus::BackButton => PasswordFocus::BackButton,
        };
        self.update_states();
    }

    fn update_states(&mut self)
        ensures
            final(self)@ == old(self)@.focused_on(old(self).focus),
    {
        self.editing = match self.focus {
            PasswordFocus::OldPassword | PasswordFocus::NewPassword => true,
            _ => false,
        };
        self.button_state = if self.focus == PasswordFocus::ApplyButton {
            ButtonState::Selected
        } else {
            ButtonState::Normal
        };
        self.back_button_state = if self.focus == PasswordFocus::BackButton {
            ButtonState::Selected
        } else {
            ButtonState::Normal
        };
    }

    fn toggle_show_password(&mut self)
        ensures
            final(self)@ == (PasswordModel { show_password: !old(self).show_password, ..old(self)@ }),
    {
        self.show_password = !self.show_password;
    }

    fn clear_input(&mut self)
        ensures
            final(self)@ == old(self)@.cleared(),
    {
        clear_string(&mut self.new_input);
        clear_string(&mut self.old_input);
    }

    /// Where the form's parts go in `area`: inside two cells of side padding, rows of one,
    /// three, three, one and three lines for the user, the two fields, the check box (a
    /// three-cell box and its label) and the buttons (halves).
    pub fn form_layout(area: Rect) -> (l: PasswordFormLayout)
        ensures
            ({
                let rows = form_rows(area);
                let tick = layout_areas(rows[3], false, seq![Constraint::Length(3), Constraint::Min(1)]);
                let buttons = layout_areas(rows[4], false, seq![Constraint::Fill(1), Constraint::Fill(1)]);
                &&& l.user == rows[0]
                &&& lays_out_field(l.old, rows[1])
                &&& lays_out_field(l.new, rows[2])
                &&& l.checkbox == tick[0]
                &&& l.checkbox_label == tick[1]
                &&& l.apply == buttons[0]
                &&& l.back == buttons[1]
            }),
    {
        let padded = block_padded_inner(area, 2);
        let mut cs: Vec<Constraint> = Vec::new();
        cs.push(Constraint::Length(1));
        cs.push(Constraint::Length(3));
        cs.push(Constraint::Length(3));
        cs.push(Constraint::Length(1));
        cs.push(Constraint::Length(3));
        assert(cs@ =~= seq![
            Constraint::Length(1),
            Constraint::Length(3),
            Constraint::Length(3),
            Constraint::Length(1),
            Constraint::Length(3),
        ]);
        let rows = crate::layout::split(padded, true, &cs);
        let (checkbox, checkbox_label) = split2(rows[3], false, Constraint::Length(3), Constraint::Min(1));
        let (apply, back) = split2(rows[4], false, Constraint::Fill(1), Constraint::Fill(1));
        PasswordFormLayout {
            user: rows[0],
            old: field_layout(rows[1]),
            new: field_layout(rows[2]),
            checkbox,
            checkbox_label,
            apply,
            back,
        }
    }

    /// Where the outcome panel goes in `area`: inside two cells of side padding, a column of at
    /// most sixty cells between equal fills, an eight-line band between equal fills; inside
    /// the panel's border the message and a three-line button row.
    pub fn panel_layout(area: Rect) -> (l: PasswordPanelLayout)
        ensures
            ({
                let cols = layout_areas(padded_inner(area, 2), false,
                    seq![Constraint::Fill(2), Constraint::Max(60), Constraint::Fill(2)]);
                let rows = layout_areas(cols[1], true,
                    seq![Constraint::Fill(2), Constraint::Length(8), Constraint::Fill(2)]);
                let inside = layout_areas(bordered_inner(rows[1]), true,
                    seq![Constraint::Min(0), Constraint::Length(3)]);
                &&& l.panel == rows[1]
                &&& l.message == inside[0]
                &&& l.button == inside[1]
            }),
    {
        let padded = block_padded_inner(area, 2);
        let (_, column, _) = split3(padded, false, Constraint::Fill(2), Constraint::Max(60), Constraint::Fill(2));
        let (_, panel, _) = split3(column, true, Constraint::Fill(2), Constraint::Length(8), Constraint::Fill(2));
        let inner = block_bordered_inner(panel);
        let (message, button) = split2(inner, true, Constraint::Min(0), Constraint::Length(3));
        PasswordPanelLayout { panel, message, button }
    }

    /// Hands the pending change request, if any, to the caller, who runs
    /// `sudo -S chpasswd` with it and reports back through `finish_change`.
    pub fn take_pending_change(&mut self) -> (r: Option<String>)
        ensures
            opt_view(r) == old(self)@.pending_change,
            final(self)@ == (PasswordModel { pending_change: None, ..old(self)@ }),
    {
        let r = self.pending_change.take();
        r
    }

    /// Takes in how the change attempt ended: the request is dropped, both fields are
    /// emptied, the message tells the outcome, and a success shows the outcome panel.
    pub fn finish_change(&mut self, outcome: ChangeOutcome)
        ensures
            final(self)@ == old(self)@.after_change(outcome_message(outcome), outcome_success(outcome)),
    {
        self.pending_change = None;
        match outcome {
            ChangeOutcome::SpawnFailed(e) => {
                self.error_message = Some(concat2("Failed to start sudo: ", e.as_str()));
                self.clear_input();
            },
            ChangeOutcome::WriteFailed(e) => {
                self.error_message = Some(concat2("Failed to write input: ", e.as_str()));
                self.clear_input();
            },
            ChangeOutcome::Finished { success, stderr } => {
                if success {
                    self.clear_input();
                    self.update_active = true;
                    self.error_message = Some(String::from_str("Success"));
                } else {
                    let msg = trim_str(stderr.as_str());
                    self.error_message = Some(concat2("Error: ", msg));
                }
                self.clear_input();
            },
        }
    }

    /// What the view shows: the outcome panel while a result is shown, else the form; each
    /// field in clear or masked, framed when focused and marked while edited; the check box
    /// ticked when passwords are shown; the button states and the message as they are.
    pub fn screen(&self) -> (s: PasswordScreen)
        ensures
            s.outcome_panel == self.update_active,
            s.username@ == self.username@,
            s.old_display@ == masked(self.old_input@, self.show_password),
            s.new_display@ == masked(self.new_input@, self.show_password),
            s.old_framed == (self.focus == PasswordFocus::OldPassword),
            s.new_framed == (self.focus == PasswordFocus::NewPassword),
            s.old_editing == (self.editing && self.focus == PasswordFocus::OldPassword),
            s.new_editing == (self.editing && self.focus == PasswordFocus::NewPassword),
            s.checkbox@ == (if self.show_password { "[x] "@ } else { "[ ] "@ }),
            s.checkbox_focused == (self.focus == PasswordFocus::ShowPassword),
            s.apply_state == self.button_state,
            s.back_state == self.back_button_state,
            opt_view(s.message) == opt_view(self.error_message),
    {
        let message = match &self.error_message {
            Some(m) => Some(m.clone()),
            None => None,
        };
        PasswordScreen {
            outcome_panel: self.update_active,
            username: self.username.clone(),
            old_display: masked_text(&self.old_input, self.show_password),
            new_display: masked_text(&self.new_input, self.show_password),
            old_framed: self.focus == PasswordFocus::OldPassword,
            new_framed: self.focus == PasswordFocus::NewPassword,
            old_editing: self.editing && self.focus == PasswordFocus::OldPassword,
            new_editing: self.editing && self.focus == PasswordFocus::NewPassword,
            checkbox: String::from_str(if self.show_password { "[x] " } else { "[ ] " }),
            checkbox_focused: self.focus == PasswordFocus::ShowPassword,
            apply_state: self.button_state,
            back_state: self.back_button_state,
            message,
        }
    }
}

/// Editing happens only in a password field: every key, and the end of a change attempt,
/// keep it so.
pub proof fn lemma_editing_stays_on_fields(m: PasswordModel, code: KeyCode, message: Seq<char>, success: bool)
    requires
        m.editing ==> is_input(m.focus),
    ensures
        m.after_key(code).0.editing ==> is_input(m.after_key(code).0.focus),
        m.after_change(message, success).editing ==> is_input(m.after_change(message, success).focus),
{
}

/// Once an attempt has ended, its outcome is shown: the outcome panel stays up whenever it was
/// up (as Apply leaves it), whatever the outcome, and comes up on success; the message shown
/// is the outcome's, and no change is pending any more.
pub proof fn lemma_ended_change_shows_outcome(m: PasswordModel, outcome: ChangeOutcome)
    ensures
        ({
            let r = m.after_change(outcome_message(outcome), outcome_success(outcome));
            &&& r.update_active == (m.update_active || outcome_success(outcome))
            &&& m.update_active ==> r.update_active
            &&& r.error_message == Some(outcome_message(outcome))
            &&& r.pending_change is None
        }),
{
}

/// While the outcome of a change is shown, the arrow keys leave the focus where it is.
pub proof fn lemma_outcome_panel_holds_focus(m: PasswordModel, code: KeyCode)
    requires
        m.update_active,
        code == KeyCode::Up || code == KeyCode::Down || code == KeyCode::Left || code == KeyCode::Right,
    ensures
        m.after_key(code).0.focus == m.focus,
        m.after_key(code).1 is None,
{
}

impl ViewComponent for PasswordView {
    open spec fn key_ready(&self, key: KeyEvent) -> bool {
        true
    }

    open spec fn action_ready(&self, action: Action) -> bool {
        true
    }

    fn title(&self) -> (t: &str)
        ensures
            t@ == self.title@,
    {
        self.title.as_str()
    }

    fn handle_key_events(&mut self, key: KeyEvent) -> (r: Option<Action>)
        ensures
            (final(self)@, r) == old(self)@.after_key(key.code),
    {
        match key.code {
            KeyCode::Up => self.move_focus_up(),
            KeyCode::Down => self.move_focus_down(),
            KeyCode::Left => self.move_focus_up(),
            KeyCode::Right => self.move_focus_down(),
            KeyCode::Enter => match self.focus {
                PasswordFocus::Unfocused => {
                    if self.update_active {
                        self.update_active = false;
                        return Some(Action::BackToMenu);
                    }
                },
                PasswordFocus::ShowPassword => self.toggle_show_password(),
                PasswordFocus::OldPassword | PasswordFocus::NewPassword => {
                    self.editing = !self.editing;
                },
                PasswordFocus::ApplyButton => {
                    self.update_active = true;
                    self.focus = PasswordFocus::Unfocused;
                    self.error_message = None;
                    if self.old_input.as_str().is_empty() || self.new_input.as_str().is_empty() {
                        self.error_message = Some(String::from_str("Passwords cannot be empty"));
                        self.clear_input();
                        return None;
                    }
                    let mut request = self.old_input.clone();
                    request.append("\n");
                    request.append(self.username.as_str());
                    request.append(":");
                    request.append(self.new_input.as_str());
                    request.append("\n");
                    self.pending_change = Some(request);
                    return None;
                },
                PasswordFocus::BackButton => {
                    self.clear_input();
                    self.focus = PasswordFocus::Unfocused;
                    self.update_states();
                    return Some(Action::BackToMenu);
                },
            },
            KeyCode::Esc => {
                self.editing = false;
                self.button_state = ButtonState::Normal;
            },
            KeyCode::Char(c) if self.editing => match self.focus {
                PasswordFocus::OldPassword => push_char(&mut self.old_input, c),
                PasswordFocus::NewPassword => push_char(&mut self.new_input, c),
                _ => {},
            },
            KeyCode::Backspace if self.editing => match self.focus {
                PasswordFocus::OldPassword => {
                    pop_char(&mut self.old_input);
                },
                PasswordFocus::NewPassword => {
                    pop_char(&mut self.new_input);
                },
                _ => {
                    return Some(Action::BackToMenu);
                },
            },
            _ => {},
        }
        self.button_state = if self.focus == PasswordFocus::ApplyButton {
            ButtonState::Selected
        } else {
            ButtonState::Normal
        };
        None
    }
}

} // verus!
