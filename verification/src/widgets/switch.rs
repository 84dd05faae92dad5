use vstd::prelude::*;
use vstd::string::*;
use crate::input::{KeyCode, MouseEventKind, Rect};
use crate::text::byte_len;
use crate::widgets::button::sat_sub;

verus! {

/// The position of a two-state switch.
#[derive(Clone, Copy, Debug, PartialEq, Eq, Structural)]
pub enum SwitchState {
    On,
    Off,
}

/// The other position.
pub open spec fn flipped(s: SwitchState) -> SwitchState {
    match s {
        SwitchState::On => SwitchState::Off,
        SwitchState::Off => SwitchState::On,
    }
}

/// A two-state switch with a label for each state.  A disabled switch ignores every request
/// to change it.
#[derive(Clone, Debug)]
pub struct Switch {
    pub state: SwitchState,
    pub on_label: String,
    pub off_label: String,
    pub is_focused: bool,
    pub is_hovered: bool,
    pub is_disabled: bool,
}

/// The narrowest area in which a switch is drawn at all.
pub const MIN_WIDTH: u16 = 7;

/// The width of the drawn thumb.
pub const THUMB_WIDTH: u16 = 3;

/// Which of the switch's styles the label is drawn with (before reversing it).
#[derive(Clone, Copy, Debug, PartialEq, Eq, Structural)]
pub enum LabelStyle {
    Disabled,
    Focused,
    Plain,
}

/// Which style the thumb is drawn with.
#[derive(Clone, Copy, Debug, PartialEq, Eq, Structural)]
pub enum ThumbStyle {
    Hovered,
    Normal,
}

/// Which style the track is drawn with.
#[derive(Clone, Copy, Debug, PartialEq, Eq, Structural)]
pub enum TrackStyle {
    Active,
    Inactive,
}

/// Where each part of a switch goes: the track, the thumb, the cell of the thumb's dot, the
/// start of the label and which label it is, and the styles of each part.
#[derive(Clone, Copy, Debug, PartialEq, Eq, Structural)]
pub struct SwitchLayout {
    pub track: Rect,
    pub thumb: Rect,
    pub dot_x: u16,
    pub dot_y: u16,
    pub label_x: u16,
    pub label_y: u16,
    pub shows_on_label: bool,
    pub label_style: LabelStyle,
    pub thumb_style: ThumbStyle,
    pub track_style: TrackStyle,
}

impl Switch {
    /// The switch after a request to move it to `state`.
    pub open spec fn with_requested(self, state: SwitchState) -> Switch {
        if self.is_disabled { self } else { Switch { state, ..self } }
    }

    /// The width of the longer label, in characters, cut to 16 bits.
    pub open spec fn spec_text_width(self) -> u16 {
        (if self.on_label@.len() >= self.off_label@.len() {
            self.on_label@.len()
        } else {
            self.off_label@.len()
        }) as u16
    }

    /// The width the switch asks for: the longer label plus room for the thumb.
    pub open spec fn spec_total_width(self) -> int {
        self.spec_text_width() + 4
    }

    /// The label that is shown in the current state.
    pub open spec fn spec_label(self) -> Seq<char> {
        if self.state == SwitchState::On { self.on_label@ } else { self.off_label@ }
    }

    /// The track: the switch's width, at most the inner area's, centred in the inner area's
    /// first row.
    pub open spec fn spec_track(self, inner: Rect) -> Rect {
        let render_width = if self.spec_total_width() <= inner.width {
            self.spec_total_width()
        } else {
            inner.width as int
        };
        Rect {
            x: (inner.x + (inner.width - render_width) / 2) as u16,
            y: inner.y,
            width: render_width as u16,
            height: 1,
        }
    }

    /// The thumb: at the track's right end when on, at its left end when off.
    pub open spec fn spec_thumb(self, inner: Rect) -> Rect {
        let track = self.spec_track(inner);
        Rect {
            x: (if self.state == SwitchState::On {
                track.x + track.width - THUMB_WIDTH
            } else {
                track.x as int
            }) as u16,
            y: track.y,
            width: if THUMB_WIDTH <= track.width { THUMB_WIDTH } else { track.width },
            height: 1,
        }
    }

    /// Where the label starts: just inside the track's left end when on; when off, so that
    /// the label (measured in bytes) ends one cell before the track's right end.
    pub open spec fn spec_label_x(self, inner: Rect) -> int {
        let track = self.spec_track(inner);
        if self.state == SwitchState::On {
            track.x + 1
        } else {
            track.x + sat_sub(track.width as int, ((byte_len(self.off_label@) as usize) as u16) + 1)
        }
    }

    /// Drawing the switch in `area`, whose inner part is `inner`, stays within 16-bit
    /// coordinates.
    pub open spec fn layout_fits(self, area: Rect, inner: Rect) -> bool {
        (area.width >= MIN_WIDTH && area.height >= 1) ==> {
            &&& inner.wf()
            &&& self.spec_total_width() <= u16::MAX
            &&& self.state == SwitchState::On ==> self.spec_track(inner).width >= THUMB_WIDTH
            &&& self.spec_thumb(inner).x + 1 <= u16::MAX
            &&& self.state == SwitchState::On ==> self.spec_track(inner).x + 1 <= u16::MAX
            &&& self.state == SwitchState::Off ==> ((byte_len(self.off_label@) as usize) as u16) + 1 <= u16::MAX
        }
    }

    /// A switch in state `initial_state`, labelled "ON" and "OFF", neither focused, hovered
    /// nor disabled.
    pub fn new(initial_state: SwitchState) -> (s: Switch)
        ensures
            s.state == initial_state,
            s.on_label@ == "ON"@,
            s.off_label@ == "OFF"@,
            !s.is_focused,
            !s.is_hovered,
            !s.is_disabled,
    {
        Switch {
            state: initial_state,
            on_label: String::from_str("ON"),
            off_label: String::from_str("OFF"),
            is_focused: false,
            is_hovered: false,
            is_disabled: false,
        }
    }

    /// The current state.
    pub fn state(&self) -> (s: SwitchState)
        ensures
            s == self.state,
    {
        self.state
    }

    /// Moves the switch to `state`, unless it is disabled.
    pub fn set_state(&mut self, state: SwitchState) -> (r: &mut Self)
        ensures
            *r == old(self).with_requested(state),
            *final(self) == *final(r),
    {
        if !self.is_disabled {
            self.state = state;
        }
        self
    }

    /// Flips the switch, unless it is disabled.
    pub fn toggle(&mut self) -> (r: &mut Self)
        ensures
            *r == old(self).with_requested(flipped(old(self).state)),
            *final(self) == *final(r),
    {
        if !self.is_disabled {
            self.state = match self.state {
                SwitchState::On => SwitchState::Off,
                SwitchState::Off => SwitchState::On,
            };
        }
        self
    }

    /// The same switch with the labels `on` and `off`.
    pub fn labels(self, on: &str, off: &str) -> (s: Switch)
        ensures
            s.on_label@ == on@,
            s.off_label@ == off@,
            s.state == self.state,
            s.is_focused == self.is_focused,
            s.is_hovered == self.is_hovered,
            s.is_disabled == self.is_disabled,
    {
        Switch { on_label: String::from_str(on), off_label: String::from_str(off), ..self }
    }

    /// The same switch, focused or not.
    pub fn focused(self, focused: bool) -> (s: Switch)
        ensures
            s == (Switch { is_focused: focused, ..self }),
    {
        Switch { is_focused: focused, ..self }
    }

    /// The same switch, disabled or not.
    pub fn disabled(self, disabled: bool) -> (s: Switch)
        ensures
            s == (Switch { is_disabled: disabled, ..self }),
    {
        Switch { is_disabled: disabled, ..self }
    }

    /// Reacts to a key: space and Enter flip the switch, Left turns it off, Right turns it on.
    /// Returns whether the key was used; a disabled switch uses none.
    pub fn handle_input(&mut self, key: KeyCode) -> (used: bool)
        ensures
            old(self).is_disabled ==> !used && *final(self) == *old(self),
            !old(self).is_disabled ==> match key {
                KeyCode::Char(' ') | KeyCode::Enter =>
                    used && final(self).state == flipped(old(self).state),
                KeyCode::Left => used && final(self).state == SwitchState::Off,
                KeyCode::Right => used && final(self).state == SwitchState::On,
                _ => !used,
            },
            !old(self).is_disabled && !used ==> final(self).state == old(self).state,
            !old(self).is_disabled ==> *final(self) == (Switch { state: final(self).state, ..*old(self) }),
    {
        if self.is_disabled {
            return false;
        }
        match key {
            KeyCode::Char(' ') | KeyCode::Enter => {
                self.toggle();
                true
            },
            KeyCode::Left => {
                self.set_state(SwitchState::Off);
                true
            },
            KeyCode::Right => {
                self.set_state(SwitchState::On);
                true
            },
            _ => false,
        }
    }

    /// Reacts to a mouse event at `(x, y)` over a switch drawn in `area`: the switch is hovered
    /// exactly when the pointer is inside, and a button press inside flips it.  Returns whether
    /// the switch flipped; a disabled switch changes nothing.
    pub fn handle_mouse(&mut self, mouse: MouseEventKind, x: u16, y: u16, area: Rect) -> (flipped_now: bool)
        requires
            area.wf(),
        ensures
            old(self).is_disabled ==> !flipped_now && *final(self) == *old(self),
            !old(self).is_disabled ==> {
                let inside = area.spec_contains(x as int, y as int);
                &&& final(self).is_hovered == inside
                &&& flipped_now == (inside && mouse == MouseEventKind::Down)
                &&& final(self).state == (if flipped_now { flipped(old(self).state) } else { old(self).state })
                &&& *final(self) == (Switch { state: final(self).state, is_hovered: inside, ..*old(self) })
            },
    {
        if self.is_disabled {
            return false;
        }
        let is_inside = x >= area.x && x < area.x + area.width && y >= area.y && y < area.y
            + area.height;
        self.is_hovered = is_inside;
        if let MouseEventKind::Down = mouse {
            if is_inside {
                self.toggle();
                return true;
            }
        }
        false
    }

    /// The width the switch asks for: its longer label, in characters and cut to 16 bits,
    /// plus four cells for the thumb and spacing.
    pub fn calculate_base_width(&self) -> (w: u16)
        requires
            self.spec_total_width() <= u16::MAX,
        ensures
            w == self.spec_total_width(),
    {
        self.calculate_total_width()
    }

    /// The width the switch asks for (the same measure as `calculate_base_width`).
    pub fn calculate_total_width(&self) -> (w: u16)
        requires
            self.spec_total_width() <= u16::MAX,
        ensures
            w == self.spec_total_width(),
    {
        let on = self.on_label.as_str().unicode_len();
        let off = self.off_label.as_str().unicode_len();
        let longer = if on >= off { on } else { off };
        let text_width = longer as u16;
        text_width + 4
    }

    /// How the switch is drawn in `area`, whose inner part (inside the switch's block) is
    /// `inner`: nothing when the area is narrower than seven cells or has no row; otherwise the
    /// track, thumb, dot and label positions of the `spec_` functions, with the label drawn in
    /// the disabled style, else the focused style, else plainly; the thumb hovered when the
    /// switch is hovered and not disabled; the track active when the switch is on.
    pub fn layout(&self, area: Rect, inner: Rect) -> (l: Option<SwitchLayout>)
        requires
            self.layout_fits(area, inner),
        ensures
            (area.width < MIN_WIDTH || area.height < 1) <==> l is None,
            l matches Some(l) ==> {
                &&& l.track == self.spec_track(inner)
                &&& l.thumb == self.spec_thumb(inner)
                &&& l.dot_x == l.thumb.x + 1
                &&& l.dot_y == l.thumb.y
                &&& l.label_x == self.spec_label_x(inner)
                &&& l.label_y == inner.y
                &&& l.shows_on_label == (self.state == SwitchState::On)
                &&& l.label_style == (if self.is_disabled { LabelStyle::Disabled }
                    else if self.is_focused { LabelStyle::Focused } else { LabelStyle::Plain })
                &&& l.thumb_style == (if self.is_hovered && !self.is_disabled {
                    ThumbStyle::Hovered } else { ThumbStyle::Normal })
                &&& l.track_style == (if self.state == SwitchState::On {
                    TrackStyle::Active } else { TrackStyle::Inactive })
            },
    {
        if area.width < MIN_WIDTH || area.height < 1 {
            return None;
        }
        let content_width = self.calculate_total_width();
        let available_width = inner.width;
        let render_width = if content_width <= available_width { content_width } else { available_width };
        let x_offset = (available_width - render_width) / 2;
        let track = Rect { x: inner.x + x_offset, y: inner.y, width: render_width, height: 1 };
        let is_active = self.state == SwitchState::On;
        let label_style = if self.is_disabled {
            LabelStyle::Disabled
        } else if self.is_focused {
            LabelStyle::Focused
        } else {
            LabelStyle::Plain
        };
        let thumb_style = if self.is_hovered && !self.is_disabled {
            ThumbStyle::Hovered
        } else {
            ThumbStyle::Normal
        };
        let track_style = if is_active { TrackStyle::Active } else { TrackStyle::Inactive };
        let thumb_position = if is_active { track.width - THUMB_WIDTH } else { 0 };
        let thumb = Rect {
            x: track.x + thumb_position,
            y: track.y,
            width: if THUMB_WIDTH <= track.width { THUMB_WIDTH } else { track.width },
            height: 1,
        };
        let label_x = if is_active {
            track.x + 1
        } else {
            let label_bytes = self.off_label.as_str().len() as u16;
            let tail = label_bytes + 1;
            track.x + if track.width >= tail { track.width - tail } else { 0 }
        };
        Some(SwitchLayout {
            track,
            thumb,
            dot_x: thumb.x + 1,
            dot_y: thumb.y,
            label_x,
            label_y: track.y,
            shows_on_label: is_active,
            label_style,
            thumb_style,
            track_style,
        })
    }
}

/// Toggling twice leaves the switch as it was.
pub proof fn lemma_toggle_twice(s: Switch)
    ensures
        s.with_requested(flipped(s.state)).with_requested(flipped(s.with_requested(flipped(s.state)).state)) == s,
{
}

/// A disabled switch ignores every request.
pub proof fn lemma_disabled_ignores_requests(s: Switch, state: SwitchState)
    requires
        s.is_disabled,
    ensures
        s.with_requested(state) == s,
{
}

} // verus!
