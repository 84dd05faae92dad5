use vstd::prelude::*;
use vstd::string::*;
use crate::action::Action;
use crate::components::views::ViewComponent;
use crate::components::views::ssh::focus_state;
use crate::input::{KeyCode, KeyEvent, Rect};
use crate::layout::{Constraint, layout_areas, padded_inner, block_padded_inner};
use crate::networks::{ScoredNetwork, WifiSnapshot, clone_networks, sort_by_signal};
use crate::selection::SelectionState;
use crate::sorting::stable_sorted;
use crate::text::{concat2, concat3, i64_to_string, pad_start, pad_left, signed_decimal};
use crate::widgets::button::ButtonState;

verus! {

/// Which part of the WiFi view has the focus.
#[derive(Clone, Copy, Debug, PartialEq, Eq, Structural)]
pub enum WifiFocus {
    Unfocused,
    Scan,
    List,
}

/// Work that the WiFi view asks the application to do with the wireless daemon.
#[derive(Clone, Copy, Debug, PartialEq, Eq, Structural)]
pub enum WifiRequest {
    /// Scan with the station, then report `ScanComplete` (or an error).
    Scan,
    /// Refresh the adapter, then report `UpdateWifiState` (or an error).
    Refresh,
}

/// How a request for a passphrase ended.
#[derive(Clone, Debug)]
pub enum PassphraseEvent {
    /// The key channel answered: with the key, or closed.
    Key(Option<String>),
    /// The cancel channel answered: with a signal (`true`), or closed.
    Cancel(bool),
}

/// The answer to the daemon's request for a passphrase.
pub open spec fn spec_passphrase_answer(event: PassphraseEvent) -> Result<Seq<char>, Seq<char>> {
    match event {
        PassphraseEvent::Key(Some(k)) => Ok(k@),
        PassphraseEvent::Key(None) => Err("Failed to receive the key"@),
        PassphraseEvent::Cancel(true) => Err("Operation Canceled"@),
        PassphraseEvent::Cancel(false) => Err("Failed to receive cancel signal"@),
    }
}

/// The answer to the daemon's request for a passphrase: the key when one came, else why not.
pub fn passphrase_answer(event: PassphraseEvent) -> (r: Result<String, String>)
    ensures
        match (r, spec_passphrase_answer(event)) {
            (Ok(a), Ok(b)) => a@ == b,
            (Err(a), Err(b)) => a@ == b,
            _ => false,
        },
{
    match event {
        PassphraseEvent::Key(k) => match k {
            Some(key) => Ok(key),
            None => Err(String::from_str("Failed to receive the key")),
        },
        PassphraseEvent::Cancel(received) => if received {
            Err(String::from_str("Operation Canceled"))
        } else {
            Err(String::from_str("Failed to receive cancel signal"))
        },
    }
}

/// Every this many ticks (plus one) the view asks for a refresh.
pub const TICKS_PER_REFRESH: u8 = 180;

/// The WiFi view: a Scan button, the remembered networks and the networks in range.
pub struct WifiView {
    pub title: String,
    pub error: Option<String>,
    pub iwd_wifi: Option<WifiSnapshot>,
    pub has_sender: bool,
    pub is_scanning: bool,
    pub focus: WifiFocus,
    pub scan_button_state: ButtonState,
    pub list_state: SelectionState,
    pub sorted_networks: Vec<ScoredNetwork>,
    pub tick_count: u8,
    pub pending: Option<WifiRequest>,
}

/// The networks in range of a snapshot, ordered by signal: none without a station.
pub open spec fn spec_sorted_networks(s: WifiSnapshot) -> Seq<ScoredNetwork> {
    match s.station {
        Some(st) => stable_sorted(st.new_networks@),
        None => Seq::empty(),
    }
}

/// The remembered networks of a snapshot, ordered by signal: none without a station.
pub open spec fn spec_sorted_known(s: WifiSnapshot) -> Seq<ScoredNetwork> {
    match s.station {
        Some(st) => stable_sorted(st.known_networks@),
        None => Seq::empty(),
    }
}

/// `signal / 100`, rounded towards zero as Rust divides.
pub open spec fn hundredths(signal: int) -> int {
    if signal >= 0 { signal / 100 } else { -((-signal) / 100) }
}

/// The signal as a percentage: 100 from -50 dBm up, else twice the distance above -100 dBm.
pub open spec fn signal_percent(signal: int) -> int {
    if hundredths(signal) >= -50 { 100 } else { 2 * (100 + hundredths(signal)) }
}

/// The bars icon for a percentage.
pub open spec fn signal_icon(percent: int) -> Seq<char> {
    if percent >= 75 {
        "\u{f0928}"@
    } else if 50 <= percent < 75 {
        "\u{f0925}"@
    } else if 25 <= percent < 50 {
        "\u{f0922}"@
    } else {
        "\u{f091f}"@
    }
}

/// The signal column: the percentage right-aligned in three places, "% ", and the icon.
pub open spec fn signal_text(signal: int) -> Seq<char> {
    pad_left(signed_decimal(signal_percent(signal)), 3) + "% "@ + signal_icon(signal_percent(signal))
}

/// Where the WiFi view's parts go: the Scan button, the remembered networks, the networks in
/// range, and a status row; or, with an error, the area for the message.
pub struct WifiLayout {
    pub area: Rect,
    pub scan: Rect,
    pub known: Rect,
    pub networks: Rect,
    pub status: Rect,
}

/// One network as listed: its name followed by four spaces, its signal column, and whether
/// it is highlighted.
pub struct NetworkLine {
    pub name_text: String,
    pub signal_text: String,
    pub highlighted: bool,
}

/// What the WiFi view shows: an error, or the Scan button and the two lists.
pub struct WifiScreen {
    pub error: Option<String>,
    pub scan_label: String,
    pub scan_state: ButtonState,
    pub known: Vec<NetworkLine>,
    pub networks: Vec<NetworkLine>,
}

/// `line` shows network `n`, highlighted or not.
pub open spec fn shows_network(line: NetworkLine, n: ScoredNetwork, highlighted: bool) -> bool {
    &&& line.name_text@ == n.network.name@ + "    "@
    &&& line.signal_text@ == signal_text(n.signal as int)
    &&& line.highlighted == highlighted
}

/// The signal column of one network.
pub fn signal_column(signal: i16) -> (s: String)
    ensures
        s@ == signal_text(signal as int),
{
    let q: i32 = if signal >= 0 {
        (signal as i32) / 100
    } else {
        -((-(signal as i32)) / 100)
    };
    let percent: i32 = if q >= -50 { 100 } else { 2 * (100 + q) };
    let icon = if percent >= 75 {
        "\u{f0928}"
    } else if 50 <= percent && percent < 75 {
        "\u{f0925}"
    } else if 25 <= percent && percent < 50 {
        "\u{f0922}"
    } else {
        "\u{f091f}"
    };
    let number = pad_start(i64_to_string(percent as i64).as_str(), 3);
    concat3(number.as_str(), "% ", icon)
}

/// The lines of a list of networks; the one at `highlight`, if any, highlighted.
fn network_lines(nets: &Vec<ScoredNetwork>, highlight: Option<usize>) -> (lines: Vec<NetworkLine>)
    ensures
        lines@.len() == nets@.len(),
        forall|i: int| #![trigger lines@[i]] 0 <= i < nets@.len() ==> shows_network(lines@[i], nets@[i],
            highlight == Some(i as usize)),
{
    let mut lines: Vec<NetworkLine> = Vec::new();
    let mut i: usize = 0;
    while i < nets.len()
        invariant
            i <= nets@.len(),
            lines@.len() == i,
            forall|k: int| #![trigger lines@[k]] 0 <= k < i ==> shows_network(lines@[k], nets@[k],
                highlight == Some(k as usize)),
        decreases nets@.len() - i,
    {
        let n = &nets[i];
        lines.push(NetworkLine {
            name_text: concat2(n.network.name.as_str(), "    "),
            signal_text: signal_column(n.signal),
            highlighted: highlight == Some(i),
        });
        i = i + 1;
    }
    lines
}

impl WifiView {
    /// Without an error the view holds a snapshot.
    pub open spec fn wf(self) -> bool {
        self.error is None ==> self.iwd_wifi is Some
    }

    /// The selected index (the first, when none is), as the 32-bit number the list is moved
    /// by: a wider index keeps its low 32 bits.
    pub open spec fn selection_as_i32(self) -> i32 {
        (match self.list_state.selected { Some(i) => i, None => 0usize }) as i32
    }

    /// Moving the selection by `offset` stays within 32-bit arithmetic.
    pub open spec fn selection_can_move(self, offset: i32) -> bool {
        i32::MIN <= self.selection_as_i32() + offset <= i32::MAX
    }

    /// A refresh can be asked for: the view holds a snapshot and can report back.
    pub open spec fn can_refresh(self) -> bool {
        self.iwd_wifi is Some && self.has_sender
    }

    /// A scan can be asked for: the view holds a snapshot with a station and can report back.
    pub open spec fn can_scan(self) -> bool {
        self.has_sender && match self.iwd_wifi {
            Some(w) => w.station is Some,
            None => false,
        }
    }

    /// The view with the focus on `f` and the Scan button drawn accordingly.
    pub open spec fn focused_on(self, f: WifiFocus) -> WifiView {
        WifiView { focus: f, scan_button_state: focus_state(f == WifiFocus::Scan), ..self }
    }

    /// The selection after moving it by `offset`, when the new index names a network.
    pub open spec fn spec_moved_selection(self, offset: i32) -> SelectionState {
        let new_index = self.selection_as_i32() + offset;
        if new_index >= 0 && new_index < (self.sorted_networks@.len() as usize) as i32 {
            self.list_state.spec_select(Some(new_index as usize))
        } else {
            self.list_state
        }
    }

    /// The view after moving the focus up: in the list, up one network, or to the Scan
    /// button from the first; from the Scan button to nothing.
    pub open spec fn after_up(self) -> WifiView {
        match self.focus {
            WifiFocus::List => if self.list_state.selected == Some(0usize) {
                self.focused_on(WifiFocus::Scan)
            } else {
                WifiView { list_state: self.spec_moved_selection(-1i32), ..self }.focused_on(WifiFocus::List)
            },
            WifiFocus::Scan => self.focused_on(WifiFocus::Unfocused),
            WifiFocus::Unfocused => self.focused_on(WifiFocus::Unfocused),
        }
    }

    /// The view after moving the focus down: to the Scan button, then into the list
    /// (selecting its first network if none is), then down one network at a time.
    pub open spec fn after_down(self) -> WifiView {
        match self.focus {
            WifiFocus::Unfocused => self.focused_on(WifiFocus::Scan),
            WifiFocus::Scan => if self.list_state.selected is None && self.sorted_networks@.len() > 0 {
                WifiView { list_state: self.list_state.spec_select(Some(0usize)), ..self }.focused_on(WifiFocus::List)
            } else {
                self.focused_on(WifiFocus::List)
            },
            WifiFocus::List => match self.list_state.selected {
                Some(sel) => if sel < self.sorted_networks@.len() - 1 {
                    WifiView { list_state: self.spec_moved_selection(1i32), ..self }.focused_on(WifiFocus::List)
                } else {
                    self.focused_on(WifiFocus::List)
                },
                None => self.focused_on(WifiFocus::List),
            },
        }
    }

    /// The view titled "WiFi" over a daemon snapshot: no error, not scanning, nothing focused
    /// or selected, the networks in range ordered by signal, the tick count at zero.
    pub fn ready(snapshot: WifiSnapshot) -> (v: WifiView)
        ensures
            v.title@ == "WiFi"@,
            v.error is None,
            v.iwd_wifi == Some(snapshot),
            v.has_sender,
            !v.is_scanning,
            v.focus == WifiFocus::Unfocused,
            v.scan_button_state == ButtonState::Normal,
            v.list_state == SelectionState::spec_new(),
            v.sorted_networks@ == spec_sorted_networks(snapshot),
            v.tick_count == 0,
            v.pending is None,
            v.wf(),
    {
        let sorted_networks = match &snapshot.station {
            Some(station) => sort_by_signal(clone_networks(&station.new_networks)),
            None => Vec::new(),
        };
        WifiView {
            title: String::from_str("WiFi"),
            error: None,
            iwd_wifi: Some(snapshot),
            has_sender: true,
            is_scanning: false,
            focus: WifiFocus::Unfocused,
            scan_button_state: ButtonState::Normal,
            list_state: SelectionState::new(),
            sorted_networks,
            tick_count: 0u8,
            pending: None,
        }
    }

    /// The view titled "WiFi" when the daemon could not be reached: the error reads
    /// "Initialization error: " and the reason; no snapshot, no networks.
    pub fn error_state(reason: &str) -> (v: WifiView)
        ensures
            v.title@ == "WiFi"@,
            v.error matches Some(e) && e@ == "Initialization error: "@ + reason@,
            v.iwd_wifi is None,
            !v.has_sender,
            !v.is_scanning,
            v.focus == WifiFocus::Unfocused,
            v.scan_button_state == ButtonState::Normal,
            v.list_state == SelectionState::spec_new(),
            v.sorted_networks@.len() == 0,
            v.tick_count == 0,
            v.pending is None,
            v.wf(),
    {
        WifiView {
            title: String::from_str("WiFi"),
            error: Some(concat2("Initialization error: ", reason)),
            iwd_wifi: None,
            has_sender: false,
            is_scanning: false,
            focus: WifiFocus::Unfocused,
            scan_button_state: ButtonState::Normal,
            list_state: SelectionState::new(),
            sorted_networks: Vec::new(),
            tick_count: 0u8,
            pending: None,
        }
    }

    fn move_focus_up(&mut self)
        requires
            old(self).focus == WifiFocus::List && old(self).list_state.selected != Some(0usize)
                ==> old(self).selection_can_move(-1i32),
        ensures
            *final(self) == old(self).after_up(),
    {
        self.focus = match self.focus {
            WifiFocus::List => {
                if let Some(0) = self.list_state.selected {
                    WifiFocus::Scan
                } else {
                    self.move_list_selection(-1);
                    WifiFocus::List
                }
            },
            WifiFocus::Scan => WifiFocus::Unfocused,
            WifiFocus::Unfocused => WifiFocus::Unfocused,
        };
        self.update_states();
    }

    fn move_focus_down(&mut self)
        requires
            old(self).focus == WifiFocus::List && old(self).list_state.selected is Some
                ==> old(self).sorted_networks@.len() > 0,
            old(self).list_state.selected matches Some(sel) && old(self).focus == WifiFocus::List
                && sel < old(self).sorted_networks@.len() - 1 ==> old(self).selection_can_move(1i32),
        ensures
            *final(self) == old(self).after_down(),
    {
        self.focus = match self.focus {
            WifiFocus::Unfocused => WifiFocus::Scan,
            WifiFocus::Scan => {
                if self.list_state.selected.is_none() && !self.sorted_networks.is_empty() {
                    self.list_state.select(Some(0));
                }
                WifiFocus::List
            },
            WifiFocus::List => {
                if let Some(selected) = self.list_state.selected {
                    if selected < self.sorted_networks.len() - 1 {
                        self.move_list_selection(1);
                    }
                }
                WifiFocus::List
            },
        };
        self.update_states();
    }

    fn move_list_selection(&mut self, offset: i32)
        requires
            old(self).selection_can_move(offset),
        ensures
            *final(self) == (WifiView { list_state: old(self).spec_moved_selection(offset), ..*old(self) }),
    {
        let current = (match self.list_state.selected {
            Some(i) => i,
            None => 0,
        }) as i32;
        let new_index = current + offset;
        if new_index >= 0 && new_index < self.sorted_networks.len() as i32 {
            self.list_state.select(Some(new_index as usize));
        }
    }

    fn update_states(&mut self)
        ensures
            *final(self) == old(self).focused_on(old(self).focus),
    {
        self.scan_button_state = if self.focus == WifiFocus::Scan {
            ButtonState::Selected
        } else {
            ButtonState::Normal
        };
    }

    /// Where the parts go in `area`: inside two cells of side padding, rows of three and five
    /// lines, at least three lines, and three lines.
    pub fn layout(area: Rect) -> (l: WifiLayout)
        ensures
            ({
                let inner = padded_inner(area, 2);
                let rows = layout_areas(inner, true, seq![Constraint::Length(3), Constraint::Length(5),
                    Constraint::Min(3), Constraint::Length(3)]);
                &&& l.area == inner
                &&& l.scan == rows[0]
                &&& l.known == rows[1]
                &&& l.networks == rows[2]
                &&& l.status == rows[3]
            }),
    {
        let inner = block_padded_inner(area, 2);
        let mut cs: Vec<Constraint> = Vec::new();
        cs.push(Constraint::Length(3));
        cs.push(Constraint::Length(5));
        cs.push(Constraint::Min(3));
        cs.push(Constraint::Length(3));
        assert(cs@ =~= seq![Constraint::Length(3), Constraint::Length(5), Constraint::Min(3), Constraint::Length(3)]);
        let rows = crate::layout::split(inner, true, &cs);
        WifiLayout { area: inner, scan: rows[0], known: rows[1], networks: rows[2], status: rows[3] }
    }

    /// Hands the pending request, if any, to the caller, who carries it out.
    pub fn take_request(&mut self) -> (r: Option<WifiRequest>)
        ensures
            r == old(self).pending,
            *final(self) == (WifiView { pending: None, ..*old(self) }),
    {
        let r = self.pending;
        self.pending = None;
        r
    }

    /// Stores the selection that rendering left in the network list (rendering clamps an
    /// index past the end to the last network).
    pub fn set_list_selection(&mut self, state: SelectionState)
        ensures
            *final(self) == (WifiView { list_state: state, ..*old(self) }),
            old(self).wf() ==> final(self).wf(),
    {
        self.list_state = state;
    }

    /// What the view shows: the error alone when there is one; otherwise the Scan button
    /// (reading "Scanning..." during a scan), the remembered networks ordered by signal, and
    /// the networks in range with the selected one highlighted.
    pub fn screen(&self) -> (s: WifiScreen)
        requires
            self.wf(),
        ensures
            match (s.error, self.error) {
                (Some(a), Some(b)) => a@ == b@,
                (None, None) => true,
                _ => false,
            },
            s.scan_label@ == (if self.is_scanning { "Scanning..."@ } else { "Scan"@ }),
            s.scan_state == self.scan_button_state,
            self.error is None ==> {
                let known = spec_sorted_known(self.iwd_wifi->0);
                &&& s.known@.len() == known.len()
                &&& forall|i: int| #![trigger s.known@[i]] 0 <= i < known.len() ==> shows_network(s.known@[i], known[i], false)
                &&& s.networks@.len() == self.sorted_networks@.len()
                &&& forall|i: int| #![trigger s.networks@[i]] 0 <= i < self.sorted_networks@.len() ==> shows_network(
                    s.networks@[i], self.sorted_networks@[i], self.list_state.selected == Some(i as usize))
            },
            self.error is Some ==> s.known@.len() == 0 && s.networks@.len() == 0,
    {
        let scan_label = String::from_str(if self.is_scanning { "Scanning..." } else { "Scan" });
        match &self.error {
            Some(e) => WifiScreen {
                error: Some(e.clone()),
                scan_label,
                scan_state: self.scan_button_state,
                known: Vec::new(),
                networks: Vec::new(),
            },
            None => {
                let wifi = self.iwd_wifi.as_ref().unwrap();
                let known_sorted = match &wifi.station {
                    Some(station) => sort_by_signal(clone_networks(&station.known_networks)),
                    None => Vec::new(),
                };
                let known = network_lines(&known_sorted, None);
                let networks = network_lines(&self.sorted_networks, self.list_state.selected);
                WifiScreen { error: None, scan_label, scan_state: self.scan_button_state, known, networks }
            },
        }
    }
}

impl ViewComponent for WifiView {
    /// Enter on the Scan button needs a station to scan with; Down in the list needs
    /// networks when one is selected; moving the selection up or down needs the moved index
    /// to fit 32-bit arithmetic.
    open spec fn key_ready(&self, key: KeyEvent) -> bool {
        &&& self.wf()
        &&& key.code == KeyCode::Enter && self.focus == WifiFocus::Scan ==> self.can_scan()
        &&& key.code == KeyCode::Down && self.focus == WifiFocus::List && self.list_state.selected is Some
            ==> self.sorted_networks@.len() > 0
        &&& key.code == KeyCode::Up && self.focus == WifiFocus::List
            && self.list_state.selected != Some(0usize) ==> self.selection_can_move(-1i32)
        &&& (self.list_state.selected matches Some(sel) && key.code == KeyCode::Down
            && self.focus == WifiFocus::List && sel < self.sorted_networks@.len() - 1
            ==> self.selection_can_move(1i32))
    }

    /// Completing a scan, and the tick that asks for a refresh, need a snapshot to refresh.
    open spec fn action_ready(&self, action: Action) -> bool {
        &&& self.wf()
        &&& action == Action::ScanComplete ==> self.can_refresh()
        &&& action == Action::Tick && self.tick_count > TICKS_PER_REFRESH ==> self.can_refresh()
    }

    fn title(&self) -> (t: &str)
        ensures
            t@ == self.title@,
    {
        self.title.as_str()
    }

    /// Up and Down move the focus, Backspace goes back to the menu, Enter on the Scan button
    /// starts a scan; nothing else changes anything.
    fn handle_key_events(&mut self, key: KeyEvent) -> (r: Option<Action>)
        ensures
            r == (if key.code == KeyCode::Backspace { Some(Action::BackToMenu) } else { None }),
            *final(self) == match key.code {
                KeyCode::Up => old(self).after_up(),
                KeyCode::Down => old(self).after_down(),
                KeyCode::Enter => if old(self).focus == WifiFocus::Scan {
                    WifiView { is_scanning: true, pending: Some(WifiRequest::Scan), ..*old(self) }
                } else {
                    *old(self)
                },
                _ => *old(self),
            },
            final(self).wf(),
    {
        match key.code {
            KeyCode::Up => self.move_focus_up(),
            KeyCode::Down => self.move_focus_down(),
            KeyCode::Backspace => {
                return Some(Action::BackToMenu);
            },
            KeyCode::Enter => match self.focus {
                WifiFocus::Unfocused => {},
                WifiFocus::Scan => {
                    self.is_scanning = true;
                    self.pending = Some(WifiRequest::Scan);
                },
                WifiFocus::List => {},
            },
            _ => {},
        }
        None
    }

    /// A new snapshot replaces the old one and its networks in range, ordered by signal,
    /// replace the list; a completed scan stops the scanning and asks for a refresh; a tick
    /// counts, and every 182nd asks for a refresh and restarts the count.
    fn update(&mut self, action: Action) -> (r: Option<Action>)
        ensures
            r is None,
            final(self).wf(),
            old(self).tick_count <= TICKS_PER_REFRESH + 1 ==> final(self).tick_count <= TICKS_PER_REFRESH + 1,
            match action {
                Action::UpdateWifiState(snapshot) =>
                    final(self).sorted_networks@ == spec_sorted_networks(snapshot)
                    && final(self).iwd_wifi == Some(snapshot)
                    && *final(self) == (WifiView {
                        sorted_networks: final(self).sorted_networks,
                        iwd_wifi: Some(snapshot),
                        ..*old(self)
                    }),
                Action::ScanComplete => *final(self) == (WifiView {
                    is_scanning: false,
                    pending: Some(WifiRequest::Refresh),
                    ..*old(self)
                }),
                Action::Tick => if old(self).tick_count <= TICKS_PER_REFRESH {
                    *final(self) == (WifiView { tick_count: (old(self).tick_count + 1) as u8, ..*old(self) })
                } else {
                    *final(self) == (WifiView { tick_count: 0, pending: Some(WifiRequest::Refresh), ..*old(self) })
                },
                _ => *final(self) == *old(self),
            },
    {
        match action {
            Action::UpdateWifiState(impl_wi_fi) => {
                let sorted_networks = match &impl_wi_fi.station {
                    Some(station) => sort_by_signal(clone_networks(&station.new_networks)),
                    None => Vec::new(),
                };
                self.sorted_networks = sorted_networks;
                self.iwd_wifi = Some(impl_wi_fi);
            },
            Action::ScanComplete => {
                self.is_scanning = false;
                self.pending = Some(WifiRequest::Refresh);
            },
            Action::Tick => {
                if self.tick_count <= TICKS_PER_REFRESH {
                    self.tick_count = self.tick_count + 1;
                    return None;
                }
                self.tick_count = 0u8;
                self.pending = Some(WifiRequest::Refresh);
            },
            _ => {},
        }
        None
    }
}

} // verus!
