use vstd::prelude::*;
use vstd::string::*;
use crate::action::Action;
use crate::components::views::ViewComponent;
use crate::input::{KeyCode, KeyEvent, Rect};
use crate::layout::{Constraint, layout_areas, bordered_inner, margin_inner, block_bordered_inner, rect_margin_inner, split2, split3};
use crate::selection::SelectionState;
use crate::sorting::{SortKey, stable_sort, stable_sorted};
use crate::text::{concat2, decimal, u64_to_string};

verus! {

/// Which of the two pin tables (odd pins on the left, even on the right) has the selection.
#[derive(Clone, Copy, Debug, PartialEq, Eq, Structural)]
pub enum SelectedTable {
    Left,
    Right,
}

/// What a header pin carries.
#[allow(clippy::upper_case_acronyms)]
#[derive(Clone, Copy, Debug, PartialEq, Eq, Structural)]
pub enum PinType {
    Power3v3,
    Power5v,
    Ground,
    GPIO,
    SPI,
    I2C,
    UART,
    PCM,
    Special,
}

/// The palette colour a pin type is drawn in (the 500 shade, or white).
#[derive(Clone, Copy, Debug, PartialEq, Eq, Structural)]
pub enum PinColor {
    Amber,
    Red,
    White,
    Lime,
    Pink,
    Sky,
    Violet,
    Teal,
}

/// The colour of a pin type.
pub open spec fn spec_type_color(t: PinType) -> PinColor {
    match t {
        PinType::Power3v3 => PinColor::Amber,
        PinType::Power5v => PinColor::Red,
        PinType::Ground => PinColor::White,
        PinType::GPIO => PinColor::Lime,
        PinType::SPI => PinColor::Pink,
        PinType::I2C => PinColor::Sky,
        PinType::UART => PinColor::Violet,
        PinType::PCM => PinColor::Teal,
        PinType::Special => PinColor::Sky,
    }
}

/// The pin types that the legend tells apart get different colours, and SPI pins are pink,
/// as the legend draws "SPI".
pub proof fn lemma_legend_types_have_distinct_colors(a: PinType, b: PinType)
    requires
        a != PinType::Special,
        b != PinType::Special,
        a != b,
    ensures
        spec_type_color(a) != spec_type_color(b),
        spec_type_color(PinType::SPI) == PinColor::Pink,
{
}

/// The name of a pin type, as its debug form prints it.
pub open spec fn spec_kind_label(t: PinType) -> Seq<char> {
    match t {
        PinType::Power3v3 => "Power3v3"@,
        PinType::Power5v => "Power5v"@,
        PinType::Ground => "Ground"@,
        PinType::GPIO => "GPIO"@,
        PinType::SPI => "SPI"@,
        PinType::I2C => "I2C"@,
        PinType::UART => "UART"@,
        PinType::PCM => "PCM"@,
        PinType::Special => "Special"@,
    }
}

/// One pin of the header.
pub struct PinInfo {
    pub number: u16,
    pub name: String,
    pub function: String,
    pub pin_type: PinType,
    pub note: Option<String>,
}

/// A pin, with its texts as sequences of characters.
pub struct PinModel {
    pub number: u16,
    pub name: Seq<char>,
    pub function: Seq<char>,
    pub pin_type: PinType,
    pub note: Option<Seq<char>>,
}

impl View for PinInfo {
    type V = PinModel;

    open spec fn view(&self) -> PinModel {
        PinModel {
            number: self.number,
            name: self.name@,
            function: self.function@,
            pin_type: self.pin_type,
            note: match self.note {
                Some(n) => Some(n@),
                None => None,
            },
        }
    }
}

/// A pin model built from its parts.
pub open spec fn pin_model(number: u16, name: Seq<char>, function: Seq<char>, pin_type: PinType,
    note: Option<Seq<char>>) -> PinModel {
    PinModel { number, name, function, pin_type, note }
}

/// The header's forty pins: the odd ones (left column) from 1 to 39, then the even ones
/// (right column) from 2 to 40.
pub open spec fn pin_table() -> Seq<PinModel> {
    seq![
        pin_model(1, "3v3 Power"@, "Buck 1 (3.5A max)"@, PinType::Power3v3, Some("Shared rail - 500mA usable"@)),
        pin_model(3, "GPIO 2"@, "I2C1 SDA"@, PinType::I2C, Some("SoC pin E11"@)),
        pin_model(5, "GPIO 3"@, "I2C1 SCL"@, PinType::I2C, Some("SoC pin B13"@)),
        pin_model(7, "GPIO 4"@, ""@, PinType::GPIO, Some("SoC pin W26"@)),
        pin_model(9, "Ground"@, ""@, PinType::Ground, None),
        pin_model(11, "GPIO 17"@, ""@, PinType::GPIO, Some("SoC pin A26"@)),
        pin_model(13, "GPIO 27"@, ""@, PinType::GPIO, Some("SoC pin N22"@)),
        pin_model(15, "GPIO 22"@, ""@, PinType::GPIO, Some("SoC pin R27"@)),
        pin_model(17, "3v3 Power"@, ""@, PinType::Power3v3, None),
        pin_model(19, "GPIO 10"@, "SPI0 MOSI"@, PinType::SPI, Some("SoC pin B12"@)),
        pin_model(21, "GPIO 9"@, "SPI0 MISO"@, PinType::SPI, Some("SoC pin C11"@)),
        pin_model(23, "GPIO 11"@, "SPI0 SCLK"@, PinType::SPI, Some("SoC pin A9"@)),
        pin_model(25, "Ground"@, ""@, PinType::Ground, None),
        pin_model(27, "GPIO 0"@, "EEPROM SDA"@, PinType::I2C, Some("SoC pin D11"@)),
        pin_model(29, "GPIO 5"@, ""@, PinType::GPIO, Some("SoC pin B20"@)),
        pin_model(31, "GPIO 6"@, ""@, PinType::GPIO, Some("SoC pin D20"@)),
        pin_model(33, "GPIO 13"@, "PWM1"@, PinType::GPIO, Some("SoC pin E19"@)),
        pin_model(35, "GPIO 19"@, "PCM FS"@, PinType::PCM, Some("SoC pin C26"@)),
        pin_model(37, "GPIO 26"@, ""@, PinType::GPIO, Some("SoC pin P26"@)),
        pin_model(39, "Ground"@, ""@, PinType::Ground, None),
        pin_model(2, "5v Power"@, ""@, PinType::Power5v, None),
        pin_model(4, "5v Power"@, ""@, PinType::Power5v, None),
        pin_model(6, "Ground"@, ""@, PinType::Ground, None),
        pin_model(8, "GPIO 14"@, "UART TX"@, PinType::UART, Some("SoC pin F24"@)),
        pin_model(10, "GPIO 15"@, "UART RX"@, PinType::UART, Some("SoC pin C27"@)),
        pin_model(12, "GPIO 18"@, "PCM CLK"@, PinType::PCM, Some("SoC pin D25"@)),
        pin_model(14, "Ground"@, ""@, PinType::Ground, None),
        pin_model(16, "GPIO 23"@, ""@, PinType::GPIO, Some("SoC pin B5"@)),
        pin_model(18, "GPIO 24"@, ""@, PinType::GPIO, Some("SoC pin C8"@)),
        pin_model(20, "Ground"@, ""@, PinType::Ground, None),
        pin_model(22, "GPIO 25"@, ""@, PinType::GPIO, Some("SoC pin P21"@)),
        pin_model(24, "GPIO 8"@, "SPI0 CE0"@, PinType::SPI, Some("SoC pin C12"@)),
        pin_model(26, "GPIO 7"@, "SPI0 CE1"@, PinType::SPI, Some("SoC pin B3"@)),
        pin_model(28, "GPIO 1"@, "EEPROM SCL"@, PinType::I2C, Some("SoC pin B9"@)),
        pin_model(30, "Ground"@, ""@, PinType::Ground, None),
        pin_model(32, "GPIO 12"@, "PWM0"@, PinType::GPIO, Some("SoC pin C20"@)),
        pin_model(34, "Ground"@, ""@, PinType::Ground, None),
        pin_model(36, "GPIO 16"@, ""@, PinType::GPIO, Some("SoC pin A25"@)),
        pin_model(38, "GPIO 20"@, "PCM DIN"@, PinType::PCM, Some("SoC pin F23"@)),
        pin_model(40, "GPIO 21"@, "PCM DOUT"@, PinType::PCM, Some("SoC pin B25"@)),
    ]
}

fn pin(number: u16, name: &str, function: &str, pin_type: PinType, note: Option<&str>) -> (p: PinInfo)
    ensures
        p@ == pin_model(number, name@, function@, pin_type, match note {
            Some(n) => Some(n@),
            None => None,
        }),
{
    PinInfo {
        number,
        name: String::from_str(name),
        function: String::from_str(function),
        pin_type,
        note: match note {
            Some(n) => Some(String::from_str(n)),
            None => None,
        },
    }
}

/// The header's pins, as `pin_table` lists them.
#[verifier::rlimit(100)]
pub fn load_pin_data() -> (pins: Vec<PinInfo>)
    ensures
        pins@.len() == pin_table().len(),
        forall|k: int| 0 <= k < pins@.len() ==> #[trigger] pins@[k]@ == pin_table()[k],
{
    let pins = vec![
        pin(1, "3v3 Power", "Buck 1 (3.5A max)", PinType::Power3v3, Some("Shared rail - 500mA usable")),
        pin(3, "GPIO 2", "I2C1 SDA", PinType::I2C, Some("SoC pin E11")),
        pin(5, "GPIO 3", "I2C1 SCL", PinType::I2C, Some("SoC pin B13")),
        pin(7, "GPIO 4", "", PinType::GPIO, Some("SoC pin W26")),
        pin(9, "Ground", "", PinType::Ground, None),
        pin(11, "GPIO 17", "", PinType::GPIO, Some("SoC pin A26")),
        pin(13, "GPIO 27", "", PinType::GPIO, Some("SoC pin N22")),
        pin(15, "GPIO 22", "", PinType::GPIO, Some("SoC pin R27")),
        pin(17, "3v3 Power", "", PinType::Power3v3, None),
        pin(19, "GPIO 10", "SPI0 MOSI", PinType::SPI, Some("SoC pin B12")),
        pin(21, "GPIO 9", "SPI0 MISO", PinType::SPI, Some("SoC pin C11")),
        pin(23, "GPIO 11", "SPI0 SCLK", PinType::SPI, Some("SoC pin A9")),
        pin(25, "Ground", "", PinType::Ground, None),
        pin(27, "GPIO 0", "EEPROM SDA", PinType::I2C, Some("SoC pin D11")),
        pin(29, "GPIO 5", "", PinType::GPIO, Some("SoC pin B20")),
        pin(31, "GPIO 6", "", PinType::GPIO, Some("SoC pin D20")),
        pin(33, "GPIO 13", "PWM1", PinType::GPIO, Some("SoC pin E19")),
        pin(35, "GPIO 19", "PCM FS", PinType::PCM, Some("SoC pin C26")),
        pin(37, "GPIO 26", "", PinType::GPIO, Some("SoC pin P26")),
        pin(39, "Ground", "", PinType::Ground, None),
        pin(2, "5v Power", "", PinType::Power5v, None),
        pin(4, "5v Power", "", PinType::Power5v, None),
        pin(6, "Ground", "", PinType::Ground, None),
        pin(8, "GPIO 14", "UART TX", PinType::UART, Some("SoC pin F24")),
        pin(10, "GPIO 15", "UART RX", PinType::UART, Some("SoC pin C27")),
        pin(12, "GPIO 18", "PCM CLK", PinType::PCM, Some("SoC pin D25")),
        pin(14, "Ground", "", PinType::Ground, None),
        pin(16, "GPIO 23", "", PinType::GPIO, Some("SoC pin B5")),
        pin(18, "GPIO 24", "", PinType::GPIO, Some("SoC pin C8")),
        pin(20, "Ground", "", PinType::Ground, None),
        pin(22, "GPIO 25", "", PinType::GPIO, Some("SoC pin P21")),
        pin(24, "GPIO 8", "SPI0 CE0", PinType::SPI, Some("SoC pin C12")),
        pin(26, "GPIO 7", "SPI0 CE1", PinType::SPI, Some("SoC pin B3")),
        pin(28, "GPIO 1", "EEPROM SCL", PinType::I2C, Some("SoC pin B9")),
        pin(30, "Ground", "", PinType::Ground, None),
        pin(32, "GPIO 12", "PWM0", PinType::GPIO, Some("SoC pin C20")),
        pin(34, "Ground", "", PinType::Ground, None),
        pin(36, "GPIO 16", "", PinType::GPIO, Some("SoC pin A25")),
        pin(38, "GPIO 20", "PCM DIN", PinType::PCM, Some("SoC pin F23")),
        pin(40, "GPIO 21", "PCM DOUT", PinType::PCM, Some("SoC pin B25")),
    ];
    pins
}

impl PinInfo {
    /// A placeholder pin: number 0, no name or function, ground, no note.
    pub fn empty() -> (p: PinInfo)
        ensures
            p.number == 0,
            p.name@.len() == 0,
            p.function@.len() == 0,
            p.pin_type == PinType::Ground,
            p.note is None,
    {
        Self { number: 0, name: String::new(), function: String::new(), pin_type: PinType::Ground, note: None }
    }

    /// The pin's number, name and colour.
    pub fn ref_info(&self) -> (r: (u16, &str, PinColor))
        ensures
            r.0 == self.number,
            r.1@ == self.name@,
            r.2 == spec_type_color(self.pin_type),
    {
        (self.number, self.name.as_str(), self.type_color())
    }

    /// The colour of the pin's type.
    pub fn type_color(&self) -> (c: PinColor)
        ensures
            c == spec_type_color(self.pin_type),
    {
        match self.pin_type {
            PinType::Power3v3 => PinColor::Amber,
            PinType::Power5v => PinColor::Red,
            PinType::Ground => PinColor::White,
            PinType::GPIO => PinColor::Lime,
            PinType::SPI => PinColor::Pink,
            PinType::I2C => PinColor::Sky,
            PinType::UART => PinColor::Violet,
            PinType::PCM => PinColor::Teal,
            PinType::Special => PinColor::Sky,
        }
    }
}

/// The name of a pin type, as its debug form prints it.
pub fn kind_label(t: PinType) -> (s: String)
    ensures
        s@ == spec_kind_label(t),
{
    String::from_str(match t {
        PinType::Power3v3 => "Power3v3",
        PinType::Power5v => "Power5v",
        PinType::Ground => "Ground",
        PinType::GPIO => "GPIO",
        PinType::SPI => "SPI",
        PinType::I2C => "I2C",
        PinType::UART => "UART",
        PinType::PCM => "PCM",
        PinType::Special => "Special",
    })
}

/// A pin of the list, by its index there, ordered by its number.
#[derive(Clone, Copy, Debug, PartialEq, Eq, Structural)]
pub struct PinRef {
    pub index: usize,
    pub number: u16,
}

impl SortKey for PinRef {
    open spec fn sort_key(&self) -> int {
        self.number as int
    }

    fn key(&self) -> (k: i64) {
        self.number as i64
    }
}

/// The references to the pins of `pins` on one side (odd numbers when `odd`), in list order.
pub open spec fn side_refs(pins: Seq<PinModel>, odd: bool) -> Seq<PinRef>
    decreases pins.len(),
{
    if pins.len() == 0 {
        Seq::empty()
    } else {
        let rest = side_refs(pins.drop_last(), odd);
        let p = pins.last();
        if (p.number % 2 != 0) == odd {
            rest.push(PinRef { index: (pins.len() - 1) as usize, number: p.number })
        } else {
            rest
        }
    }
}

/// One row of a pin table: the number, the name (after a space on the left side), and the
/// colour of the pin's dot.
pub struct PinRow {
    pub number_text: String,
    pub name_text: String,
    pub color: PinColor,
}

/// What the details box shows of a pin.
pub struct PinDetails {
    pub number_text: String,
    pub name: String,
    pub function: String,
    pub kind_label: String,
    pub note: Option<String>,
    pub color: PinColor,
}

/// Where the pin-out view's parts go: the pin box with its two tables, the legend, and the
/// details box.
pub struct PinOutLayout {
    pub pins: Rect,
    pub legend: Rect,
    pub info: Rect,
    pub left_table: Rect,
    pub right_table: Rect,
}

/// The pin-out view: the header's pins in two tables, and the details of the selected one.
pub struct PinOut {
    pub title: String,
    pub state_l: SelectionState,
    pub state_r: SelectionState,
    pub items: Vec<PinInfo>,
    pub selected_table: SelectedTable,
}

/// The index after `selected` moving down a table of `len` rows, wrapping to the top.
pub open spec fn spec_next_row(selected: Option<usize>, len: int) -> usize {
    match selected {
        Some(i) => if i >= len - 1 { 0 } else { (i + 1) as usize },
        None => 0,
    }
}

/// The index after `selected` moving up a table of `len` rows, wrapping to the bottom.
pub open spec fn spec_previous_row(selected: Option<usize>, len: int) -> usize {
    match selected {
        Some(i) => if i == 0 { (len - 1) as usize } else { (i - 1) as usize },
        None => 0,
    }
}

impl PinOut {
    /// The view has pins to move over.
    pub open spec fn wf(self) -> bool {
        self.items@.len() > 0
    }

    /// The selection of the table that has it.
    pub open spec fn active_state(self) -> SelectionState {
        match self.selected_table {
            SelectedTable::Left => self.state_l,
            SelectedTable::Right => self.state_r,
        }
    }

    /// The view with the active table's selection replaced by `s`.
    pub open spec fn with_active_state(self, s: SelectionState) -> PinOut {
        match self.selected_table {
            SelectedTable::Left => PinOut { state_l: s, ..self },
            SelectedTable::Right => PinOut { state_r: s, ..self },
        }
    }

    /// The view after moving down in the active table (over all the pins' count).
    pub open spec fn after_next_row(self) -> PinOut {
        self.with_active_state(self.active_state().spec_select(
            Some(spec_next_row(self.active_state().selected, self.items@.len() as int))))
    }

    /// The view after moving up in the active table (over all the pins' count).
    pub open spec fn after_previous_row(self) -> PinOut {
        self.with_active_state(self.active_state().spec_select(
            Some(spec_previous_row(self.active_state().selected, self.items@.len() as int))))
    }

    /// The view after moving to the left table: from the right one, the selection goes over.
    pub open spec fn after_switch_left(self) -> PinOut {
        if self.selected_table == SelectedTable::Right {
            PinOut {
                state_l: self.state_l.spec_select(self.state_r.selected),
                state_r: self.state_r.spec_select(None),
                selected_table: SelectedTable::Left,
                ..self
            }
        } else {
            self
        }
    }

    /// The view after moving to the right table: from the left one, the selection goes over.
    pub open spec fn after_switch_right(self) -> PinOut {
        if self.selected_table == SelectedTable::Left {
            PinOut {
                state_r: self.state_r.spec_select(self.state_l.selected),
                state_l: self.state_l.spec_select(None),
                selected_table: SelectedTable::Right,
                ..self
            }
        } else {
            self
        }
    }

    /// The view after a key, and its answer: Backspace goes back to the menu; j or Down,
    /// k or Up, h or Left, l or Right move; every other key changes nothing.
    pub open spec fn after_key(self, code: KeyCode) -> (PinOut, Option<Action>) {
        match code {
            KeyCode::Backspace => (self, Some(Action::BackToMenu)),
            KeyCode::Char('j') | KeyCode::Down => (self.after_next_row(), None),
            KeyCode::Char('k') | KeyCode::Up => (self.after_previous_row(), None),
            KeyCode::Char('h') | KeyCode::Left => (self.after_switch_left(), None),
            KeyCode::Char('l') | KeyCode::Right => (self.after_switch_right(), None),
            _ => (self, None),
        }
    }

    /// The view titled "pinout" over the header's pins, the left table's first row selected.
    pub fn init() -> (v: PinOut)
        ensures
            v.title@ == "pinout"@,
            v.state_l == SelectionState::with_selected_spec(Some(0usize)),
            v.state_r == SelectionState::spec_new(),
            v.items@.len() == pin_table().len(),
            forall|k: int| 0 <= k < v.items@.len() ==> #[trigger] v.items@[k]@ == pin_table()[k],
            v.selected_table == SelectedTable::Left,
            v.wf(),
    {
        PinOut {
            title: String::from_str("pinout"),
            state_l: SelectionState::with_selected(Some(0)),
            state_r: SelectionState::with_selected(None),
            items: load_pin_data(),
            selected_table: SelectedTable::Left,
        }
    }

    /// Where the parts go in `area`: inside a one-cell margin left and right, a 38-cell column
    /// (a 22-line pin box above the legend) beside the details; inside the pin box's border,
    /// two 18-cell tables.
    pub fn layout(area: Rect) -> (l: PinOutLayout)
        ensures
            ({
                let cols = layout_areas(margin_inner(area, 1, 0), false,
                    seq![Constraint::Length(38), Constraint::Min(1)]);
                let left = layout_areas(cols[0], true, seq![Constraint::Length(22), Constraint::Min(1)]);
                let tables = layout_areas(bordered_inner(left[0]), false,
                    seq![Constraint::Length(18), Constraint::Length(18), Constraint::Min(1)]);
                &&& l.pins == left[0]
                &&& l.legend == left[1]
                &&& l.info == cols[1]
                &&& l.left_table == tables[0]
                &&& l.right_table == tables[1]
            }),
    {
        let inner = rect_margin_inner(area, 1, 0);
        let (column, info) = split2(inner, false, Constraint::Length(38), Constraint::Min(1));
        let (pins, legend) = split2(column, true, Constraint::Length(22), Constraint::Min(1));
        let (left_table, right_table, _) = split3(block_bordered_inner(pins), false, Constraint::Length(18),
            Constraint::Length(18), Constraint::Min(1));
        PinOutLayout { pins, legend, info, left_table, right_table }
    }

    /// Moves down in the active table, wrapping from the last pin's index to the first.
    pub fn next_row(&mut self)
        requires
            old(self).wf(),
        ensures
            *final(self) == old(self).after_next_row(),
    {
        let state = match self.selected_table {
            SelectedTable::Left => &self.state_l,
            SelectedTable::Right => &self.state_r,
        };
        let i = match state.selected {
            Some(i) => {
                if i >= self.items.len() - 1 {
                    0
                } else {
                    i + 1
                }
            },
            None => 0,
        };
        if self.selected_table == SelectedTable::Left {
            self.state_l.select_row(Some(i));
        } else {
            self.state_r.select_row(Some(i));
        }
    }

    /// Moves up in the active table, wrapping from the first to the last pin's index.
    pub fn previous_row(&mut self)
        requires
            old(self).wf(),
        ensures
            *final(self) == old(self).after_previous_row(),
    {
        let state = match self.selected_table {
            SelectedTable::Left => &self.state_l,
            SelectedTable::Right => &self.state_r,
        };
        let i = match state.selected {
            Some(i) => {
                if i == 0 {
                    self.items.len() - 1
                } else {
                    i - 1
                }
            },
            None => 0,
        };
        if self.selected_table == SelectedTable::Left {
            self.state_l.select_row(Some(i));
        } else {
            self.state_r.select_row(Some(i));
        }
    }

    fn switch_left(&mut self)
        ensures
            *final(self) == old(self).after_switch_left(),
    {
        if self.selected_table == SelectedTable::Right {
            match self.state_r.selected {
                Some(i) => {
                    self.state_l.select_row(Some(i));
                },
                None => self.state_l.select_row(None),
            };
            self.state_r.select_row(None);
            self.selected_table = SelectedTable::Left;
        }
    }

    fn switch_right(&mut self)
        ensures
            *final(self) == old(self).after_switch_right(),
    {
        if self.selected_table == SelectedTable::Left {
            match self.state_l.selected {
                Some(i) => {
                    self.state_r.select_row(Some(i));
                },
                None => self.state_r.select_row(None),
            };
            self.state_l.select_row(None);
            self.selected_table = SelectedTable::Right;
        }
    }

    /// The pins of one side (odd numbers when `odd`), in list order.
    fn side_items(&self, odd: bool) -> (r: Vec<PinRef>)
        ensures
            r@ == side_refs(self.items@.map_values(|p: PinInfo| p@), odd),
    {
        let ghost models = self.items@.map_values(|p: PinInfo| p@);
        let mut r: Vec<PinRef> = Vec::new();
        let mut i: usize = 0;
        while i < self.items.len()
            invariant
                i <= self.items@.len(),
                models == self.items@.map_values(|p: PinInfo| p@),
                r@ == side_refs(models.take(i as int), odd),
            decreases self.items@.len() - i,
        {
            let p = &self.items[i];
            if (p.number % 2 != 0) == odd {
                r.push(PinRef { index: i, number: p.number });
            }
            proof {
                assert(models.take(i + 1).drop_last() =~= models.take(i as int));
                assert(models.take(i + 1).last() == models[i as int]);
            }
            i = i + 1;
        }
        assert(models.take(self.items@.len() as int) =~= models);
        r
    }

    /// The odd-numbered pins (the left column), in list order.
    pub fn left_items(&self) -> (r: Vec<PinRef>)
        ensures
            r@ == side_refs(self.items@.map_values(|p: PinInfo| p@), true),
    {
        self.side_items(true)
    }

    /// The even-numbered pins (the right column), in list order.
    pub fn right_items(&self) -> (r: Vec<PinRef>)
        ensures
            r@ == side_refs(self.items@.map_values(|p: PinInfo| p@), false),
    {
        self.side_items(false)
    }

    /// The rows of one table (the left when `odd`): the side's pins ordered by number.
    pub fn table_rows(&self, odd: bool) -> (rows: Vec<PinRow>)
        ensures
            ({
                let refs = stable_sorted(side_refs(self.items@.map_values(|p: PinInfo| p@), odd));
                &&& rows@.len() == refs.len()
                &&& forall|k: int| #![trigger rows@[k]] 0 <= k < refs.len() ==> {
                    let p = self.items@[refs[k].index as int]@;
                    &&& rows@[k].number_text@ == decimal(p.number as nat)
                    &&& rows@[k].name_text@ == (if odd { " "@ + p.name } else { p.name })
                    &&& rows@[k].color == spec_type_color(p.pin_type)
                }
            }),
    {
        let refs = stable_sort(self.side_items(odd));
        let count = self.items.len();
        let ghost models = self.items@.map_values(|p: PinInfo| p@);
        proof {
            crate::sorting::lemma_stable_sorted(side_refs(models, odd));
            assert(models.len() == self.items@.len());
            lemma_side_refs_in_range(models, odd);
            assert forall|k: int| 0 <= k < refs@.len() implies #[trigger] refs@[k].index < self.items@.len()
                && self.items@[refs@[k].index as int].number == refs@[k].number by {
                let sr = side_refs(models, odd);
                vstd::seq_lib::to_multiset_contains(refs@, refs@[k]);
                assert(refs@.to_multiset().count(refs@[k]) > 0);
                assert(sr.to_multiset().count(refs@[k]) > 0);
                vstd::seq_lib::to_multiset_contains(sr, refs@[k]);
                let j = choose|j: int| 0 <= j < sr.len() && sr[j] == refs@[k];
            }
        }
        let mut rows: Vec<PinRow> = Vec::new();
        let mut k: usize = 0;
        while k < refs.len()
            invariant
                k <= refs@.len(),
                refs@ == stable_sorted(side_refs(self.items@.map_values(|p: PinInfo| p@), odd)),
                forall|j: int| 0 <= j < refs@.len() ==> #[trigger] refs@[j].index < self.items@.len()
                    && self.items@[refs@[j].index as int].number == refs@[j].number,
                rows@.len() == k,
                forall|j: int| #![trigger rows@[j]] 0 <= j < k ==> {
                    let p = self.items@[refs@[j].index as int]@;
                    &&& rows@[j].number_text@ == decimal(p.number as nat)
                    &&& rows@[j].name_text@ == (if odd { " "@ + p.name } else { p.name })
                    &&& rows@[j].color == spec_type_color(p.pin_type)
                },
            decreases refs@.len() - k,
        {
            let r = refs[k];
            let p = &self.items[r.index];
            let name_text = if odd { concat2(" ", p.name.as_str()) } else { p.name.clone() };
            rows.push(PinRow {
                number_text: u64_to_string(p.number as u64),
                name_text,
                color: p.type_color(),
            });
            k = k + 1;
        }
        rows
    }

    /// The pin whose details are shown, by its index in the list: the one at the active
    /// table's selected position (the top when none) among that side's pins in list order,
    /// if there is a pin there.
    pub fn selected_pin(&self) -> (r: Option<usize>)
        ensures
            ({
                let side = side_refs(self.items@.map_values(|p: PinInfo| p@),
                    self.selected_table == SelectedTable::Left);
                let pos = match self.active_state().selected { Some(i) => i as int, None => 0 };
                r == if pos < side.len() { Some(side[pos].index) } else { None }
            }),
    {
        let binding = match self.selected_table {
            SelectedTable::Left => self.left_items(),
            SelectedTable::Right => self.right_items(),
        };
        let pos = match self.selected_table {
            SelectedTable::Left => match self.state_l.selected { Some(i) => i, None => 0 },
            SelectedTable::Right => match self.state_r.selected { Some(i) => i, None => 0 },
        };
        if pos < binding.len() {
            Some(binding[pos].index)
        } else {
            None
        }
    }

    /// What the details box shows of the pin at `index`: its number, name, function, type
    /// name, note and colour.
    pub fn details(&self, index: usize) -> (d: PinDetails)
        requires
            index < self.items@.len(),
        ensures
            ({
                let p = self.items@[index as int]@;
                &&& d.number_text@ == decimal(p.number as nat)
                &&& d.name@ == p.name
                &&& d.function@ == p.function
                &&& d.kind_label@ == spec_kind_label(p.pin_type)
                &&& match d.note { Some(n) => p.note == Some(n@), None => p.note is None }
                &&& d.color == spec_type_color(p.pin_type)
            }),
    {
        let pin = &self.items[index];
        PinDetails {
            number_text: u64_to_string(pin.number as u64),
            name: pin.name.clone(),
            function: pin.function.clone(),
            kind_label: kind_label(pin.pin_type),
            note: match &pin.note {
                Some(n) => Some(n.clone()),
                None => None,
            },
            color: pin.type_color(),
        }
    }
}

/// Moving down and then up in a table comes back to the same row.
pub proof fn lemma_rows_round_trip(v: PinOut, i: usize)
    requires
        v.wf(),
        v.active_state().selected == Some(i),
        i < v.items@.len() <= usize::MAX,
    ensures
        v.after_next_row().after_previous_row().active_state().selected == Some(i),
        v.after_previous_row().after_next_row().active_state().selected == Some(i),
{
    let n = v.after_next_row();
    let p = v.after_previous_row();
    assert(n.items == v.items && n.selected_table == v.selected_table);
    assert(p.items == v.items && p.selected_table == v.selected_table);
}

/// The arrow keys and the vi keys do the same: Up is `k`, Down is `j`, Left is `h`, Right is
/// `l`.  Down then Up (and Up then Down) comes back to the selected row, Up moves to the
/// row before and Down to the row after, wrapping around; Left and Right make their table
/// the active one and carry the selected row over; Backspace goes back to the menu.
pub proof fn lemma_arrow_keys_move_rows(v: PinOut, i: usize)
    requires
        v.wf(),
        v.active_state().selected == Some(i),
        i < v.items@.len() <= usize::MAX,
    ensures
        v.after_key(KeyCode::Up) == v.after_key(KeyCode::Char('k')),
        v.after_key(KeyCode::Down) == v.after_key(KeyCode::Char('j')),
        v.after_key(KeyCode::Left) == v.after_key(KeyCode::Char('h')),
        v.after_key(KeyCode::Right) == v.after_key(KeyCode::Char('l')),
        v.after_key(KeyCode::Down).0.after_key(KeyCode::Up).0.active_state().selected == Some(i),
        v.after_key(KeyCode::Up).0.after_key(KeyCode::Down).0.active_state().selected == Some(i),
        v.after_key(KeyCode::Up).0.active_state().selected
            == Some((if i == 0 { v.items@.len() - 1 } else { i - 1 }) as usize),
        v.after_key(KeyCode::Down).0.active_state().selected
            == Some((if i + 1 == v.items@.len() { 0 } else { i + 1 }) as usize),
        v.after_key(KeyCode::Left).0.selected_table == SelectedTable::Left,
        v.after_key(KeyCode::Right).0.selected_table == SelectedTable::Right,
        v.after_key(KeyCode::Left).0.active_state().selected == Some(i),
        v.after_key(KeyCode::Right).0.active_state().selected == Some(i),
        v.after_key(KeyCode::Backspace) == (v, Some(Action::BackToMenu)),
{
    lemma_rows_round_trip(v, i);
}

/// Switching to the right table and back to the left keeps the selected row.
pub proof fn lemma_switch_round_trip(v: PinOut)
    requires
        v.selected_table == SelectedTable::Left,
    ensures
        v.after_switch_right().after_switch_left().state_l.selected == v.state_l.selected,
        v.after_switch_right().after_switch_left().selected_table == SelectedTable::Left,
        v.after_switch_right().after_switch_left().state_r.selected is None,
{
}

/// Every reference of a side names a pin of the list with that number.
proof fn lemma_side_refs_in_range(pins: Seq<PinModel>, odd: bool)
    requires
        pins.len() <= usize::MAX,
    ensures
        forall|k: int| 0 <= k < side_refs(pins, odd).len() ==> {
            let r = #[trigger] side_refs(pins, odd)[k];
            r.index < pins.len() && pins[r.index as int].number == r.number
        },
    decreases pins.len(),
{
    if pins.len() > 0 {
        let init = pins.drop_last();
        lemma_side_refs_in_range(init, odd);
        let rest = side_refs(init, odd);
        assert forall|k: int| 0 <= k < side_refs(pins, odd).len() implies {
            let r = #[trigger] side_refs(pins, odd)[k];
            r.index < pins.len() && pins[r.index as int].number == r.number
        } by {
            if k < rest.len() {
                let r = rest[k];
                assert(side_refs(pins, odd)[k] == r);
                assert(pins[r.index as int] == init[r.index as int]);
            }
        }
    }
}

impl ViewComponent for PinOut {
    open spec fn key_ready(&self, key: KeyEvent) -> bool {
        self.wf()
    }

    open spec fn action_ready(&self, action: Action) -> bool {
        true
    }

    fn title(&self) -> (t: &str)
        ensures
            t@ == self.title@,
    {
        self.title.as_str()
    }

    fn handle_key_events(&mut self, key: KeyEvent) -> (r: Option<Action>)
        ensures
            (*final(self), r) == old(self).after_key(key.code),
    {
        match key.code {
            KeyCode::Backspace => {
                return Some(Action::BackToMenu);
            },
            KeyCode::Char('j') | KeyCode::Down => self.next_row(),
            KeyCode::Char('k') | KeyCode::Up => self.previous_row(),
            KeyCode::Char('h') | KeyCode::Left => self.switch_left(),
            KeyCode::Char('l') | KeyCode::Right => self.switch_right(),
            _ => {},
        }
        None
    }
}

} // verus!
