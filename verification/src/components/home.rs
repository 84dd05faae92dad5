use vstd::prelude::*;
use vstd::string::*;
use crate::action::Action;
use crate::components::views::ViewComponent;
use crate::components::views::locale::LocaleView;
use crate::components::views::password::{PasswordFocus, PasswordModel, PasswordView};
use crate::components::views::ssh::{SshFocus, SshView};
use crate::components::views::test::TestViewComponent;
use crate::input::{KeyCode, KeyEvent, KeyEventKind, Rect};
use crate::layout::{Constraint, layout_areas, bordered_inner, block_bordered_inner, split, split2, split3};
use crate::selection::SelectionState;
use crate::text::concat2;
use crate::widgets::button::ButtonState;
use crate::widgets::switch::SwitchState;

verus! {

/// A view that the menu offers.
pub enum MenuView {
    Password(PasswordView),
    Ssh(SshView),
    Locale(LocaleView),
    Test(TestViewComponent),
}

/// The state of a view that the menu offers.
pub enum MenuViewModel {
    Password(PasswordModel),
    Ssh(SshView),
    Locale(LocaleView),
    Test(TestViewComponent),
}

impl View for MenuView {
    type V = MenuViewModel;

    open spec fn view(&self) -> MenuViewModel {
        match self {
            MenuView::Password(p) => MenuViewModel::Password(p@),
            MenuView::Ssh(s) => MenuViewModel::Ssh(*s),
            MenuView::Locale(l) => MenuViewModel::Locale(*l),
            MenuView::Test(t) => MenuViewModel::Test(*t),
        }
    }
}

impl MenuViewModel {
    /// The view's title.
    pub open spec fn title(self) -> Seq<char> {
        match self {
            MenuViewModel::Password(p) => p.title,
            MenuViewModel::Ssh(s) => s.title@,
            MenuViewModel::Locale(l) => l.title@,
            MenuViewModel::Test(t) => t.title@,
        }
    }

    /// The view after a key, and its answer: each kind of view as it says.
    pub open spec fn after_key(self, code: KeyCode) -> (MenuViewModel, Option<Action>) {
        match self {
            MenuViewModel::Password(p) => {
                let (q, r) = p.after_key(code);
                (MenuViewModel::Password(q), r)
            },
            MenuViewModel::Ssh(s) => {
                let (q, r) = s.after_key(code);
                (MenuViewModel::Ssh(q), r)
            },
            MenuViewModel::Locale(l) => {
                let (q, r) = l.after_key(code);
                (MenuViewModel::Locale(q), r)
            },
            MenuViewModel::Test(t) => (self, None),
        }
    }
}

impl ViewComponent for MenuView {
    open spec fn key_ready(&self, key: KeyEvent) -> bool {
        true
    }

    open spec fn action_ready(&self, action: Action) -> bool {
        true
    }

    fn title(&self) -> (t: &str)
        ensures
            t@ == self@.title(),
    {
        match self {
            MenuView::Password(p) => p.title(),
            MenuView::Ssh(s) => s.title(),
            MenuView::Locale(l) => l.title(),
            MenuView::Test(t) => t.title(),
        }
    }

    fn handle_key_events(&mut self, key: KeyEvent) -> (r: Option<Action>)
        ensures
            (final(self)@, r) == old(self)@.after_key(key.code),
    {
        match self {
            MenuView::Password(p) => p.handle_key_events(key),
            MenuView::Ssh(s) => s.handle_key_events(key),
            MenuView::Locale(l) => l.handle_key_events(key),
            MenuView::Test(t) => t.handle_key_events(key),
        }
    }

    /// None of the menu's views reacts to actions.
    fn update(&mut self, action: Action) -> (r: Option<Action>)
        ensures
            r is None,
            final(self)@ == old(self)@,
    {
        None
    }
}

/// A group of the menu: its name, its views and which of them is selected.
pub struct MenuGroup {
    pub name: String,
    pub component: Vec<MenuView>,
    pub state: SelectionState,
}

/// The state of a menu group.
pub struct GroupModel {
    pub name: Seq<char>,
    pub components: Seq<MenuViewModel>,
    pub state: SelectionState,
}

impl View for MenuGroup {
    type V = GroupModel;

    open spec fn view(&self) -> GroupModel {
        GroupModel {
            name: self.name@,
            components: self.component@.map_values(|c: MenuView| c@),
            state: self.state,
        }
    }
}

/// The home screen: the menu of view groups, the Exit button and whether a view has the keys.
pub struct Home {
    pub menu_list: Vec<MenuGroup>,
    pub menu_state: SelectionState,
    pub button_state: ButtonState,
    pub active: bool,
}

/// The state of the home screen.
pub struct HomeModel {
    pub groups: Seq<GroupModel>,
    pub menu_state: SelectionState,
    pub button_state: ButtonState,
    pub active: bool,
}

impl View for Home {
    type V = HomeModel;

    open spec fn view(&self) -> HomeModel {
        HomeModel {
            groups: self.menu_list@.map_values(|g: MenuGroup| g@),
            menu_state: self.menu_state,
            button_state: self.button_state,
            active: self.active,
        }
    }
}

/// The selected index, or 0 when nothing is selected.
pub open spec fn selected_or_zero(s: SelectionState) -> int {
    match s.selected {
        Some(i) => i as int,
        None => 0,
    }
}

impl HomeModel {
    /// The menu is well formed: there is a group (and no more than a `Vec` holds), every group has a view, the selected group
    /// exists, and exactly the selected group has a selected view.
    pub open spec fn wf(self) -> bool {
        &&& 0 < self.groups.len() <= usize::MAX
        &&& forall|g: int| 0 <= g < self.groups.len() ==> #[trigger] self.groups[g].components.len() > 0
        &&& match self.menu_state.selected {
            None => forall|g: int| 0 <= g < self.groups.len() ==> #[trigger] self.groups[g].state.selected is None,
            Some(s) => {
                &&& s < self.groups.len()
                &&& self.groups[s as int].state.selected is Some
                &&& forall|g: int| 0 <= g < self.groups.len() && g != s ==> #[trigger] self.groups[g].state.selected is None
            },
        }
    }

    /// The keys can go to the active view: while a view is active, its selected index names
    /// one of the group's views.  (Rendering the menu clamps the indices; before it, a group
    /// entered from below holds `usize::MAX`.)
    pub open spec fn dispatch_ready(self) -> bool {
        self.active ==> match self.menu_state.selected {
            Some(g) => match self.groups[g as int].state.selected {
                Some(i) => i < self.groups[g as int].components.len(),
                None => true,
            },
            None => true,
        }
    }

    /// The menu with group `g`'s selection replaced by `s`.
    pub open spec fn set_group_state(self, g: int, s: SelectionState) -> HomeModel {
        HomeModel {
            groups: self.groups.update(g, GroupModel { state: s, ..self.groups[g] }),
            ..self
        }
    }

    /// Nothing selected anywhere, and the Exit button selected.
    pub open spec fn after_reset(self) -> HomeModel {
        HomeModel {
            groups: self.groups.map_values(|gm: GroupModel| GroupModel { state: gm.state.spec_select(None), ..gm }),
            menu_state: self.menu_state.spec_select(None),
            button_state: ButtonState::Selected,
            active: self.active,
        }
    }

    /// Moving up: within the group; from a group's first view to the previous group's last
    /// view; from the first group's first view back to the Exit button.
    pub open spec fn after_previous(self) -> HomeModel {
        match self.menu_state.selected {
            Some(idx) => {
                let cur = self.groups[idx as int];
                if selected_or_zero(cur.state) > 0 {
                    self.set_group_state(idx as int, cur.state.spec_select_previous())
                } else if idx > 0 {
                    let m1 = self.set_group_state(idx as int, cur.state.spec_select(None));
                    let m2 = HomeModel { menu_state: m1.menu_state.spec_select_previous(), ..m1 };
                    m2.set_group_state(idx - 1, m2.groups[idx - 1].state.spec_select_last())
                } else {
                    self.after_reset()
                }
            },
            None => self,
        }
    }

    /// Moving down: within the group; from a group's last view to the next group's first
    /// view; nowhere from the last group's last view; from the Exit button to the first view
    /// of the first group, the button no longer selected.
    pub open spec fn after_next(self) -> HomeModel {
        match self.menu_state.selected {
            Some(idx) => {
                let cur = self.groups[idx as int];
                if selected_or_zero(cur.state) < cur.components.len() - 1 {
                    self.set_group_state(idx as int, cur.state.spec_select_next())
                } else if idx < self.groups.len() - 1 {
                    let m1 = self.set_group_state(idx as int, cur.state.spec_select(None));
                    let m2 = HomeModel { menu_state: m1.menu_state.spec_select_next(), ..m1 };
                    m2.set_group_state(idx + 1, m2.groups[idx + 1].state.spec_select_first())
                } else {
                    self
                }
            },
            None => {
                let m1 = HomeModel { menu_state: self.menu_state.spec_select_first(), ..self };
                let m2 = m1.set_group_state(0, m1.groups[0].state.spec_select_first());
                HomeModel { button_state: ButtonState::Normal, ..m2 }
            },
        }
    }

    /// The state after a key, and the answer.  Only presses count.  While a view is active
    /// and selected, the key is the view's.  Otherwise Up and Down move the selection; Enter
    /// makes the selected view active, or quits when nothing is selected and the Exit button
    /// is; Esc unselects the Exit button.
    pub open spec fn after_key(self, key: KeyEvent) -> (HomeModel, Option<Action>) {
        if key.kind != KeyEventKind::Press {
            (self, None)
        } else if self.active && self.menu_state.selected is Some
            && self.groups[self.menu_state.selected->0 as int].state.selected is Some {
            let g = self.menu_state.selected->0 as int;
            let i = self.groups[g].state.selected->0 as int;
            let (c, r) = self.groups[g].components[i].after_key(key.code);
            (HomeModel {
                groups: self.groups.update(g, GroupModel {
                    components: self.groups[g].components.update(i, c),
                    ..self.groups[g]
                }),
                ..self
            }, r)
        } else {
            match key.code {
                KeyCode::Up => (self.after_previous(), None),
                KeyCode::Down => (self.after_next(), None),
                KeyCode::Enter => if self.menu_state.selected is Some
                    && self.groups[self.menu_state.selected->0 as int].state.selected is Some {
                    (HomeModel { active: true, ..self }, None)
                } else if self.button_state == ButtonState::Selected {
                    (self, Some(Action::Quit))
                } else {
                    (self, None)
                },
                KeyCode::Esc => (HomeModel { button_state: ButtonState::Normal, ..self }, None),
                _ => (self, None),
            }
        }
    }

    /// The state after an action: going back to the menu makes no view active; nothing
    /// else changes anything.
    pub open spec fn after_action(self, action: Action) -> HomeModel {
        match action {
            Action::BackToMenu => HomeModel { active: false, ..self },
            _ => self,
        }
    }
}

/// What the menu shows of a group: its title line, one line per view, the rows it takes and
/// its selection.
pub struct GroupScreen {
    pub title: String,
    pub items: Vec<String>,
    pub height: u16,
    pub state: SelectionState,
}

/// What the home screen shows: whether the menu (rather than the view area) has the keys,
/// the groups, the Exit button, and which view is selected (group and index).
pub struct HomeScreen {
    pub menu_focused: bool,
    pub groups: Vec<GroupScreen>,
    pub exit_button: ButtonState,
    pub selected: Option<(usize, usize)>,
}

/// A group shows as "─" and its name, each view as " " and its title, over one row more than
/// it has views (the count cut to 16 bits).
pub open spec fn shows_group(gs: GroupScreen, gm: GroupModel) -> bool {
    &&& gs.title@ == "─"@ + gm.name
    &&& gs.items@.len() == gm.components.len()
    &&& forall|i: int| 0 <= i < gm.components.len() ==> #[trigger] gs.items@[i]@ == " "@ + gm.components[i].title()
    &&& gs.height == (gm.components.len() as u16) + 1
    &&& gs.state == gm.state
}

/// Every group's row count fits in 16 bits.
pub open spec fn heights_fit(m: HomeModel) -> bool {
    forall|g: int| 0 <= g < m.groups.len() ==> (#[trigger] m.groups[g].components.len() as u16) + 1 <= u16::MAX
}

/// Where the parts of the home screen go: the header line, the menu and the view area, the
/// footer; inside the menu its header line, the Exit button, one area per group and the
/// bottom line; inside the view area the view's title line and the view.
pub struct HomeLayout {
    pub header: Rect,
    pub menu: Rect,
    pub config: Rect,
    pub footer: Rect,
    pub menu_header: Rect,
    pub exit_button: Rect,
    pub groups: Vec<Rect>,
    pub menu_bottom: Rect,
    pub config_header: Rect,
    pub config_main: Rect,
}

/// The menu's rows: one for its header, one per view and one more per group, one at the bottom.
pub open spec fn menu_constraints(m: HomeModel) -> Seq<Constraint> {
    seq![Constraint::Length(1)]
        + Seq::new(m.groups.len(), |g: int| Constraint::Length(((m.groups[g].components.len() as u16) + 1) as u16))
        + seq![Constraint::Length(1)]
}

/// The group's name and its views' titles are as given.
pub open spec fn group_is(g: GroupModel, name: Seq<char>, titles: Seq<Seq<char>>) -> bool {
    &&& g.name == name
    &&& g.components.len() == titles.len()
    &&& forall|i: int| 0 <= i < titles.len() ==> #[trigger] g.components[i].title() == titles[i]
    &&& g.state == SelectionState::spec_new()
}

/// A new group named `name` holding `component`, nothing selected.
fn group(name: &str, component: Vec<MenuView>) -> (g: MenuGroup)
    ensures
        g.name@ == name@,
        g.component@ == component@,
        g.state == SelectionState::spec_new(),
{
    MenuGroup { name: String::from_str(name), component, state: SelectionState::new() }
}

impl Home {
    /// The menu: "System" with the password, SSH and locale views; "Audio", "Network" and
    /// "Experiment" with three placeholders each ("Item4" to "Item12"); nothing selected, the
    /// Exit button selected, no view active.
    pub fn new() -> (h: Home)
        ensures
            h@.wf(),
            h@.groups.len() == 4,
            group_is(h@.groups[0], "System"@, seq!["Password"@, "SSH"@, "locale"@]),
            group_is(h@.groups[1], "Audio"@, seq!["Item4"@, "Item5"@, "Item6"@]),
            group_is(h@.groups[2], "Network"@, seq!["Item7"@, "Item8"@, "Item9"@]),
            group_is(h@.groups[3], "Experiment"@, seq!["Item10"@, "Item11"@, "Item12"@]),
            h@.groups[0].components[0] matches MenuViewModel::Password(p) && {
                &&& p.old_input.len() == 0 && p.new_input.len() == 0
                &&& p.focus == PasswordFocus::Unfocused && !p.editing && !p.show_password
                &&& p.button_state == ButtonState::Normal && p.back_button_state == ButtonState::Normal
                &&& !p.update_active && p.error_message is None && p.pending_change is None
            },
            h@.groups[0].components[1] matches MenuViewModel::Ssh(s) && s.status@ == "Active"@
                && s.focus == SshFocus::Unfocused && s.wf(),
            h@.groups[0].components[2] matches MenuViewModel::Locale(l) && l.switch_focus == SwitchState::Off,
            forall|g: int, i: int| 1 <= g < 4 && 0 <= i < 3 ==> #[trigger] h@.groups[g].components[i] is Test,
            h.menu_state == SelectionState::spec_new(),
            h.button_state == ButtonState::Selected,
            !h.active,
    {
        let system = group("System", vec![
            MenuView::Password(PasswordView::init()),
            MenuView::Ssh(SshView::init()),
            MenuView::Locale(LocaleView::init()),
        ]);
        let audio = group("Audio", vec![
            MenuView::Test(TestViewComponent::new("Item4")),
            MenuView::Test(TestViewComponent::new("Item5")),
            MenuView::Test(TestViewComponent::new("Item6")),
        ]);
        let network = group("Network", vec![
            MenuView::Test(TestViewComponent::new("Item7")),
            MenuView::Test(TestViewComponent::new("Item8")),
            MenuView::Test(TestViewComponent::new("Item9")),
        ]);
        let experiment = group("Experiment", vec![
            MenuView::Test(TestViewComponent::new("Item10")),
            MenuView::Test(TestViewComponent::new("Item11")),
            MenuView::Test(TestViewComponent::new("Item12")),
        ]);
        let h = Home {
            menu_list: vec![system, audio, network, experiment],
            menu_state: SelectionState::new(),
            button_state: ButtonState::Selected,
            active: false,
        };
        assert(h@.groups[0].components.len() == 3);
        assert(h@.groups[1].components.len() == 3);
        assert(h@.groups[2].components.len() == 3);
        assert(h@.groups[3].components.len() == 3);
        h
    }

    /// Stores the selection that rendering left in group `g` (rendering clamps an index past
    /// the end to the last view).
    pub fn set_group_selection(&mut self, g: usize, state: SelectionState)
        requires
            g < old(self)@.groups.len(),
            (state.selected is Some) == (old(self)@.groups[g as int].state.selected is Some),
        ensures
            final(self)@ == old(self)@.set_group_state(g as int, state),
            old(self)@.wf() ==> final(self)@.wf(),
    {
        self.menu_list[g].state = state;
        assert(self@.groups =~= old(self)@.set_group_state(g as int, state).groups);
    }

    /// The view selected in the menu, as (group, index), when a group is selected.
    pub fn selected(&self) -> (r: Option<(usize, usize)>)
        requires
            self@.wf(),
        ensures
            r == match self.menu_state.selected {
                Some(g) => match self@.groups[g as int].state.selected {
                    Some(i) => Some((g, i)),
                    None => None,
                },
                None => None,
            },
    {
        match self.menu_state.selected {
            Some(g) => match self.menu_list[g].state.selected {
                Some(i) => Some((g, i)),
                None => None,
            },
            None => None,
        }
    }

    /// What the home screen shows.
    pub fn screen(&self) -> (s: HomeScreen)
        requires
            self@.wf(),
            heights_fit(self@),
        ensures
            s.menu_focused == !self.active,
            s.groups@.len() == self@.groups.len(),
            forall|g: int| 0 <= g < self@.groups.len() ==> #[trigger] shows_group(s.groups@[g], self@.groups[g]),
            s.exit_button == self.button_state,
            s.selected == match self.menu_state.selected {
                Some(g) => match self@.groups[g as int].state.selected {
                    Some(i) => Some((g, i)),
                    None => None,
                },
                None => None,
            },
    {
        let mut groups: Vec<GroupScreen> = Vec::new();
        let mut g: usize = 0;
        while g < self.menu_list.len()
            invariant
                self@.wf(),
                heights_fit(self@),
                g <= self.menu_list@.len(),
                groups@.len() == g,
                forall|k: int| 0 <= k < g ==> #[trigger] shows_group(groups@[k], self@.groups[k]),
            decreases self.menu_list@.len() - g,
        {
            let menu = &self.menu_list[g];
            let mut items: Vec<String> = Vec::new();
            let mut i: usize = 0;
            while i < menu.component.len()
                invariant
                    menu == self.menu_list@[g as int],
                    i <= menu.component@.len(),
                    items@.len() == i,
                    forall|k: int| 0 <= k < i ==> #[trigger] items@[k]@ == " "@ + menu@.components[k].title(),
                decreases menu.component@.len() - i,
            {
                items.push(concat2(" ", menu.component[i].title()));
                i = i + 1;
            }
            assert(self@.groups[g as int] == menu@);
            assert((self@.groups[g as int].components.len() as u16) + 1 <= u16::MAX);
            let height = (menu.component.len() as u16) + 1;
            groups.push(GroupScreen {
                title: concat2("─", menu.name.as_str()),
                items,
                height,
                state: menu.state,
            });
            g = g + 1;
        }
        HomeScreen {
            menu_focused: !self.active,
            groups,
            exit_button: self.button_state,
            selected: self.selected(),
        }
    }

    /// Where the parts of the home screen go in `area`: three rows (one line, the rest, two
    /// lines); the middle one split one to five between menu and view area; the menu's inside
    /// split by `menu_constraints`, its first row split between the header and a seven-cell
    /// Exit button; the view area's inside split into a two-line title and the rest.
    pub fn layout(&self, area: Rect) -> (l: HomeLayout)
        requires
            self@.wf(),
            heights_fit(self@),
        ensures
            ({
                let rows = layout_areas(area, true,
                    seq![Constraint::Length(1), Constraint::Fill(0), Constraint::Length(2)]);
                let cols = layout_areas(rows[1], false, seq![Constraint::Fill(1), Constraint::Fill(5)]);
                let chunks = layout_areas(bordered_inner(cols[0]), true, menu_constraints(self@));
                let top = layout_areas(chunks[0], false, seq![Constraint::Fill(0), Constraint::Length(7)]);
                let conf = layout_areas(bordered_inner(cols[1]), true,
                    seq![Constraint::Length(2), Constraint::Fill(0)]);
                &&& l.header == rows[0]
                &&& l.footer == rows[2]
                &&& l.menu == cols[0]
                &&& l.config == cols[1]
                &&& l.menu_header == top[0]
                &&& l.exit_button == top[1]
                &&& l.groups@ == chunks.subrange(1, chunks.len() - 1)
                &&& l.menu_bottom == chunks.last()
                &&& l.config_header == conf[0]
                &&& l.config_main == conf[1]
            }),
    {
        let (header, main, footer) = split3(area, true, Constraint::Length(1), Constraint::Fill(0),
            Constraint::Length(2));
        let (menu, config) = split2(main, false, Constraint::Fill(1), Constraint::Fill(5));
        let menu_inner = block_bordered_inner(menu);
        let config_inner = block_bordered_inner(config);
        let mut cs: Vec<Constraint> = Vec::new();
        cs.push(Constraint::Length(1));
        let mut g: usize = 0;
        while g < self.menu_list.len()
            invariant
                self@.wf(),
                heights_fit(self@),
                g <= self.menu_list@.len(),
                cs@ =~= seq![Constraint::Length(1)] + Seq::new(g as nat, |k: int|
                    Constraint::Length(((self@.groups[k].components.len() as u16) + 1) as u16)),
            decreases self.menu_list@.len() - g,
        {
            assert(self@.groups[g as int].components.len() == self.menu_list@[g as int].component@.len());
            assert((self@.groups[g as int].components.len() as u16) + 1 <= u16::MAX);
            cs.push(Constraint::Length((self.menu_list[g].component.len() as u16) + 1));
            g = g + 1;
        }
        cs.push(Constraint::Length(1));
        assert(cs@ =~= menu_constraints(self@));
        let chunks = split(menu_inner, true, &cs);
        let (menu_header, exit_button) = split2(chunks[0], false, Constraint::Fill(0), Constraint::Length(7));
        let mut groups: Vec<Rect> = Vec::new();
        let mut k: usize = 1;
        let n = chunks.len();
        while k + 1 < n
            invariant
                n == chunks@.len(),
                n >= 2,
                1 <= k <= n - 1,
                groups@ =~= chunks@.subrange(1, k as int),
            decreases n - k,
        {
            groups.push(chunks[k]);
            k = k + 1;
        }
        let (config_header, config_main) = split2(config_inner, true, Constraint::Length(2), Constraint::Fill(0));
        HomeLayout {
            header,
            menu,
            config,
            footer,
            menu_header,
            exit_button,
            groups,
            menu_bottom: chunks[n - 1],
            config_header,
            config_main,
        }
    }

    fn reset_select(&mut self)
        ensures
            final(self)@ == old(self)@.after_reset(),
    {
        let ghost old_list = self.menu_list@;
        self.button_state = ButtonState::Selected;
        self.menu_state.select(None);
        let mut i: usize = 0;
        while i < self.menu_list.len()
            invariant
                self.menu_list@.len() == old_list.len(),
                i <= old_list.len(),
                self.button_state == ButtonState::Selected,
                self.menu_state == old(self).menu_state.spec_select(None),
                self.active == old(self).active,
                forall|j: int| 0 <= j < i ==> #[trigger] self.menu_list@[j] == (MenuGroup {
                    state: old_list[j].state.spec_select(None),
                    ..old_list[j]
                }),
                forall|j: int| i <= j < old_list.len() ==> #[trigger] self.menu_list@[j] == old_list[j],
            decreases old_list.len() - i,
        {
            self.menu_list[i].state.select(None);
            i = i + 1;
        }
        assert(self@.groups =~= old(self)@.after_reset().groups);
    }

    fn select_previous(&mut self)
        requires
            old(self)@.wf(),
        ensures
            final(self)@ == old(self)@.after_previous(),
    {
        match self.menu_state.selected {
            Some(idx) => {
                let pos = match self.menu_list[idx].state.selected {
                    Some(i) => i,
                    None => 0,
                };
                if pos > 0 {
                    self.menu_list[idx].state.select_previous();
                    assert(self@.groups =~= old(self)@.after_previous().groups);
                    return;
                }
                if idx > 0 {
                    self.menu_list[idx].state.select(None);
                    self.menu_state.select_previous();
                    let prev_idx = idx - 1;
                    self.menu_list[prev_idx].state.select_last();
                    assert(self@.groups =~= old(self)@.after_previous().groups);
                } else {
                    self.reset_select();
                }
            },
            None => {},
        }
    }

    fn select_next(&mut self)
        requires
            old(self)@.wf(),
        ensures
            final(self)@ == old(self)@.after_next(),
    {
        match self.menu_state.selected {
            Some(current_idx) => {
                let menu_len = self.menu_list.len();
                let item_count = self.menu_list[current_idx].component.len();
                assert(old(self)@.groups[current_idx as int].components.len() == item_count);
                let pos = match self.menu_list[current_idx].state.selected {
                    Some(i) => i,
                    None => 0,
                };
                if pos < item_count - 1 {
                    self.menu_list[current_idx].state.select_next();
                    assert(self@.groups =~= old(self)@.after_next().groups);
                    return;
                }
                if current_idx < menu_len - 1 {
                    self.menu_list[current_idx].state.select(None);
                    self.menu_state.select_next();
                    let next_idx = current_idx + 1;
                    self.menu_list[next_idx].state.select_first();
                    assert(self@.groups =~= old(self)@.after_next().groups);
                } else {
                }
            },
            None => {
                self.menu_state.select_first();
                self.menu_list[0].state.select_first();
                self.button_state = ButtonState::Normal;
                assert(self@.groups =~= old(self)@.after_next().groups);
            },
        }
    }

    /// Reacts to a key as `HomeModel::after_key` says.
    pub fn handle_key_event(&mut self, key: KeyEvent) -> (r: Option<Action>)
        requires
            old(self)@.wf(),
            old(self)@.dispatch_ready(),
        ensures
            (final(self)@, r) == old(self)@.after_key(key),
    {
        if key.kind != KeyEventKind::Press {
            return None;
        }
        if self.active {
            if let Some(selected_group) = self.menu_state.selected {
                if let Some(selected_item) = self.menu_list[selected_group].state.selected {
                    let r = self.menu_list[selected_group].component[selected_item].handle_key_events(key);
                    proof {
                        let g = selected_group as int;
                        let i = selected_item as int;
                        assert(self.menu_list@[g].component@.map_values(|c: MenuView| c@)
                            =~= old(self)@.groups[g].components.update(i, self.menu_list@[g].component@[i]@));
                        assert(self@.groups =~= old(self)@.after_key(key).0.groups);
                    }
                    return r;
                }
            }
        }
        match key.code {
            KeyCode::Up => self.select_previous(),
            KeyCode::Down => self.select_next(),
            KeyCode::Enter => {
                if let Some(selected_group) = self.menu_state.selected {
                    if self.menu_list[selected_group].state.selected.is_some() {
                        self.active = true;
                        return None;
                    }
                }
                if self.button_state == ButtonState::Selected {
                    return Some(Action::Quit);
                }
            },
            KeyCode::Esc => self.button_state = ButtonState::Normal,
            _ => {},
        }
        None
    }

    /// Reacts to an action as `HomeModel::after_action` says; it never answers.
    pub fn update(&mut self, action: Action) -> (r: Option<Action>)
        ensures
            final(self)@ == old(self)@.after_action(action),
            r is None,
    {
        match action {
            Action::Tick => {},
            Action::Render => {},
            Action::BackToMenu => {
                self.active = false;
            },
            _ => {},
        }
        None
    }
}

/// Every key keeps the menu well formed.
pub proof fn lemma_keys_keep_menu_well_formed(m: HomeModel, key: KeyEvent)
    requires
        m.wf(),
        m.dispatch_ready(),
    ensures
        m.after_key(key).0.wf(),
{
    let r = m.after_key(key).0;
    if key.kind == KeyEventKind::Press && m.active && m.menu_state.selected is Some
        && m.groups[m.menu_state.selected->0 as int].state.selected is Some {
        let g = m.menu_state.selected->0 as int;
        assert forall|j: int| 0 <= j < r.groups.len() implies #[trigger] r.groups[j].components.len() > 0 by {
            assert(m.groups[j].components.len() > 0);
        }
        assert forall|j: int| 0 <= j < r.groups.len() && j != g implies #[trigger] r.groups[j].state.selected is None by {
            assert(m.groups[j].state.selected is None);
        }
    } else if key.kind == KeyEventKind::Press && key.code == KeyCode::Up {
        assert(r == m.after_previous());
        assert forall|j: int| 0 <= j < r.groups.len() implies #[trigger] r.groups[j].components.len() > 0 by {
            assert(m.groups[j].components.len() > 0);
        }
        match m.menu_state.selected {
            Some(s) => {
                assert forall|j: int| 0 <= j < r.groups.len() && Some(j as usize) != r.menu_state.selected
                    implies #[trigger] r.groups[j].state.selected is None by {
                    if j != s {
                        assert(m.groups[j].state.selected is None);
                    }
                }
            },
            None => {},
        }
    } else if key.kind == KeyEventKind::Press && key.code == KeyCode::Down {
        assert(r == m.after_next());
        assert forall|j: int| 0 <= j < r.groups.len() implies #[trigger] r.groups[j].components.len() > 0 by {
            assert(m.groups[j].components.len() > 0);
        }
        match m.menu_state.selected {
            Some(s) => {
                let cur = m.groups[s as int];
                assert(cur.components.len() > 0);
                if selected_or_zero(cur.state) < cur.components.len() - 1 {
                    assert forall|j: int| 0 <= j < r.groups.len() && j != s
                        implies #[trigger] r.groups[j].state.selected is None by {
                        assert(m.groups[j].state.selected is None);
                    }
                } else if s < m.groups.len() - 1 {
                    assert(r.menu_state.selected == Some((s + 1) as usize));
                    assert forall|j: int| 0 <= j < r.groups.len() && j != s + 1
                        implies #[trigger] r.groups[j].state.selected is None by {
                        if j != s {
                            assert(m.groups[j].state.selected is None);
                        }
                    }
                } else {
                    assert forall|j: int| 0 <= j < r.groups.len() && j != s
                        implies #[trigger] r.groups[j].state.selected is None by {
                        assert(m.groups[j].state.selected is None);
                    }
                }
            },
            None => {
                assert forall|j: int| 0 <= j < r.groups.len() && j != 0
                    implies #[trigger] r.groups[j].state.selected is None by {
                    assert(m.groups[j].state.selected is None);
                }
            },
        }
    }
}

/// Moving down within a group and back up returns to the same view.
pub proof fn lemma_down_then_up_within_group(m: HomeModel, g: usize, i: usize)
    requires
        m.wf(),
        m.menu_state.selected == Some(g),
        m.groups[g as int].state.selected == Some(i),
        i + 1 < m.groups[g as int].components.len() <= usize::MAX,
    ensures
        m.after_next().after_previous() == m,
{
    let n = m.after_next();
    let p = n.after_previous();
    assert(p.groups =~= m.groups);
}

/// Moving up within a group and back down returns to the same view.
pub proof fn lemma_up_then_down_within_group(m: HomeModel, g: usize, i: usize)
    requires
        m.wf(),
        m.menu_state.selected == Some(g),
        m.groups[g as int].state.selected == Some(i),
        0 < i < m.groups[g as int].components.len() <= usize::MAX,
    ensures
        m.after_previous().after_next() == m,
{
    let n = m.after_previous();
    let p = n.after_next();
    assert(p.groups =~= m.groups);
}

/// The selection a list of `len` items shows once drawn: an index past the end stands for
/// the last item.
pub open spec fn as_rendered(selected: Option<usize>, len: nat) -> Option<usize> {
    match selected {
        Some(i) => if i < len { Some(i) } else { Some((len - 1) as usize) },
        None => None,
    }
}

/// Moving down and back up returns to where the menu was, across groups too: from the Exit
/// button, and from any view but the last view of the last group.  The menu and Exit button
/// selections come back exactly, and every group shows the same selection once drawn (a
/// group re-entered from below selects its last view); only the scroll offsets of the groups
/// passed through may go back to the top.
pub proof fn lemma_down_then_up_returns(m: HomeModel)
    requires
        m.wf(),
        forall|g: int| 0 <= g < m.groups.len() ==> #[trigger] m.groups[g].components.len() <= usize::MAX,
        match m.menu_state.selected {
            None => m.button_state == ButtonState::Selected,
            Some(g) => match m.groups[g as int].state.selected {
                Some(i) => i + 1 < m.groups[g as int].components.len() || g + 1 < m.groups.len(),
                None => false,
            },
        },
    ensures
        ({
            let r = m.after_next().after_previous();
            &&& r.menu_state.selected == m.menu_state.selected
            &&& r.button_state == m.button_state
            &&& r.active == m.active
            &&& r.groups.len() == m.groups.len()
            &&& forall|k: int| 0 <= k < m.groups.len() ==> {
                &&& (#[trigger] r.groups[k]).name == m.groups[k].name
                &&& r.groups[k].components == m.groups[k].components
                &&& as_rendered(r.groups[k].state.selected, m.groups[k].components.len())
                    == as_rendered(m.groups[k].state.selected, m.groups[k].components.len())
            }
        }),
{
    let n = m.after_next();
    let r = n.after_previous();
    match m.menu_state.selected {
        None => {
            assert forall|k: int| 0 <= k < m.groups.len() implies {
                &&& (#[trigger] r.groups[k]).name == m.groups[k].name
                &&& r.groups[k].components == m.groups[k].components
                &&& as_rendered(r.groups[k].state.selected, m.groups[k].components.len())
                    == as_rendered(m.groups[k].state.selected, m.groups[k].components.len())
            } by {
                assert(m.groups[k].state.selected is None);
            }
        },
        Some(g) => {
            let i = m.groups[g as int].state.selected->0;
            if i + 1 < m.groups[g as int].components.len() {
                lemma_down_then_up_within_group(m, g, i);
            } else {
                assert forall|k: int| 0 <= k < m.groups.len() implies {
                    &&& (#[trigger] r.groups[k]).name == m.groups[k].name
                    &&& r.groups[k].components == m.groups[k].components
                    &&& as_rendered(r.groups[k].state.selected, m.groups[k].components.len())
                        == as_rendered(m.groups[k].state.selected, m.groups[k].components.len())
                } by {
                    if k != g && k != g + 1 {
                        assert(m.groups[k].state.selected is None);
                    }
                    if k == g + 1 {
                        assert(m.groups[k].state.selected is None);
                    }
                }
            }
        },
    }
}

/// Only going back to the menu takes the keys from the active view: every other action
/// (a tick, a render, ...) leaves the home screen exactly as it was, so an entered view keeps
/// the keys until it sends BackToMenu; BackToMenu changes nothing but that.
pub proof fn lemma_only_back_to_menu_deactivates(m: HomeModel, action: Action)
    ensures
        action != Action::BackToMenu ==> m.after_action(action) == m,
        action == Action::BackToMenu ==> !m.after_action(action).active
            && m.after_action(action) == (HomeModel { active: m.after_action(action).active, ..m }),
        m.after_action(action).active == (m.active && action != Action::BackToMenu),
{
}

/// Every action keeps the menu well formed.
pub proof fn lemma_actions_keep_menu_well_formed(m: HomeModel, action: Action)
    requires
        m.wf(),
    ensures
        m.after_action(action).wf(),
{
}

} // verus!
