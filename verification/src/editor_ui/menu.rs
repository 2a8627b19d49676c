use vstd::prelude::*;
use vstd::string::StrSliceExecFns;

use crate::keys::KeyCode;

use super::event::EditorEvent;

verus! {

/// The identity of a menu of the menu bar.
#[derive(Clone, Debug, PartialEq, Eq, Hash)]
pub struct MenuId(pub String);

impl MenuId {
    pub fn new(value: &str) -> (id: Self)
        ensures
            id.0@ == value@,
    {
        Self(value.to_owned())
    }
}

/// A row of a menu popup.
#[derive(Clone, Debug, PartialEq, Eq)]
pub enum MenuEntry {
    Action { id: String, label: String, enabled: bool, shortcut: Option<String> },
    Separator,
}

/// A menu of the menu bar and its rows.
#[derive(Clone, Debug, PartialEq, Eq)]
pub struct MenuDefinition {
    pub id: MenuId,
    pub label: String,
    pub hotkey: Option<char>,
    pub entries: Vec<MenuEntry>,
}

/// The abstract state of the menu bar.
pub struct MenuBarView {
    pub focused: bool,
    pub selected_menu: usize,
}

/// Whether the menu bar has the keyboard focus, and which menu is selected.
#[derive(Clone, Debug)]
pub struct MenuBarState {
    focused: bool,
    selected_menu: usize,
}

impl View for MenuBarState {
    type V = MenuBarView;

    closed spec fn view(&self) -> MenuBarView {
        MenuBarView { focused: self.focused, selected_menu: self.selected_menu }
    }
}

/// The position of the first definition whose id is `id` (meaningful when
/// one has it).
pub open spec fn first_menu_with_id(definitions: Seq<MenuDefinition>, id: Seq<char>) -> int {
    choose|i: int|
        0 <= i < definitions.len() && definitions[i].id.0@ == id && forall|j: int|
            0 <= j < i ==> #[trigger] definitions[j].id.0@ != id
}

/// Some definition has the id `id`.
pub open spec fn has_menu_with_id(definitions: Seq<MenuDefinition>, id: Seq<char>) -> bool {
    exists|i: int| 0 <= i < definitions.len() && #[trigger] definitions[i].id.0@ == id
}

impl Default for MenuBarState {
    fn default() -> (state: Self)
        ensures
            !state@.focused,
            state@.selected_menu == 0,
    {
        Self { focused: false, selected_menu: 0 }
    }
}

impl MenuBarState {
    pub fn focused(&self) -> (focused: bool)
        ensures
            focused == self@.focused,
    {
        self.focused
    }

    pub fn selected_menu(&self) -> (index: usize)
        ensures
            index == self@.selected_menu,
    {
        self.selected_menu
    }

    pub fn focus(&mut self)
        ensures
            final(self)@.focused,
            final(self)@.selected_menu == old(self)@.selected_menu,
    {
        self.focused = true;
    }

    pub fn with_selected(focused: bool, selected_menu: usize) -> (state: Self)
        ensures
            state@.focused == focused,
            state@.selected_menu == selected_menu,
    {
        Self { focused, selected_menu }
    }

    /// Selects and focuses the first menu whose id is `id`; returns whether
    /// there is one.
    pub fn focus_menu(&mut self, id: &str, definitions: &[MenuDefinition]) -> (found: bool)
        ensures
            found == has_menu_with_id(definitions@, id@),
            found ==> final(self)@.focused && final(self)@.selected_menu == first_menu_with_id(
                definitions@,
                id@,
            ),
            !found ==> final(self)@ == old(self)@,
    {
        let wanted = id.to_owned();
        let mut index: usize = 0;
        while index < definitions.len()
            invariant
                wanted@ == id@,
                self@ == old(self)@,
                index <= definitions@.len(),
                forall|j: int| 0 <= j < index ==> #[trigger] definitions@[j].id.0@ != id@,
            decreases definitions@.len() - index,
        {
            if definitions[index].id.0 == wanted {
                assert(definitions@[index as int].id.0@ == id@);
                self.selected_menu = index;
                self.focus();
                proof {
                    let k = first_menu_with_id(definitions@, id@);
                    assert(0 <= k < definitions@.len() && definitions@[k].id.0@ == id@ && forall|
                        j: int,
                    | 0 <= j < k ==> #[trigger] definitions@[j].id.0@ != id@);
                    if k < index {
                        assert(definitions@[k].id.0@ != id@);
                    } else if index < k {
                        assert(definitions@[index as int].id.0@ != id@);
                    }
                }
                return true;
            }
            index = index + 1;
        }
        false
    }

    pub fn blur(&mut self)
        ensures
            !final(self)@.focused,
            final(self)@.selected_menu == old(self)@.selected_menu,
    {
        self.focused = false;
    }

    /// Handles a key while the menu bar has the focus: Esc or Tab give the
    /// focus up, Left and Right move the selection round the menus, and Enter
    /// opens the selected menu.
    pub fn handle_key<A>(&mut self, code: KeyCode, definitions: &[MenuDefinition]) -> (event:
        Option<EditorEvent<A>>)
        requires
            definitions@.len() > 0 && code == KeyCode::Enter ==> old(self)@.selected_menu
                < definitions@.len(),
            definitions@.len() > 0 && code == KeyCode::Right ==> old(self)@.selected_menu
                < usize::MAX,
        ensures
            definitions@.len() == 0 ==> final(self)@ == (MenuBarView { selected_menu: 0, ..old(self)@ })
                && event is None,
            definitions@.len() > 0 ==> match code {
                KeyCode::Esc | KeyCode::Tab => !final(self)@.focused && final(self)@.selected_menu
                    == old(self)@.selected_menu && event is None,
                KeyCode::Left => final(self)@.focused == old(self)@.focused
                    && final(self)@.selected_menu == (if old(self)@.selected_menu == 0 {
                    definitions@.len() - 1
                } else {
                    old(self)@.selected_menu - 1
                }) && event is None,
                KeyCode::Right => final(self)@.focused == old(self)@.focused
                    && final(self)@.selected_menu == (old(self)@.selected_menu + 1) % (
                definitions@.len() as int) && event is None,
                KeyCode::Enter => final(self)@ == old(self)@ && event == Some(
                    EditorEvent::<A>::MenuOpened {
                        menu_id: definitions@[old(self)@.selected_menu as int].id,
                    },
                ),
                _ => final(self)@ == old(self)@ && event is None,
            },
            definitions@.len() > 0 && old(self)@.selected_menu < definitions@.len()
                ==> final(self)@.selected_menu < definitions@.len(),
    {
        if definitions.len() == 0 {
            self.selected_menu = 0;
            return None;
        }

        match code {
            KeyCode::Esc | KeyCode::Tab => self.blur(),
            KeyCode::Left => {
                self.selected_menu = if self.selected_menu == 0 {
                    definitions.len() - 1
                } else {
                    self.selected_menu - 1
                };
            },
            KeyCode::Right => {
                self.selected_menu = (self.selected_menu + 1) % definitions.len();
            },
            KeyCode::Enter => {
                let definition = &definitions[self.selected_menu];
                return Some(EditorEvent::MenuOpened { menu_id: MenuId(definition.id.0.clone()) });
            },
            _ => return None,
        }

        None
    }
}

/// On a menu bar of `count` menus, moving left and then right, or right and
/// then left, comes back to the menu it started from.
pub proof fn law_menu_bar_moves_undo(selected: int, count: int)
    requires
        0 <= selected < count,
    ensures
        ({
            let left = if selected == 0 {
                count - 1
            } else {
                selected - 1
            };
            (left + 1) % count == selected
        }),
        ({
            let right = (selected + 1) % count;
            (if right == 0 {
                count - 1
            } else {
                right - 1
            }) == selected
        }),
{
    if selected + 1 < count {
        vstd::arithmetic::div_mod::lemma_small_mod((selected + 1) as nat, count as nat);
    } else {
        vstd::arithmetic::div_mod::lemma_mod_self_0(count);
    }
    if selected == 0 {
        vstd::arithmetic::div_mod::lemma_mod_self_0(count);
    } else {
        vstd::arithmetic::div_mod::lemma_small_mod(selected as nat, count as nat);
    }
}

/// The number of action rows of a menu: every row but separators.
pub open spec fn action_count(entries: Seq<MenuEntry>) -> nat
    decreases entries.len(),
{
    if entries.len() == 0 {
        0
    } else {
        action_count(entries.drop_last()) + if entries.last() is Action {
            1nat
        } else {
            0nat
        }
    }
}

pub fn menu_action_count(definition: &MenuDefinition) -> (count: usize)
    ensures
        count == action_count(definition.entries@),
{
    let mut count: usize = 0;
    let mut index: usize = 0;
    while index < definition.entries.len()
        invariant
            index <= definition.entries@.len(),
            count == action_count(definition.entries@.take(index as int)),
            count <= index,
        decreases definition.entries@.len() - index,
    {
        assert(definition.entries@.take(index + 1).drop_last() =~= definition.entries@.take(
            index as int,
        ));
        if let MenuEntry::Action { .. } = &definition.entries[index] {
            count = count + 1;
        }
        index = index + 1;
    }
    assert(definition.entries@.take(index as int) =~= definition.entries@);
    count
}

/// The width of the status text in the header: its length in characters,
/// but no more than the header is wide.
pub fn header_status_width(area_width: u16, status: &str) -> (width: u16)
    ensures
        width == (if status@.len() < area_width {
            status@.len()
        } else {
            area_width as nat
        }),
{
    let length = status.unicode_len();
    if length < area_width as usize {
        length as u16
    } else {
        area_width
    }
}


/// The first definition whose id is `id`.
pub fn menu_definition<'a>(definitions: &'a [MenuDefinition], id: &str) -> (definition:
    &'a MenuDefinition)
    requires
        has_menu_with_id(definitions@, id@),
    ensures
        *definition == definitions@[first_menu_with_id(definitions@, id@)],
{
    let wanted = id.to_owned();
    let mut index: usize = 0;
    while index < definitions.len()
        invariant
            wanted@ == id@,
            index <= definitions@.len(),
            has_menu_with_id(definitions@, id@),
            forall|j: int| 0 <= j < index ==> #[trigger] definitions@[j].id.0@ != id@,
        decreases definitions@.len() - index,
    {
        if definitions[index].id.0 == wanted {
            proof {
                let k = first_menu_with_id(definitions@, id@);
                assert(definitions@[index as int].id.0@ == id@);
                assert(0 <= k < definitions@.len() && definitions@[k].id.0@ == id@ && forall|
                    j: int,
                | 0 <= j < k ==> #[trigger] definitions@[j].id.0@ != id@);
                if k < index {
                    assert(definitions@[k].id.0@ != id@);
                } else if index < k {
                    assert(definitions@[index as int].id.0@ != id@);
                }
            }
            return &definitions[index];
        }
        index = index + 1;
    }
    proof {
        let i = choose|i: int| 0 <= i < definitions@.len() && #[trigger] definitions@[i].id.0@ == id@;
        assert(definitions@[i].id.0@ != id@);
    }
    &definitions[0]
}

/// The action rows of a menu, as (id, label, enabled), top to bottom.
pub open spec fn action_rows(entries: Seq<MenuEntry>) -> Seq<(Seq<char>, Seq<char>, bool)>
    decreases entries.len(),
{
    if entries.len() == 0 {
        seq![]
    } else {
        let before = action_rows(entries.drop_last());
        match entries.last() {
            MenuEntry::Action { id, label, enabled, .. } => before.push((id@, label@, enabled)),
            MenuEntry::Separator => before,
        }
    }
}

/// The views of (id, label, enabled) rows.
pub open spec fn row_views(rows: Seq<(String, String, bool)>) -> Seq<(Seq<char>, Seq<char>, bool)> {
    rows.map_values(|row: (String, String, bool)| (row.0@, row.1@, row.2))
}

/// The action rows of the first menu whose id is `id`, as (id, label,
/// enabled), top to bottom.
pub fn menu_actions(definitions: &[MenuDefinition], id: &str) -> (actions: Vec<(String, String, bool)>)
    requires
        has_menu_with_id(definitions@, id@),
    ensures
        row_views(actions@) == action_rows(
            definitions@[first_menu_with_id(definitions@, id@)].entries@,
        ),
{
    let definition = menu_definition(definitions, id);
    let mut actions: Vec<(String, String, bool)> = Vec::new();
    let mut index: usize = 0;
    while index < definition.entries.len()
        invariant
            index <= definition.entries@.len(),
            row_views(actions@) == action_rows(definition.entries@.take(index as int)),
        decreases definition.entries@.len() - index,
    {
        assert(definition.entries@.take(index + 1).drop_last() =~= definition.entries@.take(
            index as int,
        ));
        match &definition.entries[index] {
            MenuEntry::Action { id, label, enabled, .. } => {
                actions.push((id.clone(), label.clone(), *enabled));
            },
            MenuEntry::Separator => {},
        }
        assert(row_views(actions@) =~= action_rows(definition.entries@.take(index + 1)));
        index = index + 1;
    }
    assert(definition.entries@.take(index as int) =~= definition.entries@);
    actions
}

} // verus!
