use vstd::prelude::*;

use crate::keys::KeyCode;

use super::event::{EditorEvent, EventSource};
use super::model::{copy_key, copy_target, EditorItem, EditorTargetKey};

verus! {

/// The key of an item, as text.
pub open spec fn key_of(item: EditorItem) -> Seq<char> {
    item.target.key.0@
}

/// `i` is the first position of an item whose key is `key`.
pub open spec fn is_first_key(items: Seq<EditorItem>, key: Seq<char>, i: int) -> bool {
    &&& 0 <= i < items.len()
    &&& key_of(items[i]) == key
    &&& forall|j: int| 0 <= j < i ==> key_of(#[trigger] items[j]) != key
}

/// Some item has the key `key`.
pub open spec fn has_key(items: Seq<EditorItem>, key: Seq<char>) -> bool {
    exists|i: int| 0 <= i < items.len() && key_of(#[trigger] items[i]) == key
}

/// The abstract state of the objects panel.
#[verifier::ext_equal]
pub struct HierarchyView {
    pub open: bool,
    pub selected: Option<Seq<char>>,
    pub selected_index: usize,
    pub scroll: usize,
}

impl HierarchyView {
    /// The state after the panel catches up with a new list of items: the
    /// selection follows its key if the key is still there, otherwise it
    /// stays at its row (or the last row) and takes that row's key.
    pub open spec fn reconcile(self, items: Seq<EditorItem>) -> Self {
        if items.len() == 0 {
            HierarchyView { selected: None, selected_index: 0, scroll: 0, ..self }
        } else if self.selected is Some && has_key(items, self.selected->0) {
            HierarchyView {
                selected_index: (choose|i: int| is_first_key(items, self.selected->0, i)) as usize,
                ..self
            }
        } else {
            let index = if self.selected_index < items.len() {
                self.selected_index as int
            } else {
                items.len() - 1
            };
            HierarchyView {
                selected_index: index as usize,
                selected: Some(key_of(items[index])),
                ..self
            }
        }
    }

    /// The state after moving the selection one row up, wrapping to the
    /// last row.
    pub open spec fn move_up(self, items: Seq<EditorItem>) -> Self {
        if items.len() == 0 {
            self.reconcile(items)
        } else {
            let index = if self.selected_index == 0 {
                items.len() - 1
            } else {
                self.selected_index - 1
            };
            HierarchyView {
                selected_index: index as usize,
                selected: Some(key_of(items[index])),
                ..self
            }
        }
    }

    /// The state after moving the selection one row down, wrapping to the
    /// first row.
    pub open spec fn move_down(self, items: Seq<EditorItem>) -> Self {
        if items.len() == 0 {
            self.reconcile(items)
        } else {
            let index = (self.selected_index + 1) % (items.len() as int);
            HierarchyView {
                selected_index: index as usize,
                selected: Some(key_of(items[index])),
                ..self
            }
        }
    }

    /// The selection points at a row whose key it holds.
    pub open spec fn selection_matches(self, items: Seq<EditorItem>) -> bool {
        &&& self.selected_index < items.len()
        &&& self.selected == Some(key_of(items[self.selected_index as int]))
    }
}

/// The objects panel: whether it is open, the selected row and the key of
/// the selected item.
#[derive(Clone, Debug)]
pub struct ObjectHierarchyState {
    open: bool,
    selected: Option<EditorTargetKey>,
    selected_index: usize,
    scroll: usize,
}

impl View for ObjectHierarchyState {
    type V = HierarchyView;

    closed spec fn view(&self) -> HierarchyView {
        HierarchyView {
            open: self.open,
            selected: match self.selected {
                Some(key) => Some(key.0@),
                None => None,
            },
            selected_index: self.selected_index,
            scroll: self.scroll,
        }
    }
}

/// The first position of an item whose key is `key`.
fn position_of_key(items: &[EditorItem], key: &EditorTargetKey) -> (found: Option<usize>)
    ensures
        match found {
            Some(i) => is_first_key(items@, key.0@, i as int),
            None => !has_key(items@, key.0@),
        },
{
    let mut i: usize = 0;
    while i < items.len()
        invariant
            i <= items@.len(),
            forall|j: int| 0 <= j < i ==> key_of(#[trigger] items@[j]) != key.0@,
        decreases items@.len() - i,
    {
        if items[i].target.key.0 == key.0 {
            return Some(i);
        }
        i = i + 1;
    }
    None
}

/// The first position of a key is unique.
proof fn lemma_first_key(items: Seq<EditorItem>, key: Seq<char>, i: int)
    requires
        is_first_key(items, key, i),
    ensures
        (choose|k: int| is_first_key(items, key, k)) == i,
{
    let k = choose|k: int| is_first_key(items, key, k);
    assert(is_first_key(items, key, k));
    if k < i {
        assert(key_of(items[k]) != key);
    } else if i < k {
        assert(key_of(items[i]) != key);
    }
}

/// The event that reports the selected item, if there is one.
pub open spec fn selection_event<A>(view: HierarchyView, items: Seq<EditorItem>) -> Option<
    EditorEvent<A>,
> {
    if view.selected_index < items.len() {
        Some(
            EditorEvent::SelectionChanged {
                target: items[view.selected_index as int].target,
                source: EventSource::ObjectHierarchy,
            },
        )
    } else {
        None
    }
}

impl Default for ObjectHierarchyState {
    fn default() -> (state: Self)
        ensures
            state@ == (HierarchyView { open: false, selected: None, selected_index: 0, scroll: 0 }),
    {
        Self { open: false, selected: None, selected_index: 0, scroll: 0 }
    }
}

impl ObjectHierarchyState {
    pub fn is_open(&self) -> (open: bool)
        ensures
            open == self@.open,
    {
        self.open
    }

    pub fn selected_index(&self) -> (index: usize)
        ensures
            index == self@.selected_index,
    {
        self.selected_index
    }

    pub fn open(&mut self, items: &[EditorItem])
        ensures
            final(self)@ == (HierarchyView { open: true, ..old(self)@ }).reconcile(items@),
    {
        self.open = true;
        self.reconcile(items);
    }

    pub fn close(&mut self)
        ensures
            final(self)@ == (HierarchyView { open: false, ..old(self)@ }),
    {
        self.open = false;
    }

    pub fn selected_item<'a>(&self, items: &'a [EditorItem]) -> (item: Option<&'a EditorItem>)
        ensures
            item == (if self@.selected_index < items@.len() {
                Some(&items@[self@.selected_index as int])
            } else {
                None
            }),
    {
        if self.selected_index < items.len() {
            Some(&items[self.selected_index])
        } else {
            None
        }
    }

    pub fn replace_items(&mut self, items: &[EditorItem])
        ensures
            final(self)@ == old(self)@.reconcile(items@),
    {
        self.reconcile(items);
    }

    /// Handles a key while the panel has the focus: Esc closes it, Up/k and
    /// Down/j move the selection and report it, Enter asks to inspect the
    /// selected item.
    pub fn handle_key<A>(&mut self, code: KeyCode, items: &[EditorItem]) -> (event: Option<
        EditorEvent<A>,
    >)
        requires
            (code == KeyCode::Up || code == KeyCode::Char('k') || code == KeyCode::Char('K'))
                ==> items@.len() == 0 || old(self)@.selected_index <= items@.len(),
        ensures
            match code {
                KeyCode::Esc => final(self)@ == (HierarchyView { open: false, ..old(self)@ })
                    && event == Some(EditorEvent::<A>::CloseRequested),
                KeyCode::Up | KeyCode::Char('k') | KeyCode::Char('K') => final(self)@
                    == old(self)@.move_up(items@) && event == selection_event::<A>(
                    final(self)@,
                    items@,
                ),
                KeyCode::Down | KeyCode::Char('j') | KeyCode::Char('J') => final(self)@
                    == old(self)@.move_down(items@) && event == selection_event::<A>(
                    final(self)@,
                    items@,
                ),
                KeyCode::Enter => final(self)@ == old(self)@ && event == (if old(
                    self,
                )@.selected_index < items@.len() {
                    Some(
                        EditorEvent::<A>::InspectRequested {
                            target: items@[old(self)@.selected_index as int].target,
                            source: EventSource::ObjectHierarchy,
                        },
                    )
                } else {
                    None
                }),
                _ => final(self)@ == old(self)@ && event is None,
            },
    {
        match code {
            KeyCode::Esc => {
                self.close();
                Some(EditorEvent::CloseRequested)
            },
            KeyCode::Up | KeyCode::Char('k') | KeyCode::Char('K') => {
                self.move_up(items);
                self.selection_event(items)
            },
            KeyCode::Down | KeyCode::Char('j') | KeyCode::Char('J') => {
                self.move_down(items);
                self.selection_event(items)
            },
            KeyCode::Enter => match self.selected_item(items) {
                Some(item) => Some(
                    EditorEvent::InspectRequested {
                        target: copy_target(&item.target),
                        source: EventSource::ObjectHierarchy,
                    },
                ),
                None => None,
            },
            _ => None,
        }
    }

    pub(crate) fn reconcile(&mut self, items: &[EditorItem])
        ensures
            final(self)@ == old(self)@.reconcile(items@),
    {
        if items.len() == 0 {
            self.selected = None;
            self.selected_index = 0;
            self.scroll = 0;
            return;
        }

        if let Some(selected) = &self.selected {
            if let Some(index) = position_of_key(items, selected) {
                proof {
                    lemma_first_key(items@, selected.0@, index as int);
                }
                self.selected_index = index;
                return;
            }
        }

        if self.selected_index >= items.len() {
            self.selected_index = items.len() - 1;
        }
        self.selected = Some(copy_key(&items[self.selected_index].target.key));
    }

    pub(crate) fn move_up(&mut self, items: &[EditorItem])
        requires
            items@.len() == 0 || old(self)@.selected_index <= items@.len(),
        ensures
            final(self)@ == old(self)@.move_up(items@),
    {
        if items.len() == 0 {
            self.reconcile(items);
            return;
        }
        self.selected_index = if self.selected_index == 0 {
            items.len() - 1
        } else {
            self.selected_index - 1
        };
        self.selected = Some(copy_key(&items[self.selected_index].target.key));
    }

    pub(crate) fn move_down(&mut self, items: &[EditorItem])
        ensures
            final(self)@ == old(self)@.move_down(items@),
    {
        if items.len() == 0 {
            self.reconcile(items);
            return;
        }
        self.selected_index = ((self.selected_index as u128 + 1) % (items.len() as u128)) as usize;
        self.selected = Some(copy_key(&items[self.selected_index].target.key));
    }

    fn selection_event<A>(&self, items: &[EditorItem]) -> (event: Option<EditorEvent<A>>)
        ensures
            event == selection_event::<A>(self@, items@),
    {
        match self.selected_item(items) {
            Some(item) => Some(
                EditorEvent::SelectionChanged {
                    target: copy_target(&item.target),
                    source: EventSource::ObjectHierarchy,
                },
            ),
            None => None,
        }
    }
}

/// After the panel catches up with a non-empty list, the selection points at
/// a row and holds that row's key.
pub proof fn law_reconcile_selects_a_row(view: HierarchyView, items: Seq<EditorItem>)
    requires
        items.len() > 0,
        items.len() <= usize::MAX,
    ensures
        view.reconcile(items).selection_matches(items),
{
    if view.selected is Some && has_key(items, view.selected->0) {
        let key = view.selected->0;
        let i = choose|i: int| 0 <= i < items.len() && key_of(#[trigger] items[i]) == key;
        lemma_first_key_below(items, key, i);
    }
}

/// When the panel catches up with a new list that still holds the selected
/// key, the selection follows that key to its new row.
pub proof fn law_refresh_keeps_selected_key(view: HierarchyView, items: Seq<EditorItem>)
    requires
        view.selected is Some,
        has_key(items, view.selected->0),
        items.len() <= usize::MAX,
    ensures
        view.reconcile(items).selected == view.selected,
        key_of(items[view.reconcile(items).selected_index as int]) == view.selected->0,
{
    let key = view.selected->0;
    let i = choose|i: int| 0 <= i < items.len() && key_of(#[trigger] items[i]) == key;
    lemma_first_key_below(items, key, i);
}

/// When `key` is at `i`, a first position of `key` exists.
proof fn lemma_first_key_below(items: Seq<EditorItem>, key: Seq<char>, i: int)
    requires
        0 <= i < items.len(),
        key_of(items[i]) == key,
    ensures
        is_first_key(items, key, choose|k: int| is_first_key(items, key, k)),
    decreases i,
{
    if forall|j: int| 0 <= j < i ==> key_of(#[trigger] items[j]) != key {
        assert(is_first_key(items, key, i));
    } else {
        let j = choose|j: int| 0 <= j < i && !(key_of(#[trigger] items[j]) != key);
        lemma_first_key_below(items, key, j);
    }
}

/// Moving the selection down and then up returns it to its row, whenever it
/// points at a row.
pub proof fn law_move_down_then_up(view: HierarchyView, items: Seq<EditorItem>)
    requires
        view.selection_matches(items),
        items.len() <= usize::MAX,
    ensures
        view.move_down(items).move_up(items) == view,
{
    let len = items.len() as int;
    let s = view.selected_index as int;
    if s + 1 == len {
        vstd::arithmetic::div_mod::lemma_mod_self_0(len);
    } else {
        vstd::arithmetic::div_mod::lemma_small_mod((s + 1) as nat, len as nat);
    }
    assert(view.move_down(items).move_up(items) =~= view);
}

} // verus!
