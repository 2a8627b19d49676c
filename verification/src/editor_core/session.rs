use vstd::prelude::*;

use vstd::pervasive::strictly_cloned;
use vstd::std_specs::cmp::PartialEqSpec;

use super::command::EditorCommand;

verus! {

/// `T` compares and clones like a plain value: `==` is mathematical equality
/// and a clone is the value itself.
pub open spec fn target_semantics<T: Clone + PartialEq>() -> bool {
    &&& T::obeys_eq_spec()
    &&& forall|a: T, b: T| #[trigger] a.eq_spec(&b) <==> (a == b)
    &&& forall|a: T, b: T| #[trigger] strictly_cloned(a, b) ==> a == b
}

/// One object the editor knows about: its target, its visibility if it has
/// one, and whether its transform gizmo is shown.
#[derive(Clone, Debug, PartialEq, Eq)]
pub struct EditorEntry<T> {
    pub target: T,
    pub visible: Option<bool>,
    pub gizmo_visible: bool,
}

impl<T> EditorEntry<T> {
    pub fn new(target: T, visible: Option<bool>) -> (entry: Self)
        ensures
            entry.target == target,
            entry.visible == visible,
            entry.gizmo_visible,
    {
        Self { target, visible, gizmo_visible: true }
    }
}

/// The abstract state of an editor session.
#[verifier::ext_equal]
pub struct SessionView<T> {
    pub entries: Seq<EditorEntry<T>>,
    pub inspected_target: Option<T>,
    pub active_target: T,
    pub selected_entry: usize,
    pub objects_panel_open: bool,
}

/// `entries` has an entry whose target is `target`.
pub open spec fn has_target<T>(entries: Seq<EditorEntry<T>>, target: T) -> bool {
    exists|i: int| 0 <= i < entries.len() && #[trigger] entries[i].target == target
}

/// `i` is the first position of `target` in `entries`.
pub open spec fn is_first_index<T>(entries: Seq<EditorEntry<T>>, target: T, i: int) -> bool {
    &&& 0 <= i < entries.len()
    &&& entries[i].target == target
    &&& forall|j: int| 0 <= j < i ==> #[trigger] entries[j].target != target
}

/// The first position of `target` in `entries` (meaningful when `has_target`).
pub open spec fn first_index<T>(entries: Seq<EditorEntry<T>>, target: T) -> int {
    choose|i: int| is_first_index(entries, target, i)
}

/// The highest valid selection for `len` entries (0 when there are none).
pub open spec fn last_index(len: nat) -> int {
    if len == 0 {
        0
    } else {
        len - 1
    }
}

impl<T> SessionView<T> {
    /// The selection points at an entry, or at 0 when there are no entries
    /// (and the entries fit in memory).
    pub open spec fn selection_in_range(self) -> bool {
        &&& self.entries.len() <= usize::MAX
        &&& if self.entries.len() == 0 {
            self.selected_entry == 0
        } else {
            self.selected_entry < self.entries.len()
        }
    }

    /// The inspected target, if there is one, has an entry.
    pub open spec fn inspected_listed(self) -> bool {
        match self.inspected_target {
            Some(target) => has_target(self.entries, target),
            None => true,
        }
    }

    /// What holds of every state that a session reaches: the selection
    /// points at an entry, and the inspected target has one.
    pub open spec fn well_formed(self) -> bool {
        self.selection_in_range() && self.inspected_listed()
    }

    pub open spec fn with_entries(self, entries: Seq<EditorEntry<T>>) -> Self {
        SessionView { entries, ..self }
    }

    pub open spec fn with_selected(self, selected_entry: usize) -> Self {
        SessionView { selected_entry, ..self }
    }

    pub open spec fn with_inspected(self, inspected_target: Option<T>) -> Self {
        SessionView { inspected_target, ..self }
    }

    pub open spec fn with_active(self, active_target: T) -> Self {
        SessionView { active_target, ..self }
    }

    pub open spec fn with_panel(self, objects_panel_open: bool) -> Self {
        SessionView { objects_panel_open, ..self }
    }

    /// The visibility of the first entry for `target`, if it has one.
    pub open spec fn visibility_of(self, target: T) -> Option<bool> {
        if has_target(self.entries, target) {
            self.entries[first_index(self.entries, target)].visible
        } else {
            None
        }
    }

    /// Whether the gizmo of the first entry for `target` is shown.
    pub open spec fn gizmo_of(self, target: T) -> bool {
        has_target(self.entries, target) && self.entries[first_index(self.entries, target)].gizmo_visible
    }

    /// The state and the answer that `EditorSession::apply` gives for `command`.
    pub open spec fn apply(self, command: EditorCommand<T>) -> (Self, bool) {
        let len = self.entries.len();
        match command {
            EditorCommand::OpenObjectsPanel => (self.with_panel(true), true),
            EditorCommand::CloseObjectsPanel => (self.with_panel(false), true),
            EditorCommand::SelectIndex(index) => (
                self.with_selected(
                    if index <= last_index(len) {
                        index
                    } else {
                        last_index(len) as usize
                    },
                ),
                true,
            ),
            EditorCommand::MoveSelectionUp => (
                self.with_selected(
                    if len == 0 {
                        0
                    } else if self.selected_entry == 0 {
                        (len - 1) as usize
                    } else {
                        (self.selected_entry - 1) as usize
                    },
                ),
                true,
            ),
            EditorCommand::MoveSelectionDown => (
                self.with_selected(
                    if len == 0 {
                        0
                    } else {
                        ((self.selected_entry + 1) % (len as int)) as usize
                    },
                ),
                true,
            ),
            EditorCommand::InspectSelected => {
                if self.selected_entry < len {
                    (self.with_inspected(Some(self.entries[self.selected_entry as int].target)), true)
                } else {
                    (self.with_inspected(None), false)
                }
            },
            EditorCommand::Inspect(target) => {
                if has_target(self.entries, target) {
                    (self.with_inspected(Some(target)), true)
                } else {
                    (self, false)
                }
            },
            EditorCommand::Activate(target) => {
                if has_target(self.entries, target) {
                    (self.with_inspected(Some(target)).with_active(target), true)
                } else {
                    (self, false)
                }
            },
            EditorCommand::ActivateInspected => match self.inspected_target {
                Some(target) => (self.with_active(target), true),
                None => (self, false),
            },
            EditorCommand::ToggleGizmo(target) => {
                if has_target(self.entries, target) {
                    let i = first_index(self.entries, target);
                    let entry = self.entries[i];
                    (
                        self.with_entries(
                            self.entries.update(
                                i,
                                EditorEntry { gizmo_visible: !entry.gizmo_visible, ..entry },
                            ),
                        ),
                        true,
                    )
                } else {
                    (self, false)
                }
            },
            EditorCommand::SetVisibility { target, visible } => {
                if has_target(self.entries, target) && self.entries[first_index(
                    self.entries,
                    target,
                )].visible is Some {
                    let i = first_index(self.entries, target);
                    let entry = self.entries[i];
                    (
                        self.with_entries(
                            self.entries.update(i, EditorEntry { visible: Some(visible), ..entry }),
                        ),
                        true,
                    )
                } else {
                    (self, false)
                }
            },
            EditorCommand::ToggleVisibility(target) => {
                if has_target(self.entries, target) && self.entries[first_index(
                    self.entries,
                    target,
                )].visible is Some {
                    let i = first_index(self.entries, target);
                    let entry = self.entries[i];
                    (
                        self.with_entries(
                            self.entries.update(
                                i,
                                EditorEntry { visible: Some(!entry.visible->0), ..entry },
                            ),
                        ),
                        true,
                    )
                } else {
                    (self, false)
                }
            },
        }
    }

    /// The state after `EditorSession::replace_entries(entries, fallback_active)`.
    pub open spec fn replace_entries(
        self,
        entries: Seq<EditorEntry<T>>,
        fallback_active: T,
    ) -> Self {
        let merged = Seq::new(
            entries.len(),
            |k: int|
                {
                    let entry = entries[k];
                    if has_target(self.entries, entry.target) {
                        EditorEntry {
                            gizmo_visible: self.entries[first_index(
                                self.entries,
                                entry.target,
                            )].gizmo_visible,
                            ..entry
                        }
                    } else {
                        entry
                    }
                },
        );
        SessionView {
            entries: merged,
            inspected_target: match self.inspected_target {
                Some(target) => if has_target(entries, target) {
                    Some(target)
                } else {
                    None
                },
                None => None,
            },
            active_target: if has_target(entries, self.active_target) {
                self.active_target
            } else {
                fallback_active
            },
            selected_entry: if self.selected_entry <= last_index(entries.len()) {
                self.selected_entry
            } else {
                last_index(entries.len()) as usize
            },
            objects_panel_open: self.objects_panel_open,
        }
    }
}

/// The first index is unique.
pub proof fn lemma_first_index<T>(entries: Seq<EditorEntry<T>>, target: T, i: int)
    requires
        is_first_index(entries, target, i),
    ensures
        first_index(entries, target) == i,
{
    let k = first_index(entries, target);
    assert(is_first_index(entries, target, k));
    if k < i {
        assert(entries[k].target != target);
    } else if i < k {
        assert(entries[i].target != target);
    }
}

/// The position of the first entry of `entries` whose target is `target`.
fn position_of<T: Clone + PartialEq>(entries: &Vec<EditorEntry<T>>, target: &T) -> (found: Option<
    usize,
>)
    requires
        target_semantics::<T>(),
    ensures
        match found {
            Some(i) => is_first_index(entries@, *target, i as int),
            None => !has_target(entries@, *target),
        },
{
    let mut i: usize = 0;
    while i < entries.len()
        invariant
            target_semantics::<T>(),
            i <= entries@.len(),
            forall|j: int| 0 <= j < i ==> #[trigger] entries@[j].target != *target,
        decreases entries@.len() - i,
    {
        if entries[i].target == *target {
            return Some(i);
        }
        i = i + 1;
    }
    None
}

/// Two entry lists with the same targets in the same places contain the same
/// targets.
proof fn lemma_same_targets<T>(a: Seq<EditorEntry<T>>, b: Seq<EditorEntry<T>>)
    requires
        a.len() == b.len(),
        forall|m: int| 0 <= m < a.len() ==> #[trigger] a[m].target == b[m].target,
    ensures
        forall|t: T| #[trigger] has_target(a, t) == has_target(b, t),
{
    assert forall|t: T| #[trigger] has_target(a, t) == has_target(b, t) by {
        if has_target(a, t) {
            let i = choose|i: int| 0 <= i < a.len() && #[trigger] a[i].target == t;
            assert(b[i].target == t);
        }
        if has_target(b, t) {
            let i = choose|i: int| 0 <= i < b.len() && #[trigger] b[i].target == t;
            assert(a[i].target == t);
        }
    }
}


/// Replacing the entries keeps what the editor knew of each target that
/// stays: its gizmo is shown or hidden as before, and it stays inspected
/// and active where it was.
pub proof fn law_replace_entries_keeps_staying_targets<T>(
    v: SessionView<T>,
    entries: Seq<EditorEntry<T>>,
    fallback_active: T,
    target: T,
)
    requires
        has_target(v.entries, target),
        has_target(entries, target),
    ensures
        v.replace_entries(entries, fallback_active).gizmo_of(target) == v.gizmo_of(target),
        v.inspected_target == Some(target) ==> v.replace_entries(
            entries,
            fallback_active,
        ).inspected_target == Some(target),
        v.active_target == target ==> v.replace_entries(entries, fallback_active).active_target
            == target,
{
    let after = v.replace_entries(entries, fallback_active);
    lemma_same_targets(after.entries, entries);
    lemma_first_exists(entries, target);
    let k = first_index(entries, target);
    assert(is_first_index(after.entries, target, k));
    lemma_first_index(after.entries, target, k);
    lemma_first_exists(v.entries, target);
}

/// Stepping forward by one modulo `len` wraps only at the last position.
proof fn lemma_step_mod(s: int, len: int)
    requires
        0 <= s < len,
    ensures
        (s + 1) % len == if s + 1 == len {
            0
        } else {
            s + 1
        },
{
    if s + 1 == len {
        vstd::arithmetic::div_mod::lemma_mod_self_0(len);
    } else {
        vstd::arithmetic::div_mod::lemma_small_mod((s + 1) as nat, len as nat);
    }
}

/// Moving the selection down and then up again returns every part of the
/// state to where it was.
pub proof fn law_move_down_then_up<T>(v: SessionView<T>)
    requires
        v.selection_in_range(),
    ensures
        v.apply(EditorCommand::MoveSelectionDown).0.apply(EditorCommand::MoveSelectionUp).0 == v,
{
    if v.entries.len() > 0 {
        lemma_step_mod(v.selected_entry as int, v.entries.len() as int);
    }
    let w = v.apply(EditorCommand::MoveSelectionDown).0;
    assert(w.apply(EditorCommand::MoveSelectionUp).0 =~= v);
}

/// Selecting an index that names an entry selects exactly that entry; an
/// index past the end selects the last entry, or the first place where
/// there are none. The command is always taken, and the selection is all
/// it changes.
pub proof fn law_select_index<T>(v: SessionView<T>, index: usize)
    requires
        v.entries.len() <= usize::MAX,
    ensures
        ({
            let (after, applied) = v.apply(EditorCommand::SelectIndex(index));
            &&& applied
            &&& index < v.entries.len() ==> after.selected_entry == index
            &&& index >= v.entries.len() && v.entries.len() > 0 ==> after.selected_entry
                == v.entries.len() - 1
            &&& v.entries.len() == 0 ==> after.selected_entry == 0
            &&& after == (SessionView { selected_entry: after.selected_entry, ..v })
        }),
{
}

/// Moving the selection up and then down again returns every part of the
/// state to where it was.
pub proof fn law_move_up_then_down<T>(v: SessionView<T>)
    requires
        v.selection_in_range(),
    ensures
        v.apply(EditorCommand::MoveSelectionUp).0.apply(EditorCommand::MoveSelectionDown).0 == v,
{
    let len = v.entries.len() as int;
    if len > 0 {
        let up = if v.selected_entry == 0 {
            len - 1
        } else {
            v.selected_entry - 1
        };
        lemma_step_mod(up, len);
    }
    let w = v.apply(EditorCommand::MoveSelectionUp).0;
    assert(w.apply(EditorCommand::MoveSelectionDown).0 =~= v);
}

/// Every command keeps the selection pointing at an entry.
pub proof fn law_apply_keeps_selection_in_range<T>(v: SessionView<T>, command: EditorCommand<T>)
    requires
        v.selection_in_range(),
    ensures
        v.apply(command).0.selection_in_range(),
{
    if command is MoveSelectionDown && v.entries.len() > 0 {
        lemma_step_mod(v.selected_entry as int, v.entries.len() as int);
    }
    match command {
        EditorCommand::ToggleGizmo(target) => {
            if has_target(v.entries, target) {
                lemma_first_exists(v.entries, target);
            }
        },
        EditorCommand::SetVisibility { target, visible } => {
            if has_target(v.entries, target) {
                lemma_first_exists(v.entries, target);
            }
        },
        EditorCommand::ToggleVisibility(target) => {
            if has_target(v.entries, target) {
                lemma_first_exists(v.entries, target);
            }
        },
        _ => {},
    }
}

/// Changing an entry in place, keeping its target, keeps every target that
/// has an entry.
proof fn lemma_update_keeps_targets<T>(entries: Seq<EditorEntry<T>>, i: int, entry: EditorEntry<T>)
    requires
        0 <= i < entries.len(),
        entry.target == entries[i].target,
    ensures
        forall|t: T| #[trigger] has_target(entries.update(i, entry), t) == has_target(entries, t),
{
    lemma_same_targets(entries.update(i, entry), entries);
}

/// Every command keeps the inspected target among the entries, and with
/// the selection in range the whole state stays well formed.
pub proof fn law_apply_keeps_well_formed<T>(v: SessionView<T>, command: EditorCommand<T>)
    requires
        v.inspected_listed(),
    ensures
        v.apply(command).0.inspected_listed(),
        v.selection_in_range() ==> v.apply(command).0.well_formed(),
{
    if v.selection_in_range() {
        law_apply_keeps_selection_in_range(v, command);
    }
    match command {
        EditorCommand::InspectSelected => {
            if v.selected_entry < v.entries.len() {
                assert(v.entries[v.selected_entry as int].target == v.entries[v.selected_entry as int].target);
            }
        },
        EditorCommand::ToggleGizmo(target) => {
            if has_target(v.entries, target) {
                lemma_first_exists(v.entries, target);
                let i = first_index(v.entries, target);
                let entry = v.entries[i];
                lemma_update_keeps_targets(v.entries, i, EditorEntry { gizmo_visible: !entry.gizmo_visible, ..entry });
            }
        },
        EditorCommand::SetVisibility { target, visible } => {
            if has_target(v.entries, target) {
                lemma_first_exists(v.entries, target);
                let i = first_index(v.entries, target);
                let entry = v.entries[i];
                lemma_update_keeps_targets(v.entries, i, EditorEntry { visible: Some(visible), ..entry });
            }
        },
        EditorCommand::ToggleVisibility(target) => {
            if has_target(v.entries, target) {
                lemma_first_exists(v.entries, target);
                let i = first_index(v.entries, target);
                let entry = v.entries[i];
                if entry.visible is Some {
                    lemma_update_keeps_targets(v.entries, i, EditorEntry { visible: Some(!entry.visible->0), ..entry });
                }
            }
        },
        _ => {},
    }
}

/// Replacing the entries leaves a well-formed state: the selection points at
/// a new entry (or is 0 where there are none), and an inspected target that
/// has no new entry is dropped.
pub proof fn law_replace_entries_well_formed<T>(
    v: SessionView<T>,
    entries: Seq<EditorEntry<T>>,
    fallback_active: T,
)
    requires
        entries.len() <= usize::MAX,
    ensures
        v.replace_entries(entries, fallback_active).well_formed(),
{
    let after = v.replace_entries(entries, fallback_active);
    lemma_same_targets(after.entries, entries);
}

/// Where every entry shows its gizmo, as `EditorEntry::new` makes them, a
/// target's gizmo is shown exactly when it has an entry.
pub proof fn law_fresh_entries_show_gizmos<T>(v: SessionView<T>, target: T)
    requires
        forall|i: int| 0 <= i < v.entries.len() ==> #[trigger] v.entries[i].gizmo_visible,
    ensures
        v.gizmo_of(target) == has_target(v.entries, target),
{
    if has_target(v.entries, target) {
        lemma_first_exists(v.entries, target);
    }
}

/// A command that is refused leaves the state unchanged; the one exception is
/// `InspectSelected`, which clears the inspected target when nothing is
/// selected.
pub proof fn law_refused_command_changes_nothing<T>(v: SessionView<T>, command: EditorCommand<T>)
    requires
        !(command is InspectSelected),
        !v.apply(command).1,
    ensures
        v.apply(command).0 == v,
{
}

/// When `target` occurs, `first_index` names its first position.
pub proof fn lemma_first_exists<T>(entries: Seq<EditorEntry<T>>, target: T)
    requires
        has_target(entries, target),
    ensures
        is_first_index(entries, target, first_index(entries, target)),
{
    let i = choose|i: int| 0 <= i < entries.len() && #[trigger] entries[i].target == target;
    lemma_first_below(entries, target, i);
}

proof fn lemma_first_below<T>(entries: Seq<EditorEntry<T>>, target: T, i: int)
    requires
        0 <= i < entries.len(),
        entries[i].target == target,
    ensures
        is_first_index(entries, target, first_index(entries, target)),
    decreases i,
{
    if forall|j: int| 0 <= j < i ==> #[trigger] entries[j].target != target {
        assert(is_first_index(entries, target, i));
    } else {
        let j = choose|j: int| 0 <= j < i && !(#[trigger] entries[j].target != target);
        lemma_first_below(entries, target, j);
    }
}

/// Changing a target's entry in place keeps its first position.
proof fn lemma_update_keeps_first_index<T>(
    entries: Seq<EditorEntry<T>>,
    target: T,
    entry: EditorEntry<T>,
)
    requires
        has_target(entries, target),
        entry.target == target,
    ensures
        has_target(entries.update(first_index(entries, target), entry), target),
        first_index(entries.update(first_index(entries, target), entry), target) == first_index(
            entries,
            target,
        ),
{
    lemma_first_exists(entries, target);
    let k = first_index(entries, target);
    let updated = entries.update(k, entry);
    assert(updated[k].target == target);
    assert(is_first_index(updated, target, k));
    lemma_first_index(updated, target, k);
}

/// Toggling a target's gizmo twice leaves the state as it was.
pub proof fn law_toggle_gizmo_twice<T>(v: SessionView<T>, target: T)
    ensures
        v.apply(EditorCommand::ToggleGizmo(target)).0.apply(EditorCommand::ToggleGizmo(target)).0
            == v,
{
    if has_target(v.entries, target) {
        lemma_first_exists(v.entries, target);
        let k = first_index(v.entries, target);
        let entry = v.entries[k];
        let toggled = EditorEntry { gizmo_visible: !entry.gizmo_visible, ..entry };
        lemma_update_keeps_first_index(v.entries, target, toggled);
        let w = v.apply(EditorCommand::ToggleGizmo(target)).0;
        assert(w.apply(EditorCommand::ToggleGizmo(target)).0.entries =~= v.entries);
        assert(w.apply(EditorCommand::ToggleGizmo(target)).0 =~= v);
    }
}

/// Toggling a target's visibility twice leaves the state as it was.
pub proof fn law_toggle_visibility_twice<T>(v: SessionView<T>, target: T)
    ensures
        v.apply(EditorCommand::ToggleVisibility(target)).0.apply(
            EditorCommand::ToggleVisibility(target),
        ).0 == v,
{
    if has_target(v.entries, target) && v.entries[first_index(v.entries, target)].visible is Some {
        lemma_first_exists(v.entries, target);
        let k = first_index(v.entries, target);
        let entry = v.entries[k];
        let toggled = EditorEntry { visible: Some(!entry.visible->0), ..entry };
        lemma_update_keeps_first_index(v.entries, target, toggled);
        let w = v.apply(EditorCommand::ToggleVisibility(target)).0;
        assert(w.apply(EditorCommand::ToggleVisibility(target)).0.entries =~= v.entries);
        assert(w.apply(EditorCommand::ToggleVisibility(target)).0 =~= v);
    }
}

/// Setting a visibility and reading it back gives the value that was set,
/// for every target whose entry has a visibility.
pub proof fn law_set_visibility_then_read<T>(v: SessionView<T>, target: T, visible: bool)
    requires
        v.visibility_of(target) is Some,
    ensures
        v.apply(EditorCommand::SetVisibility { target, visible }).1,
        v.apply(EditorCommand::SetVisibility { target, visible }).0.visibility_of(target) == Some(
            visible,
        ),
{
    lemma_first_exists(v.entries, target);
    let k = first_index(v.entries, target);
    let entry = v.entries[k];
    lemma_update_keeps_first_index(v.entries, target, EditorEntry { visible: Some(visible), ..entry });
}

/// Moving the selection down goes to the next entry, and from the last one
/// back to the first; moving it up goes to the previous entry, and from the
/// first one round to the last. Both are always taken and change nothing
/// but the selection.
pub proof fn law_selection_steps<T>(v: SessionView<T>)
    requires
        v.selection_in_range(),
        v.entries.len() > 0,
    ensures
        ({
            let (down, down_taken) = v.apply(EditorCommand::MoveSelectionDown);
            &&& down_taken
            &&& down.selected_entry == if v.selected_entry + 1 < v.entries.len() {
                v.selected_entry + 1
            } else {
                0
            }
            &&& down == (SessionView { selected_entry: down.selected_entry, ..v })
        }),
        ({
            let (up, up_taken) = v.apply(EditorCommand::MoveSelectionUp);
            &&& up_taken
            &&& up.selected_entry == if v.selected_entry > 0 {
                v.selected_entry - 1
            } else {
                v.entries.len() - 1
            }
            &&& up == (SessionView { selected_entry: up.selected_entry, ..v })
        }),
{
    lemma_step_mod(v.selected_entry as int, v.entries.len() as int);
}

/// Opening the objects panel leaves it open and closing it leaves it
/// closed, whatever it was; both are always taken and change nothing else.
pub proof fn law_objects_panel<T>(v: SessionView<T>)
    ensures
        v.apply(EditorCommand::OpenObjectsPanel) == (SessionView { objects_panel_open: true, ..v }, true),
        v.apply(EditorCommand::CloseObjectsPanel) == (SessionView { objects_panel_open: false, ..v }, true),
{
}

/// Toggling the gizmo of a listed target shows it where it was hidden and
/// hides it where it was shown; toggling a visibility that the target has
/// turns it over. Both are taken, and only that target's flag changes.
pub proof fn law_toggles_flip<T>(v: SessionView<T>, target: T)
    requires
        has_target(v.entries, target),
    ensures
        v.apply(EditorCommand::ToggleGizmo(target)).1,
        v.apply(EditorCommand::ToggleGizmo(target)).0.gizmo_of(target) == !v.gizmo_of(target),
        v.apply(EditorCommand::ToggleGizmo(target)).0.visibility_of(target) == v.visibility_of(
            target,
        ),
        v.visibility_of(target) matches Some(shown) ==> {
            &&& v.apply(EditorCommand::ToggleVisibility(target)).1
            &&& v.apply(EditorCommand::ToggleVisibility(target)).0.visibility_of(target) == Some(
                !shown,
            )
            &&& v.apply(EditorCommand::ToggleVisibility(target)).0.gizmo_of(target) == v.gizmo_of(
                target,
            )
        },
{
    lemma_first_exists(v.entries, target);
    let k = first_index(v.entries, target);
    let entry = v.entries[k];
    lemma_update_keeps_first_index(
        v.entries,
        target,
        EditorEntry { gizmo_visible: !entry.gizmo_visible, ..entry },
    );
    if entry.visible is Some {
        lemma_update_keeps_first_index(
            v.entries,
            target,
            EditorEntry { visible: Some(!entry.visible->0), ..entry },
        );
    }
}

/// Inspecting the selection inspects the target of the selected entry;
/// inspecting a listed target inspects it; activating the inspected target
/// makes it the active one. Each is taken and changes nothing else.
pub proof fn law_inspect_and_activate<T>(v: SessionView<T>, target: T)
    ensures
        v.selected_entry < v.entries.len() ==> v.apply(EditorCommand::InspectSelected) == (
            SessionView { inspected_target: Some(v.entries[v.selected_entry as int].target), ..v },
            true,
        ),
        has_target(v.entries, target) ==> v.apply(EditorCommand::Inspect(target)) == (
            SessionView { inspected_target: Some(target), ..v },
            true,
        ),
        v.inspected_target matches Some(inspected) ==> v.apply(EditorCommand::ActivateInspected)
            == (SessionView { active_target: inspected, ..v }, true),
{
}

/// Activating a known target makes it both the inspected and the active target.
pub proof fn law_activate_known_target<T>(v: SessionView<T>, target: T)
    requires
        has_target(v.entries, target),
    ensures
        v.apply(EditorCommand::Activate(target)).1,
        v.apply(EditorCommand::Activate(target)).0.active_target == target,
        v.apply(EditorCommand::Activate(target)).0.inspected_target == Some(target),
{
}

/// The state of the editor: its entries, the inspected and the active
/// target, the selected row of the objects panel and whether that panel is
/// open.
#[derive(Clone, Debug)]
pub struct EditorSession<T> {
    entries: Vec<EditorEntry<T>>,
    inspected_target: Option<T>,
    active_target: T,
    selected_entry: usize,
    objects_panel_open: bool,
}

impl<T> View for EditorSession<T> {
    type V = SessionView<T>;

    closed spec fn view(&self) -> SessionView<T> {
        SessionView {
            entries: self.entries@,
            inspected_target: self.inspected_target,
            active_target: self.active_target,
            selected_entry: self.selected_entry,
            objects_panel_open: self.objects_panel_open,
        }
    }
}

impl<T: Clone + PartialEq> EditorSession<T> {
    pub fn new(entries: Vec<EditorEntry<T>>, active_target: T) -> (session: Self)
        ensures
            session@.entries == entries@,
            session@.inspected_target is None,
            session@.active_target == active_target,
            session@.selected_entry == 0,
            !session@.objects_panel_open,
            session@.selection_in_range(),
            session@.well_formed(),
    {
        let _count = entries.len();
        Self {
            entries,
            inspected_target: None,
            active_target,
            selected_entry: 0,
            objects_panel_open: false,
        }
    }

    pub fn entries(&self) -> (entries: &[EditorEntry<T>])
        ensures
            entries@ == self@.entries,
    {
        self.entries.as_slice()
    }

    pub fn inspected_target(&self) -> (target: Option<&T>)
        ensures
            target == match self@.inspected_target {
                Some(t) => Some(&t),
                None => None::<&T>,
            },
    {
        match &self.inspected_target {
            Some(target) => Some(target),
            None => None,
        }
    }

    pub fn active_target(&self) -> (target: &T)
        ensures
            *target == self@.active_target,
    {
        &self.active_target
    }

    pub fn selected_entry(&self) -> (index: usize)
        ensures
            index == self@.selected_entry,
    {
        self.selected_entry
    }

    pub fn objects_panel_open(&self) -> (open: bool)
        ensures
            open == self@.objects_panel_open,
    {
        self.objects_panel_open
    }

    fn find_target(&self, target: &T) -> (found: Option<usize>)
        requires
            target_semantics::<T>(),
        ensures
            match found {
                Some(i) => is_first_index(self@.entries, *target, i as int),
                None => !has_target(self@.entries, *target),
            },
    {
        position_of(&self.entries, target)
    }

    /// Whether the session has an entry for `target`: a transform is only
    /// asked for on such a target.
    pub fn contains_target(&self, target: &T) -> (found: bool)
        requires
            target_semantics::<T>(),
        ensures
            found == has_target(self@.entries, *target),
    {
        self.find_target(target).is_some()
    }

    pub fn is_active(&self, target: &T) -> (active: bool)
        requires
            target_semantics::<T>(),
        ensures
            active == (self@.active_target == *target),
    {
        self.active_target == *target
    }

    pub fn visibility(&self, target: &T) -> (visible: Option<bool>)
        requires
            target_semantics::<T>(),
        ensures
            visible == self@.visibility_of(*target),
    {
        match self.find_target(target) {
            Some(i) => {
                proof {
                    lemma_first_index(self@.entries, *target, i as int);
                }
                self.entries[i].visible
            },
            None => None,
        }
    }

    pub fn gizmo_visible(&self, target: &T) -> (visible: bool)
        requires
            target_semantics::<T>(),
        ensures
            visible == self@.gizmo_of(*target),
    {
        match self.find_target(target) {
            Some(i) => {
                proof {
                    lemma_first_index(self@.entries, *target, i as int);
                }
                self.entries[i].gizmo_visible
            },
            None => false,
        }
    }

    pub fn replace_entries(&mut self, entries: Vec<EditorEntry<T>>, fallback_active: T)
        requires
            target_semantics::<T>(),
        ensures
            final(self)@ == old(self)@.replace_entries(entries@, fallback_active),
            final(self)@.selection_in_range(),
            final(self)@.well_formed(),
    {
        let _incoming_count = entries.len();
        proof {
            law_replace_entries_well_formed(old(self)@, entries@, fallback_active);
        }
        let mut entries = entries;
        let ghost incoming = entries@;
        let mut k: usize = 0;
        while k < entries.len()
            invariant
                target_semantics::<T>(),
                k <= entries@.len(),
                entries@.len() == incoming.len(),
                forall|m: int|
                    k <= m < incoming.len() ==> #[trigger] entries@[m] == incoming[m],
                forall|m: int|
                    0 <= m < k ==> #[trigger] entries@[m] == (if has_target(
                        self@.entries,
                        incoming[m].target,
                    ) {
                        EditorEntry {
                            gizmo_visible: self@.entries[first_index(
                                self@.entries,
                                incoming[m].target,
                            )].gizmo_visible,
                            ..incoming[m]
                        }
                    } else {
                        incoming[m]
                    }),
            decreases incoming.len() - k,
        {
            match position_of(&self.entries, &entries[k].target) {
                Some(i) => {
                    proof {
                        lemma_first_index(self@.entries, entries@[k as int].target, i as int);
                    }
                    let gizmo_visible = self.entries[i].gizmo_visible;
                    entries[k].gizmo_visible = gizmo_visible;
                },
                None => {},
            }
            k = k + 1;
        }
        let ghost previous = self@;
        let ghost expected = previous.replace_entries(incoming, fallback_active);
        assert(entries@ =~= expected.entries);
        proof {
            lemma_same_targets(entries@, incoming);
        }
        let last = if entries.len() == 0 {
            0
        } else {
            entries.len() - 1
        };
        self.entries = entries;
        if self.selected_entry > last {
            self.selected_entry = last;
        }
        let previous_inspected = self.inspected_target.take();
        self.inspected_target = match previous_inspected {
            Some(target) => if self.contains_target(&target) {
                Some(target)
            } else {
                None
            },
            None => None,
        };
        if !self.contains_target(&self.active_target) {
            self.active_target = fallback_active;
        }
        assert(self@ =~= expected);
    }

    pub fn apply(&mut self, command: EditorCommand<T>) -> (applied: bool)
        requires
            target_semantics::<T>(),
            old(self)@.selection_in_range(),
        ensures
            (final(self)@, applied) == old(self)@.apply(command),
            final(self)@.selection_in_range(),
            old(self)@.well_formed() ==> final(self)@.well_formed(),
    {
        proof {
            if old(self)@.inspected_listed() {
                law_apply_keeps_well_formed(old(self)@, command);
            }
        }
        let len = self.entries.len();
        let ghost before = self@;
        let ghost request = command;
        let applied = match command {
            EditorCommand::OpenObjectsPanel => {
                self.objects_panel_open = true;
                true
            },
            EditorCommand::CloseObjectsPanel => {
                self.objects_panel_open = false;
                true
            },
            EditorCommand::SelectIndex(index) => {
                let last = if len == 0 {
                    0
                } else {
                    len - 1
                };
                self.selected_entry = if index <= last {
                    index
                } else {
                    last
                };
                true
            },
            EditorCommand::MoveSelectionUp => {
                if len == 0 {
                    self.selected_entry = 0;
                } else if self.selected_entry == 0 {
                    self.selected_entry = len - 1;
                } else {
                    self.selected_entry = self.selected_entry - 1;
                }
                true
            },
            EditorCommand::MoveSelectionDown => {
                if len == 0 {
                    self.selected_entry = 0;
                } else {
                    self.selected_entry = (self.selected_entry + 1) % len;
                }
                true
            },
            EditorCommand::InspectSelected => {
                if self.selected_entry < len {
                    let target = self.entries[self.selected_entry].target.clone();
                    assert(strictly_cloned(self.entries@[self.selected_entry as int].target, target));
                    self.inspected_target = Some(target);
                    true
                } else {
                    self.inspected_target = None;
                    false
                }
            },
            EditorCommand::Inspect(target) => {
                if !self.contains_target(&target) {
                    return false;
                }
                self.inspected_target = Some(target);
                true
            },
            EditorCommand::Activate(target) => {
                if !self.contains_target(&target) {
                    return false;
                }
                let inspected = target.clone();
                assert(strictly_cloned(target, inspected));
                self.inspected_target = Some(inspected);
                self.active_target = target;
                true
            },
            EditorCommand::ActivateInspected => {
                match &self.inspected_target {
                    Some(current) => {
                        let target = current.clone();
                        assert(strictly_cloned(*current, target));
                        self.active_target = target;
                        true
                    },
                    None => false,
                }
            },
            EditorCommand::ToggleGizmo(target) => {
                match self.find_target(&target) {
                    Some(i) => {
                        proof {
                            lemma_first_index(self@.entries, target, i as int);
                        }
                        let shown = self.entries[i].gizmo_visible;
                        self.entries[i].gizmo_visible = !shown;
                        true
                    },
                    None => false,
                }
            },
            EditorCommand::SetVisibility { target, visible } => {
                match self.find_target(&target) {
                    Some(i) => {
                        proof {
                            lemma_first_index(self@.entries, target, i as int);
                        }
                        match self.entries[i].visible {
                            Some(_) => {
                                self.entries[i].visible = Some(visible);
                                true
                            },
                            None => false,
                        }
                    },
                    None => false,
                }
            },
            EditorCommand::ToggleVisibility(target) => {
                match self.find_target(&target) {
                    Some(i) => {
                        proof {
                            lemma_first_index(self@.entries, target, i as int);
                        }
                        match self.entries[i].visible {
                            Some(current) => {
                                self.entries[i].visible = Some(!current);
                                true
                            },
                            None => false,
                        }
                    },
                    None => false,
                }
            },
        };
        assert(self@ =~= before.apply(request).0);
        applied
    }
}

} // verus!
