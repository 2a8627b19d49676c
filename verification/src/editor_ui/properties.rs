use vstd::prelude::*;

use crate::keys::KeyCode;

use super::event::{EditorEvent, EventSource};
use super::model::{copy_target, EditorTarget};

verus! {

/// A row of the properties panel. `A` is the action that an action row
/// requests.
#[derive(Clone, Debug, PartialEq)]
pub enum PropertyRow<A> {
    Value { label: String, value: String },
    Action { id: String, label: String, hint: Option<String>, enabled: bool, action: A },
    Separator,
}

impl<A> PropertyRow<A> {
    /// Only enabled action rows can be selected.
    pub open spec fn spec_is_selectable(self) -> bool {
        self matches PropertyRow::Action { enabled, .. } && enabled
    }

    pub fn is_selectable(&self) -> (selectable: bool)
        ensures
            selectable == self.spec_is_selectable(),
    {
        match self {
            PropertyRow::Action { enabled, .. } => *enabled,
            _ => false,
        }
    }
}

/// The selectable rows of `rows`, in order.
pub open spec fn selectable_rows<A>(rows: Seq<PropertyRow<A>>) -> Seq<PropertyRow<A>>
    decreases rows.len(),
{
    if rows.len() == 0 {
        seq![]
    } else if rows.last().spec_is_selectable() {
        selectable_rows(rows.drop_last()).push(rows.last())
    } else {
        selectable_rows(rows.drop_last())
    }
}

/// The abstract state of the properties panel.
#[verifier::ext_equal]
pub struct PropertiesView {
    pub open: bool,
    pub target: Option<EditorTarget>,
    pub selected_action: usize,
}

/// The properties panel: whether it is open, the target it shows and the
/// selected action among its selectable rows.
#[derive(Clone, Debug)]
pub struct PropertiesState {
    open: bool,
    target: Option<EditorTarget>,
    selected_action: usize,
}

impl View for PropertiesState {
    type V = PropertiesView;

    closed spec fn view(&self) -> PropertiesView {
        PropertiesView {
            open: self.open,
            target: self.target,
            selected_action: self.selected_action,
        }
    }
}

impl Default for PropertiesState {
    fn default() -> (state: Self)
        ensures
            state@ == (PropertiesView { open: false, target: None, selected_action: 0 }),
    {
        Self { open: false, target: None, selected_action: 0 }
    }
}

/// The number of selectable rows among the first `count` rows.
fn count_selectable<A>(rows: &[PropertyRow<A>]) -> (count: usize)
    ensures
        count == selectable_rows(rows@).len(),
{
    let mut count: usize = 0;
    let mut index: usize = 0;
    while index < rows.len()
        invariant
            index <= rows@.len(),
            count == selectable_rows(rows@.take(index as int)).len(),
            count <= index,
        decreases rows@.len() - index,
    {
        assert(rows@.take(index + 1).drop_last() =~= rows@.take(index as int));
        if rows[index].is_selectable() {
            count = count + 1;
        }
        index = index + 1;
    }
    assert(rows@.take(index as int) =~= rows@);
    count
}

/// The `wanted`-th selectable row, if there are that many.
fn nth_selectable<A>(rows: &[PropertyRow<A>], wanted: usize) -> (row: Option<&PropertyRow<A>>)
    ensures
        row == (if wanted < selectable_rows(rows@).len() {
            Some(&selectable_rows(rows@)[wanted as int])
        } else {
            None
        }),
{
    let mut seen: usize = 0;
    let mut index: usize = 0;
    while index < rows.len()
        invariant
            index <= rows@.len(),
            seen == selectable_rows(rows@.take(index as int)).len(),
            seen <= wanted,
            seen <= index,
        decreases rows@.len() - index,
    {
        assert(rows@.take(index + 1).drop_last() =~= rows@.take(index as int));
        if rows[index].is_selectable() {
            if seen == wanted {
                proof {
                    let prefix = rows@.take(index + 1);
                    assert(prefix.last() == rows@[index as int]);
                    assert(selectable_rows(prefix) == selectable_rows(rows@.take(index as int)).push(rows@[index as int]));
                    lemma_selectable_prefix(rows@, index as int + 1);
                    assert(selectable_rows(prefix)[seen as int] == rows@[index as int]);
                }
                return Some(&rows[index]);
            }
            seen = seen + 1;
        }
        index = index + 1;
    }
    assert(rows@.take(index as int) =~= rows@);
    None
}

/// The selectable rows of a prefix are a prefix of the selectable rows.
proof fn lemma_selectable_prefix<A>(rows: Seq<PropertyRow<A>>, count: int)
    requires
        0 <= count <= rows.len(),
    ensures
        selectable_rows(rows.take(count)).len() <= selectable_rows(rows).len(),
        forall|k: int|
            0 <= k < selectable_rows(rows.take(count)).len() ==> #[trigger] selectable_rows(
                rows.take(count),
            )[k] == selectable_rows(rows)[k],
    decreases rows.len() - count,
{
    if count < rows.len() {
        lemma_selectable_prefix(rows, count + 1);
        assert(rows.take(count + 1).drop_last() =~= rows.take(count));
        let shorter = selectable_rows(rows.take(count));
        let longer = selectable_rows(rows.take(count + 1));
        assert(longer == shorter || longer == shorter.push(rows[count]));
        assert forall|k: int| 0 <= k < shorter.len() implies #[trigger] shorter[k] == selectable_rows(rows)[k] by {
            assert(longer[k] == shorter[k]);
        }
    } else {
        assert(rows.take(count) =~= rows);
    }
}

impl PropertiesState {
    pub fn is_open(&self) -> (open: bool)
        ensures
            open == self@.open,
    {
        self.open
    }

    pub fn selected_action(&self) -> (index: usize)
        ensures
            index == self@.selected_action,
    {
        self.selected_action
    }

    pub fn open(&mut self, target: EditorTarget)
        ensures
            final(self)@ == (PropertiesView { open: true, target: Some(target), selected_action: 0 }),
    {
        self.open = true;
        self.target = Some(target);
        self.selected_action = 0;
    }

    pub fn close(&mut self)
        ensures
            final(self)@ == (PropertiesView { open: false, ..old(self)@ }),
    {
        self.open = false;
    }

    pub fn target(&self) -> (target: Option<&EditorTarget>)
        ensures
            target == match self@.target {
                Some(t) => Some(&t),
                None => None::<&EditorTarget>,
            },
    {
        match &self.target {
            Some(target) => Some(target),
            None => None,
        }
    }

    /// Handles a key while the panel has the focus: Esc closes it, Up/k and
    /// Down/j move round the selectable rows, Enter or Space request the
    /// selected row's action for the shown target.
    pub fn handle_key<A: Copy>(&mut self, code: KeyCode, rows: &[PropertyRow<A>]) -> (event:
        Option<EditorEvent<A>>)
        ensures
            ({
                let count = selectable_rows(rows@).len();
                let selected = old(self)@.selected_action;
                match code {
                    KeyCode::Esc => final(self)@ == (PropertiesView { open: false, ..old(self)@ })
                        && event == Some(EditorEvent::<A>::CloseRequested),
                    KeyCode::Up | KeyCode::Char('k') | KeyCode::Char('K') => final(self)@ == (
                    PropertiesView {
                        selected_action: if count == 0 {
                            selected
                        } else if selected == 0 {
                            (count - 1) as usize
                        } else {
                            (selected - 1) as usize
                        },
                        ..old(self)@
                    }) && event is None,
                    KeyCode::Down | KeyCode::Char('j') | KeyCode::Char('J') => final(self)@ == (
                    PropertiesView {
                        selected_action: if count == 0 {
                            selected
                        } else {
                            ((selected + 1) % (count as int)) as usize
                        },
                        ..old(self)@
                    }) && event is None,
                    KeyCode::Enter | KeyCode::Char(' ') => final(self)@ == old(self)@ && event == (
                    if old(self)@.target is Some && selected < count && selectable_rows(
                        rows@,
                    )[selected as int] is Action {
                        Some(
                            EditorEvent::ActionRequested {
                                target: old(self)@.target->0,
                                action: selectable_rows(rows@)[selected as int]->action,
                                source: EventSource::PropertiesPanel,
                            },
                        )
                    } else {
                        None
                    }),
                    _ => final(self)@ == old(self)@ && event is None,
                }
            }),
    {
        let action_count = count_selectable(rows);
        match code {
            KeyCode::Esc => {
                self.close();
                Some(EditorEvent::CloseRequested)
            },
            KeyCode::Up | KeyCode::Char('k') | KeyCode::Char('K') => {
                if action_count > 0 {
                    self.selected_action = if self.selected_action == 0 {
                        action_count - 1
                    } else {
                        self.selected_action - 1
                    };
                }
                None
            },
            KeyCode::Down | KeyCode::Char('j') | KeyCode::Char('J') => {
                if action_count > 0 {
                    self.selected_action = ((self.selected_action as u128 + 1) % (
                    action_count as u128)) as usize;
                }
                None
            },
            KeyCode::Enter | KeyCode::Char(' ') => {
                let target = match &self.target {
                    Some(target) => copy_target(target),
                    None => return None,
                };
                let row = match nth_selectable(rows, self.selected_action) {
                    Some(row) => row,
                    None => return None,
                };
                match row {
                    PropertyRow::Action { action, .. } => Some(
                        EditorEvent::ActionRequested {
                            target,
                            action: *action,
                            source: EventSource::PropertiesPanel,
                        },
                    ),
                    _ => None,
                }
            },
            _ => None,
        }
    }
}

} // verus!
