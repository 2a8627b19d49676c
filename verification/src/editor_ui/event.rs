use vstd::prelude::*;

use super::menu::MenuId;
use super::model::EditorTarget;

verus! {

/// Which part of the interface an event came from.
#[derive(Clone, Copy, Debug, PartialEq, Eq)]
pub enum EventSource {
    Keyboard,
    Menu,
    PropertiesPanel,
    ObjectHierarchy,
}

/// An axis of a transform.
#[derive(Clone, Copy, Debug, PartialEq, Eq)]
pub enum TransformAxis {
    X,
    Y,
    Z,
}

/// The frame that a transform is expressed in.
#[derive(Clone, Copy, Debug, PartialEq, Eq)]
pub enum TransformSpace {
    Local,
    World,
    View,
}

/// What the editor's panels ask the application to do. `A` is the kind of
/// action that a properties row carries.
#[derive(Clone, Debug, PartialEq)]
pub enum EditorEvent<A> {
    CloseRequested,
    MenuOpened { menu_id: MenuId },
    MenuActionRequested { menu_id: MenuId, action_id: String, source: EventSource },
    SelectionChanged { target: EditorTarget, source: EventSource },
    InspectRequested { target: EditorTarget, source: EventSource },
    ActionRequested { target: EditorTarget, action: A, source: EventSource },
}

} // verus!
