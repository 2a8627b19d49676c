use vstd::prelude::*;

use super::command::AppCommand;

verus! {

/// A key, the name of what it does, and the command it issues.
#[derive(Debug, Clone, Copy, PartialEq, Eq)]
pub struct KeyBinding {
    pub key: &'static str,
    pub label: &'static str,
    pub command: AppCommand,
}

} // verus!
