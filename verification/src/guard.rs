//! Crash-safe revert guard record.
//!
//! Before any non-native switch the previous display state is persisted. If the
//! process dies mid-switch, the next invocation finds the record and restores
//! the saved state. The record is cleared on explicit confirm.

use vstd::prelude::*;
use crate::model::DisplayState;

verus! {

/// The persisted record of a switch that has not been confirmed yet.
#[derive(Clone, Copy, PartialEq, Eq, Structural, Debug)]
pub struct PendingRevert {
    pub saved: DisplayState,
    /// Unix seconds when the switch was made.
    pub created: u64,
}

} // verus!
