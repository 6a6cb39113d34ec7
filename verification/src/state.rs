//! The MIG mode of one GPU, and of the fleet as a whole.

use vstd::prelude::*;

verus! {

/// A MIG mode, either as one GPU reports it or as aggregated over the fleet.
///
/// A GPU reports `Enabled`, `Disabled` or, for any other text, `Unknown`.
/// `Transition` only ever results from aggregation.
#[derive(Clone, Copy, Debug, PartialEq, Eq, Hash, Structural)]
pub enum MigState {
    Enabled,
    Disabled,
    Transition,
    Unknown,
}

/// What one GPU reported in one query: its name, the mode that is active now
/// and the mode that takes effect after the next reboot.
#[derive(Debug, PartialEq, Eq)]
pub struct GpuModeRecord {
    pub name: String,
    pub current: MigState,
    pub pending: MigState,
}

/// A `GpuModeRecord` with its name as a sequence of characters.
pub struct GpuModeRecordView {
    pub name: Seq<char>,
    pub current: MigState,
    pub pending: MigState,
}

impl View for GpuModeRecord {
    type V = GpuModeRecordView;

    open spec fn view(&self) -> GpuModeRecordView {
        GpuModeRecordView { name: self.name@, current: self.current, pending: self.pending }
    }
}

impl DeepView for GpuModeRecord {
    type V = GpuModeRecordView;

    open spec fn deep_view(&self) -> GpuModeRecordView {
        self@
    }
}

impl GpuModeRecordView {
    /// The record is a raw reading: neither of its modes is `Transition`,
    /// which only aggregation gives.
    pub open spec fn is_raw(self) -> bool {
        self.current != MigState::Transition && self.pending != MigState::Transition
    }
}

impl Clone for GpuModeRecord {
    fn clone(&self) -> (copy: GpuModeRecord)
        ensures
            copy == *self,
    {
        GpuModeRecord { name: self.name.clone(), current: self.current, pending: self.pending }
    }
}

impl GpuModeRecord {
    /// The record is a raw reading: neither of its modes is `Transition`.
    pub open spec fn is_raw(&self) -> bool {
        self@.is_raw()
    }
}

} // verus!
