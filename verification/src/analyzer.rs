//! Fleet-wide analysis of a snapshot of per-GPU readings.
//!
//! Two questions are asked of a snapshot: is the hardware MIG-capable at all,
//! and which single mode does the fleet as a whole stand in. The second is
//! answered only under strict agreement of all GPUs.

use crate::state::{GpuModeRecord, GpuModeRecordView, MigState};
use vstd::prelude::*;

verus! {

/// One GPU gives evidence of MIG support when either of its modes is known.
pub open spec fn record_is_capable(record: GpuModeRecordView) -> bool {
    record.current != MigState::Unknown || record.pending != MigState::Unknown
}

/// The fleet is MIG-capable when at least one GPU is.
pub open spec fn fleet_is_capable(fleet: Seq<GpuModeRecordView>) -> bool {
    exists|i: int| 0 <= i < fleet.len() && record_is_capable(#[trigger] fleet[i])
}

/// The current modes of the fleet, in query order.
pub open spec fn current_modes(fleet: Seq<GpuModeRecordView>) -> Seq<MigState> {
    fleet.map_values(|record: GpuModeRecordView| record.current)
}

/// The pending modes of the fleet, in query order.
pub open spec fn pending_modes(fleet: Seq<GpuModeRecordView>) -> Seq<MigState> {
    fleet.map_values(|record: GpuModeRecordView| record.pending)
}

/// The fleet-wide mode for a current and a pending mode on which all GPUs agree.
///
/// Only three pairs resolve. Every other pair, `Enabled` with `Disabled`
/// among them, is `Unknown`.
pub open spec fn resolve_pair(current: MigState, pending: MigState) -> MigState {
    match (current, pending) {
        (MigState::Enabled, MigState::Enabled) => MigState::Enabled,
        (MigState::Disabled, MigState::Disabled) => MigState::Disabled,
        (MigState::Disabled, MigState::Enabled) => MigState::Transition,
        _ => MigState::Unknown,
    }
}

/// The aggregated mode of the fleet.
///
/// The distinct current modes and the distinct pending modes are collected.
/// Unless each collection holds exactly one mode the result is `Unknown`;
/// otherwise it is what the two modes resolve to.
pub open spec fn aggregate_mode(fleet: Seq<GpuModeRecordView>) -> MigState {
    let current = current_modes(fleet).to_set();
    let pending = pending_modes(fleet).to_set();
    if current.len() == 1 && pending.len() == 1 {
        resolve_pair(current.choose(), pending.choose())
    } else {
        MigState::Unknown
    }
}

/// All modes of a non-empty sequence are the same.
pub open spec fn all_same(modes: Seq<MigState>) -> bool {
    modes.len() > 0 && forall|i: int| 0 <= i < modes.len() ==> #[trigger] modes[i] == modes[0]
}

/// Every GPU of a non-empty fleet reports the same current and the same pending mode.
pub open spec fn fleet_agrees(fleet: Seq<GpuModeRecordView>) -> bool {
    all_same(current_modes(fleet)) && all_same(pending_modes(fleet))
}

/// A sequence has exactly one distinct mode if and only if it is not empty and
/// all its modes are the same; that mode is then its first.
pub proof fn lemma_one_distinct_mode(modes: Seq<MigState>)
    ensures
        modes.to_set().finite(),
        modes.to_set().len() == 1 <==> all_same(modes),
        all_same(modes) ==> modes.to_set().choose() == modes[0],
{
    let distinct = modes.to_set();
    vstd::seq_lib::seq_to_set_is_finite(modes);
    Set::lemma_is_singleton(distinct);
    if all_same(modes) {
        assert(distinct.contains(modes[0]));
        assert(distinct.is_singleton());
    }
    if distinct.len() == 1 {
        assert(distinct.contains(distinct.choose()));
        assert forall|i: int| 0 <= i < modes.len() implies #[trigger] modes[i] == modes[0] by {
            assert(distinct.contains(modes[i]) && distinct.contains(modes[0]));
        }
    }
}

/// The aggregated mode resolves the first GPU's pair if the fleet agrees, and
/// is `Unknown` if it does not.
pub proof fn lemma_aggregate_by_agreement(fleet: Seq<GpuModeRecordView>)
    ensures
        fleet_agrees(fleet) ==> aggregate_mode(fleet) == resolve_pair(
            fleet[0].current,
            fleet[0].pending,
        ),
        !fleet_agrees(fleet) ==> aggregate_mode(fleet) == MigState::Unknown,
{
    lemma_one_distinct_mode(current_modes(fleet));
    lemma_one_distinct_mode(pending_modes(fleet));
}

/// Every GPU of the fleet reports this current and this pending mode.
pub open spec fn every_gpu_reports(
    fleet: Seq<GpuModeRecordView>,
    current: MigState,
    pending: MigState,
) -> bool {
    forall|i: int|
        0 <= i < fleet.len() ==> (#[trigger] fleet[i]).current == current && fleet[i].pending
            == pending
}

/// The pair is one of the three that resolve to a mode other than `Unknown`.
pub open spec fn pair_resolves(current: MigState, pending: MigState) -> bool {
    ||| current == MigState::Enabled && pending == MigState::Enabled
    ||| current == MigState::Disabled && pending == MigState::Disabled
    ||| current == MigState::Disabled && pending == MigState::Enabled
}

/// A non-empty fleet whose GPUs all report one pair aggregates to what that
/// pair resolves to.
pub proof fn lemma_uniform_fleet(fleet: Seq<GpuModeRecordView>, current: MigState, pending: MigState)
    requires
        fleet.len() > 0,
        every_gpu_reports(fleet, current, pending),
    ensures
        aggregate_mode(fleet) == resolve_pair(current, pending),
{
    assert(all_same(current_modes(fleet)));
    assert(all_same(pending_modes(fleet)));
    lemma_aggregate_by_agreement(fleet);
}

/// The order of the GPUs in the snapshot matters neither to capability nor
/// to the aggregated mode: two snapshots that hold the same records, each as
/// often as the other, are analyzed alike.
pub proof fn lemma_order_is_irrelevant(a: Seq<GpuModeRecordView>, b: Seq<GpuModeRecordView>)
    requires
        a.to_multiset() == b.to_multiset(),
    ensures
        fleet_is_capable(a) == fleet_is_capable(b),
        aggregate_mode(a) == aggregate_mode(b),
{
    lemma_same_records(a, b);
    lemma_same_records(b, a);
    assert(current_modes(a).to_set() =~= current_modes(b).to_set()) by {
        assert forall|m: MigState| current_modes(a).contains(m) <==> current_modes(b).contains(
            m,
        ) by {
            if current_modes(a).contains(m) {
                let i = choose|i: int| 0 <= i < a.len() && current_modes(a)[i] == m;
                let j = choose|j: int| 0 <= j < b.len() && b[j] == a[i];
                assert(current_modes(b)[j] == m);
            }
            if current_modes(b).contains(m) {
                let i = choose|i: int| 0 <= i < b.len() && current_modes(b)[i] == m;
                let j = choose|j: int| 0 <= j < a.len() && a[j] == b[i];
                assert(current_modes(a)[j] == m);
            }
        }
    }
    assert(pending_modes(a).to_set() =~= pending_modes(b).to_set()) by {
        assert forall|m: MigState| pending_modes(a).contains(m) <==> pending_modes(b).contains(
            m,
        ) by {
            if pending_modes(a).contains(m) {
                let i = choose|i: int| 0 <= i < a.len() && pending_modes(a)[i] == m;
                let j = choose|j: int| 0 <= j < b.len() && b[j] == a[i];
                assert(pending_modes(b)[j] == m);
            }
            if pending_modes(b).contains(m) {
                let i = choose|i: int| 0 <= i < b.len() && pending_modes(b)[i] == m;
                let j = choose|j: int| 0 <= j < a.len() && a[j] == b[i];
                assert(pending_modes(a)[j] == m);
            }
        }
    }
    if fleet_is_capable(a) {
        let i = choose|i: int| 0 <= i < a.len() && record_is_capable(#[trigger] a[i]);
        let j = choose|j: int| 0 <= j < b.len() && b[j] == a[i];
        assert(record_is_capable(b[j]));
    }
    if fleet_is_capable(b) {
        let i = choose|i: int| 0 <= i < b.len() && record_is_capable(#[trigger] b[i]);
        let j = choose|j: int| 0 <= j < a.len() && a[j] == b[i];
        assert(record_is_capable(a[j]));
    }
}

/// Every record of `a` also stands somewhere in `b` if both hold the same records.
proof fn lemma_same_records(a: Seq<GpuModeRecordView>, b: Seq<GpuModeRecordView>)
    requires
        a.to_multiset() == b.to_multiset(),
    ensures
        forall|i: int| 0 <= i < a.len() ==> b.contains(#[trigger] a[i]),
{
    assert forall|i: int| 0 <= i < a.len() implies b.contains(#[trigger] a[i]) by {
        vstd::seq_lib::to_multiset_contains(a, a[i]);
        vstd::seq_lib::to_multiset_contains(b, a[i]);
    }
}

/// The empty fleet is not MIG-capable, and its mode is `Unknown`.
pub proof fn lemma_empty_fleet()
    ensures
        !fleet_is_capable(Seq::empty()),
        aggregate_mode(Seq::empty()) == MigState::Unknown,
{
    lemma_aggregate_by_agreement(Seq::empty());
}

/// If every GPU reports `Disabled` for now and for after the reboot, the
/// fleet is `Disabled`.
pub proof fn lemma_all_disabled(fleet: Seq<GpuModeRecordView>)
    requires
        fleet.len() > 0,
        every_gpu_reports(fleet, MigState::Disabled, MigState::Disabled),
    ensures
        aggregate_mode(fleet) == MigState::Disabled,
{
    lemma_uniform_fleet(fleet, MigState::Disabled, MigState::Disabled);
}

/// If every GPU reports `Enabled` for now and for after the reboot, the
/// fleet is `Enabled`.
pub proof fn lemma_all_enabled(fleet: Seq<GpuModeRecordView>)
    requires
        fleet.len() > 0,
        every_gpu_reports(fleet, MigState::Enabled, MigState::Enabled),
    ensures
        aggregate_mode(fleet) == MigState::Enabled,
{
    lemma_uniform_fleet(fleet, MigState::Enabled, MigState::Enabled);
}

/// If every GPU reports `Disabled` for now and `Enabled` for after the
/// reboot, the fleet is in `Transition`.
pub proof fn lemma_all_enabling(fleet: Seq<GpuModeRecordView>)
    requires
        fleet.len() > 0,
        every_gpu_reports(fleet, MigState::Disabled, MigState::Enabled),
    ensures
        aggregate_mode(fleet) == MigState::Transition,
{
    lemma_uniform_fleet(fleet, MigState::Disabled, MigState::Enabled);
}

/// Two GPUs that differ in their current mode, or in their pending mode,
/// make the fleet `Unknown`.
pub proof fn lemma_mixed_fleet_is_unknown(fleet: Seq<GpuModeRecordView>, i: int, j: int)
    requires
        0 <= i < fleet.len(),
        0 <= j < fleet.len(),
        fleet[i].current != fleet[j].current || fleet[i].pending != fleet[j].pending,
    ensures
        aggregate_mode(fleet) == MigState::Unknown,
{
    assert(current_modes(fleet)[i] == fleet[i].current);
    assert(current_modes(fleet)[j] == fleet[j].current);
    assert(pending_modes(fleet)[i] == fleet[i].pending);
    assert(pending_modes(fleet)[j] == fleet[j].pending);
    lemma_aggregate_by_agreement(fleet);
}

/// A pair on which all GPUs agree but which is none of the three that
/// resolve makes the fleet `Unknown`. So does the empty fleet.
pub proof fn lemma_unresolved_pair_is_unknown(
    fleet: Seq<GpuModeRecordView>,
    current: MigState,
    pending: MigState,
)
    requires
        every_gpu_reports(fleet, current, pending),
        !pair_resolves(current, pending),
    ensures
        aggregate_mode(fleet) == MigState::Unknown,
{
    if fleet.len() > 0 {
        lemma_uniform_fleet(fleet, current, pending);
    } else {
        lemma_aggregate_by_agreement(fleet);
    }
}

/// The fleet has a mode other than `Unknown` exactly when it is not empty and
/// all its GPUs agree on a pair that resolves.
pub proof fn lemma_known_mode(fleet: Seq<GpuModeRecordView>)
    ensures
        aggregate_mode(fleet) != MigState::Unknown <==> fleet_agrees(fleet) && pair_resolves(
            fleet[0].current,
            fleet[0].pending,
        ),
{
    lemma_aggregate_by_agreement(fleet);
}

/// Tells whether any GPU of the snapshot reports a known MIG mode.
///
/// An empty snapshot is not capable.
pub fn is_mig_capable(modes: &[GpuModeRecord]) -> (capable: bool)
    ensures
        capable == fleet_is_capable(modes.deep_view()),
{
    let ghost fleet = modes.deep_view();
    let mut i: usize = 0;
    while i < modes.len()
        invariant
            i <= modes.len(),
            fleet == modes.deep_view(),
            forall|j: int| 0 <= j < i ==> !record_is_capable(#[trigger] fleet[j]),
        decreases modes.len() - i,
    {
        // One capable GPU settles it: the fleet is taken to be homogeneous.
        if modes[i].current != MigState::Unknown || modes[i].pending != MigState::Unknown {
            assert(record_is_capable(fleet[i as int]));
            return true;
        }
        i += 1;
    }
    false
}

/// Computes what a current and a pending mode shared by all GPUs resolve to.
pub fn resolve(current: MigState, pending: MigState) -> (mode: MigState)
    ensures
        mode == resolve_pair(current, pending),
{
    match (current, pending) {
        (MigState::Enabled, MigState::Enabled) => MigState::Enabled,
        (MigState::Disabled, MigState::Disabled) => MigState::Disabled,
        (MigState::Disabled, MigState::Enabled) => MigState::Transition,
        _ => MigState::Unknown,
    }
}

/// Aggregates the readings of all GPUs into the one mode of the fleet.
///
/// An empty snapshot, and any disagreement between GPUs, gives `Unknown`.
pub fn get_mig_mode(modes: &[GpuModeRecord]) -> (mode: MigState)
    ensures
        mode == aggregate_mode(modes.deep_view()),
{
    let ghost fleet = modes.deep_view();
    if modes.len() == 0 {
        proof {
            lemma_aggregate_by_agreement(fleet);
        }
        return MigState::Unknown;
    }
    let current = modes[0].current;
    let pending = modes[0].pending;
    let mut i: usize = 1;
    while i < modes.len()
        invariant
            1 <= i <= modes.len(),
            fleet == modes.deep_view(),
            every_gpu_reports(fleet.take(i as int), current, pending),
        decreases modes.len() - i,
    {
        if modes[i].current != current || modes[i].pending != pending {
            proof {
                assert(fleet.take(i as int)[0] == fleet[0]);
                lemma_mixed_fleet_is_unknown(fleet, 0, i as int);
            }
            return MigState::Unknown;
        }
        proof {
            assert(fleet.take(i + 1) =~= fleet.take(i as int).push(fleet[i as int]));
        }
        i += 1;
    }
    proof {
        assert(fleet.take(i as int) =~= fleet);
        lemma_uniform_fleet(fleet, current, pending);
    }
    resolve(current, pending)
}

/// Analyzes a snapshot: whether the fleet is MIG-capable, and its aggregated mode.
pub fn analyze_mig_status(mig_modes: &Vec<GpuModeRecord>) -> (status: (bool, MigState))
    ensures
        status.0 == fleet_is_capable(mig_modes.deep_view()),
        status.1 == aggregate_mode(mig_modes.deep_view()),
{
    let is_mig_capable = is_mig_capable(mig_modes.as_slice());
    let overall_mig_mode = get_mig_mode(mig_modes.as_slice());
    (is_mig_capable, overall_mig_mode)
}

} // verus!
