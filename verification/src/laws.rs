use vstd::prelude::*;

use crate::engine::{
    lemma_step_preserves_wf, quiet_step_spec, start_spec, step_spec, EmitSpec, EngineSpec,
    EventSpec,
};
use crate::error::ErrorSpec;

verus! {

/// The outcome of a run: the engine at the end, and everything put out
/// along the way, in order.
#[verifier::ext_equal]
pub struct RunSpec {
    pub post: EngineSpec,
    pub emits: Seq<EmitSpec>,
}

/// Folds the transition relation over a sequence of events: the engine
/// handles them one at a time, in the order the caller's locks serialize
/// them.
pub open spec fn run_spec(s: EngineSpec, evs: Seq<EventSpec>) -> RunSpec
    decreases evs.len(),
{
    if evs.len() == 0 {
        RunSpec { post: s, emits: Seq::empty() }
    } else {
        let st = step_spec(s, evs[0]);
        let rest = run_spec(st.post, evs.drop_first());
        RunSpec { post: rest.post, emits: st.result.emits + rest.emits }
    }
}

/// Whether an emit is the discovered-device notification for `addr`.
pub open spec fn is_discovery_of(e: EmitSpec, addr: u64) -> bool {
    e matches EmitSpec::DeviceDiscovered { addr: a, .. } && a == addr
}

/// Whether an emit is any discovered-device notification.
pub open spec fn is_discovered(e: EmitSpec) -> bool {
    e is DeviceDiscovered
}

/// Whether an emit is the change record for `addr`.
pub open spec fn is_change_of(e: EmitSpec, addr: u64) -> bool {
    e == (EmitSpec::DeviceChangedLog { addr })
}

/// Whether an emit is the stop notification.
pub open spec fn is_stop(e: EmitSpec) -> bool {
    e is DiscoveryStopped
}

/// How many stop notifications a sequence of emits holds.
pub open spec fn count_stops(emits: Seq<EmitSpec>) -> nat
    decreases emits.len(),
{
    if emits.len() == 0 {
        0
    } else {
        (if is_stop(emits[0]) {
            1nat
        } else {
            0nat
        }) + count_stops(emits.drop_first())
    }
}

/// Stop notifications add up over concatenation.
pub proof fn lemma_count_stops_concat(a: Seq<EmitSpec>, b: Seq<EmitSpec>)
    ensures
        count_stops(a + b) == count_stops(a) + count_stops(b),
    decreases a.len(),
{
    if a.len() == 0 {
        assert(a + b =~= b);
    } else {
        assert((a + b).drop_first() =~= a.drop_first() + b);
        assert((a + b)[0] == a[0]);
        lemma_count_stops_concat(a.drop_first(), b);
    }
}

/// A sequence without a stop notification counts zero of them.
pub proof fn lemma_count_stops_zero(emits: Seq<EmitSpec>)
    requires
        forall|i: int| 0 <= i < emits.len() ==> !is_stop(#[trigger] emits[i]),
    ensures
        count_stops(emits) == 0,
    decreases emits.len(),
{
    if emits.len() > 0 {
        lemma_count_stops_zero(emits.drop_first());
    }
}

/// While no operation is armed, nothing arms one: a run from an unarmed
/// engine stays unarmed and puts out neither a discovered-device
/// notification nor a stop notification.
pub proof fn lemma_unarmed_run(s: EngineSpec, evs: Seq<EventSpec>)
    requires
        s.wf(),
        !s.state.armed(),
    ensures
        run_spec(s, evs).post.wf(),
        !run_spec(s, evs).post.state.armed(),
        forall|i: int|
            0 <= i < run_spec(s, evs).emits.len() ==> !is_discovered(
                #[trigger] run_spec(s, evs).emits[i],
            ) && !is_stop(run_spec(s, evs).emits[i]),
    decreases evs.len(),
{
    if evs.len() > 0 {
        let st = step_spec(s, evs[0]);
        lemma_step_preserves_wf(s, evs[0]);
        lemma_unarmed_run(st.post, evs.drop_first());
    }
}

/// No adapter, no discovery: a discovery request while no adapter is bound
/// is rejected with exactly the `AdapterNotAvailable` error, and — nothing
/// being armed — no later event can produce a discovered-device
/// notification.
pub proof fn lemma_no_adapter_no_discovery(s: EngineSpec, evs: Seq<EventSpec>)
    requires
        s.wf(),
        !s.adapter_bound,
        !s.state.armed(),
    ensures
        start_spec(s) == Some(ErrorSpec::AdapterNotAvailable),
        forall|i: int|
            0 <= i < run_spec(s, evs).emits.len() ==> !is_discovered(
                #[trigger] run_spec(s, evs).emits[i],
            ),
{
    lemma_unarmed_run(s, evs);
}

/// Every change record follows a discovery: a run can only put out the
/// change record of a device that was already followed at the start or
/// whose discovered-device notification came earlier in the same run.
pub proof fn lemma_changes_follow_discoveries(s: EngineSpec, evs: Seq<EventSpec>)
    ensures
        forall|j: int, a: u64|
            0 <= j < run_spec(s, evs).emits.len() && #[trigger] is_change_of(
                run_spec(s, evs).emits[j],
                a,
            ) ==> s.followed.contains(a) || exists|i: int|
                0 <= i < j && #[trigger] is_discovery_of(run_spec(s, evs).emits[i], a),
    decreases evs.len(),
{
    if evs.len() > 0 {
        let st = step_spec(s, evs[0]);
        let rest = run_spec(st.post, evs.drop_first());
        let emits = run_spec(s, evs).emits;
        let n = st.result.emits.len() as int;
        lemma_changes_follow_discoveries(st.post, evs.drop_first());
        assert forall|j: int, a: u64|
            0 <= j < emits.len() && #[trigger] is_change_of(emits[j], a) implies s.followed.contains(
            a,
        ) || exists|i: int| 0 <= i < j && #[trigger] is_discovery_of(emits[i], a) by {
            if j < n {
                // the step itself put the change record out; only a
                // device-change event does that, and only for a device
                // already followed
                assert(s.followed.contains(a));
            } else {
                let j2 = j - n;
                assert(emits[j] == rest.emits[j2]);
                assert(is_change_of(rest.emits[j2], a));
                if st.post.followed.contains(a) && !s.followed.contains(a) {
                    // the followed set grew this step, so the step was a
                    // device addition and its notification is the discovery
                    let idx = choose|idx: int|
                        0 <= idx < st.post.followed.len() && st.post.followed[idx] == a;
                    if idx < s.followed.len() {
                        assert(s.followed[idx] == a);
                        assert(false);
                    }
                    assert(is_discovery_of(emits[0], a));
                } else if !st.post.followed.contains(a) {
                    let i2 = choose|i2: int|
                        0 <= i2 < j2 && #[trigger] is_discovery_of(rest.emits[i2], a);
                    assert(emits[i2 + n] == rest.emits[i2]);
                    assert(is_discovery_of(emits[i2 + n], a));
                }
            }
        }
    }
}

/// Discovered before changed: within one operation — a run that starts
/// with no device followed — any change record for an address comes
/// strictly after that address's discovered-device notification.
pub proof fn lemma_discovered_before_changed(s: EngineSpec, evs: Seq<EventSpec>)
    requires
        s.followed == Seq::<u64>::empty(),
    ensures
        forall|j: int, a: u64|
            0 <= j < run_spec(s, evs).emits.len() && #[trigger] is_change_of(
                run_spec(s, evs).emits[j],
                a,
            ) ==> exists|i: int|
                0 <= i < j && #[trigger] is_discovery_of(run_spec(s, evs).emits[i], a),
{
    lemma_changes_follow_discoveries(s, evs);
}

/// Exactly one stop: from an armed engine, a run puts out one stop
/// notification when — and only when — a step ends the operation; while
/// the operation still runs the count is zero and the armed signals are
/// still the operation's own, and once it ended no further stop can
/// follow.
pub proof fn lemma_exactly_one_stop(s: EngineSpec, evs: Seq<EventSpec>)
    requires
        s.wf(),
        s.state.armed(),
    ensures
        count_stops(run_spec(s, evs).emits) == if run_spec(s, evs).post.state.armed() {
            0nat
        } else {
            1nat
        },
        run_spec(s, evs).post.state.armed() ==> run_spec(s, evs).post.state == s.state,
    decreases evs.len(),
{
    if evs.len() > 0 {
        let st = step_spec(s, evs[0]);
        let rest = run_spec(st.post, evs.drop_first());
        lemma_step_preserves_wf(s, evs[0]);
        lemma_count_stops_concat(st.result.emits, rest.emits);
        if st.post.state.armed() {
            assert(forall|i: int|
                0 <= i < st.result.emits.len() ==> !is_stop(#[trigger] st.result.emits[i]));
            lemma_count_stops_zero(st.result.emits);
            lemma_exactly_one_stop(st.post, evs.drop_first());
        } else {
            // this step ended the operation: its emits are exactly the one
            // stop notification, and nothing afterwards can stop again
            lemma_unarmed_run(st.post, evs.drop_first());
            lemma_count_stops_zero(rest.emits);
            assert(count_stops(st.result.emits) == 1) by {
                let e = st.result.emits;
                assert(e.len() == 1 && is_stop(e[0]));
                assert(e.drop_first().len() == 0);
                assert(count_stops(e.drop_first()) == 0);
            }
        }
    }
}

/// Cancel suppresses timeout: receiving the cancel signal of the armed
/// operation ends it with the one stop notification and asks for the timer
/// task to be aborted; a timeout signal of that operation arriving later
/// is ignored, a second cancel is a silent no-op, and no stop notification
/// ever follows.
pub proof fn lemma_cancel_suppresses_timeout(s: EngineSpec, k: u64, rest: Seq<EventSpec>)
    requires
        s.wf(),
        s.state.cancel == Some(k),
    ensures
        ({
            let st = step_spec(s, EventSpec::CancelFired { op: k });
            &&& st.result.emits == seq![EmitSpec::DiscoveryStopped]
            &&& st.result.abort_timer
            &&& st.result.stopped
            &&& !st.post.state.armed()
            &&& step_spec(st.post, EventSpec::TimeoutFired { op: k }) == quiet_step_spec(st.post)
            &&& step_spec(st.post, EventSpec::CancelFired { op: k }) == quiet_step_spec(st.post)
            &&& count_stops(run_spec(st.post, rest).emits) == 0
        }),
{
    let st = step_spec(s, EventSpec::CancelFired { op: k });
    lemma_step_preserves_wf(s, EventSpec::CancelFired { op: k });
    lemma_unarmed_run(st.post, rest);
    lemma_count_stops_zero(run_spec(st.post, rest).emits);
}

/// While no adapter is bound and none is attached, no device can be
/// announced: a run without an adapter-attach event from an unbound engine
/// puts out no discovered-device notification.
pub proof fn lemma_unbound_no_discovery(s: EngineSpec, evs: Seq<EventSpec>)
    requires
        !s.adapter_bound,
        forall|i: int| 0 <= i < evs.len() ==> !(#[trigger] evs[i] is AdapterAdded),
    ensures
        forall|i: int|
            0 <= i < run_spec(s, evs).emits.len() ==> !is_discovered(
                #[trigger] run_spec(s, evs).emits[i],
            ),
    decreases evs.len(),
{
    if evs.len() > 0 {
        let st = step_spec(s, evs[0]);
        assert(forall|i: int|
            0 <= i < evs.drop_first().len() ==> #[trigger] evs.drop_first()[i] == evs[i + 1]);
        lemma_unbound_no_discovery(st.post, evs.drop_first());
    }
}

/// Adapter removal aborts discovery: detaching the bound adapter notifies
/// the observer that the adapter is gone and sends on the armed
/// operation's cancel signal; until an adapter is attached again, no
/// discovered-device notification can follow, and the pending cancel ends
/// the operation with its single stop notification.
pub proof fn lemma_adapter_removal_aborts(s: EngineSpec, k: u64, evs: Seq<EventSpec>)
    requires
        s.wf(),
        s.adapter_bound,
        s.state.cancel == Some(k),
        forall|i: int| 0 <= i < evs.len() ==> !(#[trigger] evs[i] is AdapterAdded),
    ensures
        ({
            let st = step_spec(s, EventSpec::AdapterRemoved);
            &&& st.result.emits == seq![EmitSpec::AdapterEnabledChanged { enabled: false }]
            &&& st.result.signal_cancel == Some(k)
            &&& !st.post.adapter_bound
            &&& st.post.state == s.state
            &&& forall|i: int|
                0 <= i < run_spec(st.post, evs).emits.len() ==> !is_discovered(
                    #[trigger] run_spec(st.post, evs).emits[i],
                )
            &&& count_stops(run_spec(st.post, evs).emits) == if run_spec(
                st.post,
                evs,
            ).post.state.armed() {
                0nat
            } else {
                1nat
            }
        }),
{
    let st = step_spec(s, EventSpec::AdapterRemoved);
    lemma_step_preserves_wf(s, EventSpec::AdapterRemoved);
    lemma_unbound_no_discovery(st.post, evs);
    lemma_exactly_one_stop(st.post, evs);
}

/// Error isolation: a discovery request made while an operation already
/// runs is rejected with exactly the `DiscoveryNotPossible` error and
/// changes nothing, so the running operation still ends with its single
/// stop notification.
pub proof fn lemma_error_isolation(s: EngineSpec, evs: Seq<EventSpec>)
    requires
        s.wf(),
        s.adapter_bound,
        s.state.armed(),
    ensures
        start_spec(s) == Some(ErrorSpec::DiscoveryNotPossible),
        count_stops(run_spec(s, evs).emits) == if run_spec(s, evs).post.state.armed() {
            0nat
        } else {
            1nat
        },
{
    lemma_exactly_one_stop(s, evs);
}

} // verus!
