use vstd::prelude::*;

use crate::address::{display_name, display_name_spec};
use crate::error::{Error, ErrorSpec};
use crate::state::{DiscoveryState, DiscoveryStateSpec};

verus! {

/// The transport a discovery scan listens on.
#[derive(Clone, Copy, Debug, PartialEq, Eq, Structural)]
pub enum Transport {
    Auto,
    Classic,
    LowEnergy,
}

/// Everything the engine reacts to: adapter hot-plug, the adapter's device
/// stream, the per-device change streams, the two control signals, and the
/// exhaustion of all sources. The caller delivers these one at a time, in
/// the order its locks serialize them.
#[derive(Debug)]
pub enum Event {
    /// An adapter appeared; `bind_ok` says whether binding it succeeded.
    AdapterAdded { bind_ok: bool },
    /// The bound adapter disappeared.
    AdapterRemoved,
    /// The discovery stream reported a new device, with its advertised
    /// name, if any.
    DeviceAdded { addr: u64, name: Option<String> },
    /// The discovery stream reported that a device went away.
    DeviceRemoved { addr: u64 },
    /// A followed device reported a property change.
    DeviceChanged { addr: u64 },
    /// The timer task for operation `op` fired.
    TimeoutFired { op: u64 },
    /// The cancel signal armed for operation `op` was received.
    CancelFired { op: u64 },
    /// Every event source ended with no signal pending.
    SourcesExhausted,
}

/// Spec-level image of an [`Event`].
pub enum EventSpec {
    AdapterAdded { bind_ok: bool },
    AdapterRemoved,
    DeviceAdded { addr: u64, name: Option<Seq<char>> },
    DeviceRemoved { addr: u64 },
    DeviceChanged { addr: u64 },
    TimeoutFired { op: u64 },
    CancelFired { op: u64 },
    SourcesExhausted,
}

impl View for Event {
    type V = EventSpec;

    open spec fn view(&self) -> EventSpec {
        match self {
            Event::AdapterAdded { bind_ok } => EventSpec::AdapterAdded { bind_ok: *bind_ok },
            Event::AdapterRemoved => EventSpec::AdapterRemoved,
            Event::DeviceAdded { addr, name } => EventSpec::DeviceAdded {
                addr: *addr,
                name: name.deep_view(),
            },
            Event::DeviceRemoved { addr } => EventSpec::DeviceRemoved { addr: *addr },
            Event::DeviceChanged { addr } => EventSpec::DeviceChanged { addr: *addr },
            Event::TimeoutFired { op } => EventSpec::TimeoutFired { op: *op },
            Event::CancelFired { op } => EventSpec::CancelFired { op: *op },
            Event::SourcesExhausted => EventSpec::SourcesExhausted,
        }
    }
}

/// Everything a step may put out, in order: the observer notifications
/// (discovered device, discovery stopped, adapter availability) and the
/// log-only records the engine writes for device removal and property
/// changes. Errors travel separately, as the results of the entry points.
#[derive(Debug)]
pub enum Emit {
    /// Observer notification: a device was discovered, under this display
    /// name.
    DeviceDiscovered { name: String, addr: u64 },
    /// Observer notification: the discovery operation stopped.
    DiscoveryStopped,
    /// Observer notification: adapter availability changed.
    AdapterEnabledChanged { enabled: bool },
    /// Log-only record: a followed device changed a property.
    DeviceChangedLog { addr: u64 },
    /// Log-only record: the discovery stream reported a device removal.
    DeviceRemovedLog { addr: u64 },
}

/// Spec-level image of an [`Emit`].
pub enum EmitSpec {
    DeviceDiscovered { name: Seq<char>, addr: u64 },
    DiscoveryStopped,
    AdapterEnabledChanged { enabled: bool },
    DeviceChangedLog { addr: u64 },
    DeviceRemovedLog { addr: u64 },
}

impl View for Emit {
    type V = EmitSpec;

    open spec fn view(&self) -> EmitSpec {
        match self {
            Emit::DeviceDiscovered { name, addr } => EmitSpec::DeviceDiscovered {
                name: name@,
                addr: *addr,
            },
            Emit::DiscoveryStopped => EmitSpec::DiscoveryStopped,
            Emit::AdapterEnabledChanged { enabled } => EmitSpec::AdapterEnabledChanged {
                enabled: *enabled,
            },
            Emit::DeviceChangedLog { addr } => EmitSpec::DeviceChangedLog { addr: *addr },
            Emit::DeviceRemovedLog { addr } => EmitSpec::DeviceRemovedLog { addr: *addr },
        }
    }
}

/// What one step asks its caller to do, beyond updating the engine: deliver
/// the emits in order, attach the change stream of a newly discovered
/// device, apply the discovery filter after a successful bind, send on an
/// armed cancel signal, abort the timer task, and leave the multiplexing
/// loop.
pub struct StepResult {
    pub emits: Vec<Emit>,
    pub follow: Option<u64>,
    pub apply_filter: bool,
    pub signal_cancel: Option<u64>,
    pub abort_timer: bool,
    pub stopped: bool,
}

/// Spec-level image of a [`StepResult`].
#[verifier::ext_equal]
pub struct StepResultSpec {
    pub emits: Seq<EmitSpec>,
    pub follow: Option<u64>,
    pub apply_filter: bool,
    pub signal_cancel: Option<u64>,
    pub abort_timer: bool,
    pub stopped: bool,
}

impl View for StepResult {
    type V = StepResultSpec;

    open spec fn view(&self) -> StepResultSpec {
        StepResultSpec {
            emits: self.emits@.map_values(|e: Emit| e@),
            follow: self.follow,
            apply_filter: self.apply_filter,
            signal_cancel: self.signal_cancel,
            abort_timer: self.abort_timer,
            stopped: self.stopped,
        }
    }
}

/// Spec-level image of the whole engine.
#[verifier::ext_equal]
pub struct EngineSpec {
    pub adapter_bound: bool,
    pub state: DiscoveryStateSpec,
    pub next_op: u64,
    pub followed: Seq<u64>,
}

impl EngineSpec {
    /// The engine as it stands before the first adapter event: no adapter,
    /// no running operation, no followed devices.
    pub open spec fn init() -> EngineSpec {
        EngineSpec {
            adapter_bound: false,
            state: DiscoveryStateSpec { timeout: None, cancel: None },
            next_op: 0,
            followed: Seq::empty(),
        }
    }

    /// Well-formedness: the two control signals are armed together for the
    /// same operation or not at all; an armed operation was numbered below
    /// the counter; and the set of followed devices is empty between
    /// operations (their subscriptions are dropped when discovery ends).
    pub open spec fn wf(self) -> bool {
        &&& self.state.consistent()
        &&& (self.state.timeout matches Some(k) ==> k < self.next_op)
        &&& (!self.state.armed() ==> self.followed.len() == 0)
    }
}

/// The outcome of one step: the engine afterwards, and what the caller is
/// asked to do.
#[verifier::ext_equal]
pub struct StepSpec {
    pub post: EngineSpec,
    pub result: StepResultSpec,
}

/// The result of a step that asks for nothing.
pub open spec fn quiet_result_spec() -> StepResultSpec {
    StepResultSpec {
        emits: Seq::empty(),
        follow: None,
        apply_filter: false,
        signal_cancel: None,
        abort_timer: false,
        stopped: false,
    }
}

/// A step that changes nothing and asks for nothing.
pub open spec fn quiet_step_spec(pre: EngineSpec) -> StepSpec {
    StepSpec { post: pre, result: quiet_result_spec() }
}

/// The result of a step that only writes one log record.
pub open spec fn log_result_spec(e: EmitSpec) -> StepResultSpec {
    StepResultSpec {
        emits: seq![e],
        follow: None,
        apply_filter: false,
        signal_cancel: None,
        abort_timer: false,
        stopped: false,
    }
}

/// A step that only writes one log record.
pub open spec fn log_step_spec(pre: EngineSpec, e: EmitSpec) -> StepSpec {
    StepSpec { post: pre, result: log_result_spec(e) }
}

/// The engine after the running operation ends: signals disarmed, followed
/// devices dropped.
pub open spec fn cleared(pre: EngineSpec) -> EngineSpec {
    EngineSpec {
        adapter_bound: pre.adapter_bound,
        state: DiscoveryStateSpec { timeout: None, cancel: None },
        next_op: pre.next_op,
        followed: Seq::empty(),
    }
}

/// The result of a step that ends the running operation: exactly one stop
/// notification, leave the loop, and abort the timer task if the end came
/// from an explicit cancel.
pub open spec fn stop_result(abort_timer: bool) -> StepResultSpec {
    StepResultSpec {
        emits: seq![EmitSpec::DiscoveryStopped],
        follow: None,
        apply_filter: false,
        signal_cancel: None,
        abort_timer: abort_timer,
        stopped: true,
    }
}

/// The engine's transition relation, one event at a time.
///
/// - An adapter attach rebinds the adapter, reapplies the discovery filter
///   on success, and notifies the observer of the new availability.
/// - An adapter detach clears the adapter, notifies the observer, and sends
///   on the cancel signal of the running operation, if one is armed: the
///   operation cannot continue without its adapter, and ends when that
///   signal is received.
/// - A newly reported device, while an operation runs and an adapter is
///   bound, is announced to the observer first and followed second, so the
///   observer never sees a change record for an unannounced device.
/// - Change and removal reports are log-only.
/// - The timeout signal, the cancel signal and source exhaustion each end
///   the running operation with exactly one stop notification; a signal
///   armed for an operation that already ended is ignored. Only an
///   explicit cancel asks for the timer task to be aborted.
pub open spec fn step_spec(pre: EngineSpec, ev: EventSpec) -> StepSpec {
    match ev {
        EventSpec::AdapterAdded { bind_ok } => StepSpec {
            post: EngineSpec { adapter_bound: bind_ok, ..pre },
            result: StepResultSpec {
                emits: seq![EmitSpec::AdapterEnabledChanged { enabled: bind_ok }],
                follow: None,
                apply_filter: bind_ok,
                signal_cancel: None,
                abort_timer: false,
                stopped: false,
            },
        },
        EventSpec::AdapterRemoved => StepSpec {
            post: EngineSpec { adapter_bound: false, ..pre },
            result: StepResultSpec {
                emits: seq![EmitSpec::AdapterEnabledChanged { enabled: false }],
                follow: None,
                apply_filter: false,
                signal_cancel: pre.state.cancel,
                abort_timer: false,
                stopped: false,
            },
        },
        EventSpec::DeviceAdded { addr, name } => if pre.state.armed() && pre.adapter_bound {
            StepSpec {
                post: EngineSpec { followed: pre.followed.push(addr), ..pre },
                result: StepResultSpec {
                    emits: seq![
                        EmitSpec::DeviceDiscovered { name: display_name_spec(name, addr), addr },
                    ],
                    follow: Some(addr),
                    apply_filter: false,
                    signal_cancel: None,
                    abort_timer: false,
                    stopped: false,
                },
            }
        } else {
            quiet_step_spec(pre)
        },
        EventSpec::DeviceRemoved { addr } => if pre.state.armed() {
            log_step_spec(pre, EmitSpec::DeviceRemovedLog { addr })
        } else {
            quiet_step_spec(pre)
        },
        EventSpec::DeviceChanged { addr } => if pre.state.armed() && pre.followed.contains(addr) {
            log_step_spec(pre, EmitSpec::DeviceChangedLog { addr })
        } else {
            quiet_step_spec(pre)
        },
        EventSpec::TimeoutFired { op } => if pre.state.timeout == Some(op) {
            StepSpec { post: cleared(pre), result: stop_result(false) }
        } else {
            quiet_step_spec(pre)
        },
        EventSpec::CancelFired { op } => if pre.state.cancel == Some(op) {
            StepSpec { post: cleared(pre), result: stop_result(true) }
        } else {
            quiet_step_spec(pre)
        },
        EventSpec::SourcesExhausted => if pre.state.armed() {
            StepSpec { post: cleared(pre), result: stop_result(false) }
        } else {
            quiet_step_spec(pre)
        },
    }
}

/// Every step keeps the engine well-formed.
pub proof fn lemma_step_preserves_wf(pre: EngineSpec, ev: EventSpec)
    requires
        pre.wf(),
    ensures
        step_spec(pre, ev).post.wf(),
{
}

/// Whether a discovery request must be rejected, and with which error: no
/// bound adapter means `AdapterNotAvailable`; an operation already running
/// means `DiscoveryNotPossible`.
pub open spec fn start_spec(pre: EngineSpec) -> Option<ErrorSpec> {
    if !pre.adapter_bound {
        Some(ErrorSpec::AdapterNotAvailable)
    } else if pre.state.armed() {
        Some(ErrorSpec::DiscoveryNotPossible)
    } else {
        None
    }
}

/// The engine right after a new operation is armed: both signals set for
/// the fresh operation number, no device followed yet.
pub open spec fn arm_spec(pre: EngineSpec) -> EngineSpec {
    EngineSpec {
        adapter_bound: pre.adapter_bound,
        state: DiscoveryStateSpec { timeout: Some(pre.next_op), cancel: Some(pre.next_op) },
        next_op: (pre.next_op + 1) as u64,
        followed: Seq::empty(),
    }
}

/// The discovery orchestration engine: the bound adapter's availability,
/// the control signals of the running operation, the operation counter and
/// the devices followed within the running operation. The caller owns the
/// hardware and the clock; the engine owns every decision.
pub struct Engine {
    adapter_bound: bool,
    state: DiscoveryState,
    next_op: u64,
    followed: Vec<u64>,
}

impl View for Engine {
    type V = EngineSpec;

    closed spec fn view(&self) -> EngineSpec {
        EngineSpec {
            adapter_bound: self.adapter_bound,
            state: self.state@,
            next_op: self.next_op,
            followed: self.followed@,
        }
    }
}

/// Whether a list of followed devices holds the address.
fn followed_contains(v: &Vec<u64>, addr: u64) -> (b: bool)
    ensures
        b == v@.contains(addr),
{
    let mut i: usize = 0;
    while i < v.len()
        invariant
            i <= v@.len(),
            forall|j: int| 0 <= j < i ==> v@[j] != addr,
        decreases v@.len() - i,
    {
        if v[i] == addr {
            assert(v@[i as int] == addr);
            return true;
        }
        i = i + 1;
    }
    assert(!v@.contains(addr));
    false
}

impl Engine {
    /// A fresh engine, before the first adapter event.
    pub fn new() -> (e: Engine)
        ensures
            e@ == EngineSpec::init(),
            e@.wf(),
    {
        let e = Engine {
            adapter_bound: false,
            state: DiscoveryState::new(),
            next_op: 0,
            followed: Vec::new(),
        };
        proof {
            assert(e@ =~= EngineSpec::init());
        }
        e
    }

    /// Builds the engine at process start: binding the default adapter is
    /// best-effort, so the engine starts from the attach event that reports
    /// whether a bind succeeded, and the first step already notifies the
    /// observer of the adapter's availability.
    pub fn initialize(adapter_present: bool) -> (r: (Engine, StepResult))
        ensures
            r.0@ == step_spec(
                EngineSpec::init(),
                EventSpec::AdapterAdded { bind_ok: adapter_present },
            ).post,
            r.1@ == step_spec(
                EngineSpec::init(),
                EventSpec::AdapterAdded { bind_ok: adapter_present },
            ).result,
            r.0@.wf(),
    {
        let mut e = Engine::new();
        let sr = e.handle_event(Event::AdapterAdded { bind_ok: adapter_present });
        (e, sr)
    }

    /// The fixed discovery filter to apply to the bound adapter, so scans
    /// are reproducible: the classic transport, exactly when an adapter is
    /// bound.
    pub fn discovery_filter(&self) -> (r: Option<Transport>)
        ensures
            r == if self@.adapter_bound {
                Some(Transport::Classic)
            } else {
                None::<Transport>
            },
    {
        if self.adapter_bound {
            Some(Transport::Classic)
        } else {
            None
        }
    }

    /// Decides whether a discovery operation may start now. A missing
    /// adapter and an operation already running are each rejected with
    /// their own error; on `Ok` the caller may request the device stream
    /// and then arm the operation.
    pub fn start_discovery(&self) -> (r: Result<(), Error>)
        ensures
            r is Ok <==> start_spec(self@) is None,
            r matches Err(e) ==> start_spec(self@) == Some(e@),
    {
        if !self.adapter_bound {
            Err(Error::AdapterNotAvailable)
        } else if self.state.timeout_signal().is_some() {
            Err(Error::DiscoveryNotPossible)
        } else {
            Ok(())
        }
    }

    /// Arms a fresh operation: both control signals are set for a new
    /// operation number and no device is followed yet. The caller starts
    /// the timer task for the returned operation and enters the
    /// multiplexing loop.
    pub fn arm_discovery(&mut self) -> (op: u64)
        requires
            old(self)@.wf(),
            old(self)@.adapter_bound,
            !old(self)@.state.armed(),
            old(self)@.next_op < u64::MAX,
        ensures
            op == old(self)@.next_op,
            final(self)@ == arm_spec(old(self)@),
            final(self)@.wf(),
    {
        let op = self.next_op;
        self.next_op = self.next_op + 1;
        self.state = DiscoveryState::set(op);
        self.followed = Vec::new();
        proof {
            assert(self@ =~= arm_spec(old(self)@));
        }
        op
    }

    /// Reacts to one event, as [`step_spec`] lays down.
    pub fn handle_event(&mut self, ev: Event) -> (r: StepResult)
        requires
            old(self)@.wf(),
        ensures
            final(self)@ == step_spec(old(self)@, ev@).post,
            r@ == step_spec(old(self)@, ev@).result,
            final(self)@.wf(),
    {
        proof {
            lemma_step_preserves_wf(old(self)@, ev@);
        }
        match ev {
            Event::AdapterAdded { bind_ok } => {
                self.adapter_bound = bind_ok;
                let mut emits: Vec<Emit> = Vec::new();
                emits.push(Emit::AdapterEnabledChanged { enabled: bind_ok });
                let r = StepResult {
                    emits,
                    follow: None,
                    apply_filter: bind_ok,
                    signal_cancel: None,
                    abort_timer: false,
                    stopped: false,
                };
                proof {
                    assert(r@ =~= step_spec(old(self)@, ev@).result);
                    assert(self@ =~= step_spec(old(self)@, ev@).post);
                }
                r
            }
            Event::AdapterRemoved => {
                let signal = self.state.cancel_signal();
                self.adapter_bound = false;
                let mut emits: Vec<Emit> = Vec::new();
                emits.push(Emit::AdapterEnabledChanged { enabled: false });
                let r = StepResult {
                    emits,
                    follow: None,
                    apply_filter: false,
                    signal_cancel: signal,
                    abort_timer: false,
                    stopped: false,
                };
                proof {
                    assert(r@ =~= step_spec(old(self)@, ev@).result);
                    assert(self@ =~= step_spec(old(self)@, ev@).post);
                }
                r
            }
            Event::DeviceAdded { addr, name } => {
                if self.state.timeout_signal().is_some() && self.adapter_bound {
                    let display = display_name(name, addr);
                    self.followed.push(addr);
                    let mut emits: Vec<Emit> = Vec::new();
                    emits.push(Emit::DeviceDiscovered { name: display, addr });
                    let r = StepResult {
                        emits,
                        follow: Some(addr),
                        apply_filter: false,
                        signal_cancel: None,
                        abort_timer: false,
                        stopped: false,
                    };
                    proof {
                        assert(r@ =~= step_spec(old(self)@, ev@).result);
                        assert(self@ =~= step_spec(old(self)@, ev@).post);
                    }
                    r
                } else {
                    let r = Self::quiet_result();
                    proof {
                        assert(r@ =~= step_spec(old(self)@, ev@).result);
                        assert(self@ =~= step_spec(old(self)@, ev@).post);
                    }
                    r
                }
            }
            Event::DeviceRemoved { addr } => {
                if self.state.timeout_signal().is_some() {
                    let r = Self::log_result(Emit::DeviceRemovedLog { addr });
                    proof {
                        assert(r@ =~= step_spec(old(self)@, ev@).result);
                        assert(self@ =~= step_spec(old(self)@, ev@).post);
                    }
                    r
                } else {
                    let r = Self::quiet_result();
                    proof {
                        assert(r@ =~= step_spec(old(self)@, ev@).result);
                        assert(self@ =~= step_spec(old(self)@, ev@).post);
                    }
                    r
                }
            }
            Event::DeviceChanged { addr } => {
                if self.state.timeout_signal().is_some() && followed_contains(
                    &self.followed,
                    addr,
                ) {
                    let r = Self::log_result(Emit::DeviceChangedLog { addr });
                    proof {
                        assert(r@ =~= step_spec(old(self)@, ev@).result);
                        assert(self@ =~= step_spec(old(self)@, ev@).post);
                    }
                    r
                } else {
                    let r = Self::quiet_result();
                    proof {
                        assert(r@ =~= step_spec(old(self)@, ev@).result);
                        assert(self@ =~= step_spec(old(self)@, ev@).post);
                    }
                    r
                }
            }
            Event::TimeoutFired { op } => {
                let fire = match self.state.timeout_signal() {
                    Some(k) => k == op,
                    None => false,
                };
                if fire {
                    let r = self.end_operation(false);
                    proof {
                        assert(r@ =~= step_spec(old(self)@, ev@).result);
                        assert(self@ =~= step_spec(old(self)@, ev@).post);
                    }
                    r
                } else {
                    let r = Self::quiet_result();
                    proof {
                        assert(r@ =~= step_spec(old(self)@, ev@).result);
                        assert(self@ =~= step_spec(old(self)@, ev@).post);
                    }
                    r
                }
            }
            Event::CancelFired { op } => {
                let fire = match self.state.cancel_signal() {
                    Some(k) => k == op,
                    None => false,
                };
                if fire {
                    let r = self.end_operation(true);
                    proof {
                        assert(r@ =~= step_spec(old(self)@, ev@).result);
                        assert(self@ =~= step_spec(old(self)@, ev@).post);
                    }
                    r
                } else {
                    let r = Self::quiet_result();
                    proof {
                        assert(r@ =~= step_spec(old(self)@, ev@).result);
                        assert(self@ =~= step_spec(old(self)@, ev@).post);
                    }
                    r
                }
            }
            Event::SourcesExhausted => {
                if self.state.timeout_signal().is_some() {
                    let r = self.end_operation(false);
                    proof {
                        assert(r@ =~= step_spec(old(self)@, ev@).result);
                        assert(self@ =~= step_spec(old(self)@, ev@).post);
                    }
                    r
                } else {
                    let r = Self::quiet_result();
                    proof {
                        assert(r@ =~= step_spec(old(self)@, ev@).result);
                        assert(self@ =~= step_spec(old(self)@, ev@).post);
                    }
                    r
                }
            }
        }
    }

    /// Ends the running operation: disarm both signals, drop the followed
    /// devices, put out the single stop notification.
    fn end_operation(&mut self, abort_timer: bool) -> (r: StepResult)
        ensures
            final(self)@ == cleared(old(self)@),
            r@ == stop_result(abort_timer),
    {
        self.state.clear();
        self.followed = Vec::new();
        let mut emits: Vec<Emit> = Vec::new();
        emits.push(Emit::DiscoveryStopped);
        let r = StepResult {
            emits,
            follow: None,
            apply_filter: false,
            signal_cancel: None,
            abort_timer,
            stopped: true,
        };
        proof {
            assert(self@ =~= cleared(old(self)@));
            assert(r@ =~= stop_result(abort_timer));
        }
        r
    }

    /// A result that asks for nothing.
    fn quiet_result() -> (r: StepResult)
        ensures
            r@ == quiet_result_spec(),
    {
        let r = StepResult {
            emits: Vec::new(),
            follow: None,
            apply_filter: false,
            signal_cancel: None,
            abort_timer: false,
            stopped: false,
        };
        proof {
            assert(r@ =~= quiet_result_spec());
        }
        r
    }

    /// A result that only writes one log record.
    fn log_result(e: Emit) -> (r: StepResult)
        ensures
            r@ == log_result_spec(e@),
    {
        let ghost es = e@;
        let mut emits: Vec<Emit> = Vec::new();
        emits.push(e);
        let r = StepResult {
            emits,
            follow: None,
            apply_filter: false,
            signal_cancel: None,
            abort_timer: false,
            stopped: false,
        };
        proof {
            assert(r@.emits =~= seq![es]);
            assert(r@ =~= log_result_spec(es));
        }
        r
    }

    /// The cancellation entry point's decision: the operation whose cancel
    /// signal to send on, if one is armed. Cancelling while nothing runs is
    /// a silent no-op.
    pub fn cancel_discovery(&self) -> (r: Option<u64>)
        ensures
            r == self@.state.cancel,
    {
        self.state.cancel_signal()
    }

    /// The timer task's decision after its sleep: whether to send the
    /// timeout signal. It fires only if the operation it was started for is
    /// still the one armed.
    pub fn timer_fired(&self, op: u64) -> (send: bool)
        ensures
            send == (self@.state.timeout == Some(op)),
    {
        match self.state.timeout_signal() {
            Some(k) => k == op,
            None => false,
        }
    }

    /// Whether an adapter is currently bound.
    pub fn adapter_available(&self) -> (b: bool)
        ensures
            b == self@.adapter_bound,
    {
        self.adapter_bound
    }

    /// Whether a discovery operation is currently running.
    pub fn is_discovering(&self) -> (b: bool)
        ensures
            b == self@.state.armed(),
    {
        self.state.timeout_signal().is_some()
    }

    /// How many devices the running operation follows.
    pub fn followed_count(&self) -> (n: usize)
        ensures
            n == self@.followed.len(),
    {
        self.followed.len()
    }

    /// The connection probe's decision: a device's properties can be
    /// fetched exactly when an adapter is bound, independent of whether
    /// discovery is running.
    pub fn inspect_device(&self, addr: u64) -> (r: Result<u64, Error>)
        ensures
            self@.adapter_bound ==> r == Ok::<u64, Error>(addr),
            !self@.adapter_bound ==> (r matches Err(e) && e@ == ErrorSpec::AdapterNotAvailable),
    {
        if self.adapter_bound {
            Ok(addr)
        } else {
            Err(Error::AdapterNotAvailable)
        }
    }
}

} // verus!
