use vstd::prelude::*;

verus! {

/// Spec-level image of a [`DiscoveryState`]: which operation, if any, each
/// of the two control signals is armed for.
pub struct DiscoveryStateSpec {
    pub timeout: Option<u64>,
    pub cancel: Option<u64>,
}

impl DiscoveryStateSpec {
    /// The data-model invariant: the two signals are armed together, for
    /// the same operation, or not at all — there is no partially-armed
    /// state.
    pub open spec fn consistent(self) -> bool {
        self.timeout == self.cancel
    }

    /// Whether a discovery operation is currently running.
    pub open spec fn armed(self) -> bool {
        self.timeout is Some
    }
}

/// The two control signals that can end a discovery operation. Each signal
/// is identified by the operation it was armed for, so a signal belonging
/// to an operation that has already ended is recognized and ignored.
pub struct DiscoveryState {
    timeout: Option<u64>,
    cancel: Option<u64>,
}

impl View for DiscoveryState {
    type V = DiscoveryStateSpec;

    closed spec fn view(&self) -> DiscoveryStateSpec {
        DiscoveryStateSpec { timeout: self.timeout, cancel: self.cancel }
    }
}

impl DiscoveryState {
    /// The idle state: no discovery operation is running.
    pub fn new() -> (s: Self)
        ensures
            s@.timeout is None,
            s@.cancel is None,
            s@.consistent(),
    {
        DiscoveryState { timeout: None, cancel: None }
    }

    /// Arms both control signals for the operation `op`.
    pub fn set(op: u64) -> (s: Self)
        ensures
            s@.timeout == Some(op),
            s@.cancel == Some(op),
            s@.consistent(),
    {
        DiscoveryState { timeout: Some(op), cancel: Some(op) }
    }

    /// Disarms both control signals: the running operation has ended.
    pub fn clear(&mut self)
        ensures
            final(self)@.timeout is None,
            final(self)@.cancel is None,
            final(self)@.consistent(),
    {
        self.timeout = None;
        self.cancel = None;
    }

    /// The operation the timeout signal is armed for, if any.
    pub fn timeout_signal(&self) -> (r: Option<u64>)
        ensures
            r == self@.timeout,
    {
        self.timeout
    }

    /// The operation the cancel signal is armed for, if any.
    pub fn cancel_signal(&self) -> (r: Option<u64>)
        ensures
            r == self@.cancel,
    {
        self.cancel
    }
}

} // verus!
