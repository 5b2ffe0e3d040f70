//! The wake signal: one slot that says "look again". Signals that arrive
//! before the dispatcher looks collapse into one, and a wait never lasts
//! longer than the idle timeout.

use vstd::prelude::*;

verus! {

/// How long a suspended dispatcher waits at most before it looks at the
/// store again, in seconds. A signal that was missed is made up for by this
/// bound.
pub const IDLE_TIMEOUT_SECS: u64 = 60;

/// Why a wait ended.
#[derive(Clone, Copy, Debug, PartialEq, Eq, Structural)]
pub enum Wake {
    /// A signal was pending; it is used up.
    Signalled,
    /// No signal came within the idle timeout.
    TimedOut,
}

/// The slot after a signal was raised: occupied, whatever it was before.
pub open spec fn raised(pending: bool) -> bool {
    true
}

/// The slot after the dispatcher looked at it: empty, whatever it was
/// before.
pub open spec fn taken(pending: bool) -> bool {
    false
}

/// What a look at the slot gives after `waited` seconds: a pending signal
/// wakes at once, the idle timeout wakes without one, and else the wait goes
/// on.
pub open spec fn poll_result(pending: bool, waited: u64) -> Option<Wake> {
    if pending {
        Some(Wake::Signalled)
    } else if waited >= IDLE_TIMEOUT_SECS {
        Some(Wake::TimedOut)
    } else {
        None
    }
}

/// A single-slot notification.
#[derive(Debug, PartialEq, Eq)]
pub struct WakeSignal {
    pending: bool,
}

impl View for WakeSignal {
    /// Whether a signal is pending.
    type V = bool;

    closed spec fn view(&self) -> bool {
        self.pending
    }
}

impl WakeSignal {
    /// A signal with nothing pending.
    pub fn new() -> (signal: WakeSignal)
        ensures
            !signal@,
    {
        WakeSignal { pending: false }
    }

    /// Whether a signal is pending.
    pub fn is_raised(&self) -> (pending: bool)
        ensures
            pending == self@,
    {
        self.pending
    }

    /// Raises the signal. Raising it again before it is taken changes
    /// nothing.
    pub fn notify(&mut self)
        ensures
            final(self)@ == raised(old(self)@),
    {
        self.pending = true;
    }

    /// Takes the pending signal, if there is one, and says whether there was.
    pub fn take(&mut self) -> (was_pending: bool)
        ensures
            was_pending == old(self)@,
            final(self)@ == taken(old(self)@),
    {
        let was_pending = self.pending;
        self.pending = false;
        was_pending
    }

    /// One look at the signal by a dispatcher that has waited `waited`
    /// seconds: says whether and why the wait ends, and uses up the signal.
    pub fn poll(&mut self, waited: u64) -> (wake: Option<Wake>)
        ensures
            wake == poll_result(old(self)@, waited),
            final(self)@ == taken(old(self)@),
    {
        if self.take() {
            Some(Wake::Signalled)
        } else if waited >= IDLE_TIMEOUT_SECS {
            Some(Wake::TimedOut)
        } else {
            None
        }
    }
}

/// Signals collapse: raising the signal twice is raising it once, the next
/// look wakes on it whenever it comes, and the look after that finds
/// nothing.
pub proof fn lemma_signals_coalesce(pending: bool, waited: u64)
    ensures
        raised(raised(pending)) == raised(pending),
        poll_result(raised(pending), waited) == Some(Wake::Signalled),
        poll_result(taken(raised(pending)), 0) == None::<Wake>,
{
}

/// No wait outlasts the idle timeout, whether or not a signal came.
pub proof fn lemma_wait_is_bounded(pending: bool, waited: u64)
    requires
        waited >= IDLE_TIMEOUT_SECS,
    ensures
        poll_result(pending, waited) is Some,
{
}

} // verus!
