//! The shutdown watcher's state machine. A termination-signal handler
//! does nothing but raise a process-wide flag; a background poller reads
//! the flag at a fixed short interval and forces process termination the
//! moment it finds the flag raised, whatever the copy loops are doing.

use vstd::prelude::*;

verus! {

/// The process-wide shutdown flag: false at startup, raised by the first
/// handled termination signal, never cleared. The signal handler's store
/// is the only write; the poller only reads.
#[derive(Debug)]
pub struct ShutdownFlag {
    /// Whether a termination signal has been handled.
    pub raised: bool,
}

impl ShutdownFlag {
    /// The flag at startup: not raised.
    pub fn new() -> (r: ShutdownFlag)
        ensures
            !r.raised,
    {
        ShutdownFlag { raised: false }
    }

    /// Raises the flag, as the signal handler's single store does. A flag
    /// once raised stays raised, however many signals follow.
    pub fn raise(&mut self)
        ensures
            final(self).raised,
    {
        self.raised = true;
    }
}

/// The watcher's lifecycle.
#[derive(Debug, Clone, Copy, PartialEq, Eq, Structural)]
pub enum WatcherState {
    /// Before the termination-signal handlers are installed.
    Idle,
    /// Handlers installed; the poller watches the flag.
    Armed,
    /// The poller has observed the raised flag.
    Triggered,
    /// The watcher has ordered immediate process termination.
    Exited,
}

/// One observation of the flag: an armed watcher that sees the flag
/// raised is triggered; otherwise it stays armed.
pub open spec fn spec_observe(s: WatcherState, flag_raised: bool) -> WatcherState {
    if s is Armed && flag_raised {
        WatcherState::Triggered
    } else {
        s
    }
}

/// What a triggered watcher does: it orders exit at once. An armed
/// watcher with no observation to act on keeps polling.
pub open spec fn spec_act(s: WatcherState) -> (WatcherState, bool) {
    if s is Triggered {
        (WatcherState::Exited, true)
    } else {
        (s, false)
    }
}

/// One full poll: observe the flag, then act on the observation.
pub open spec fn spec_poll(s: WatcherState, flag_raised: bool) -> (WatcherState, bool) {
    spec_act(spec_observe(s, flag_raised))
}

impl WatcherState {
    /// Installs the termination-signal handlers: the watcher is armed and
    /// the poller may start.
    pub fn arm(self) -> (r: WatcherState)
        requires
            self is Idle,
        ensures
            r is Armed,
    {
        WatcherState::Armed
    }

    /// One poll of the shutdown flag. Returns the watcher's next state
    /// and whether the process must be terminated now (with a failure
    /// exit status).
    pub fn poll(self, flag_raised: bool) -> (r: (WatcherState, bool))
        requires
            self is Armed || self is Triggered,
        ensures
            r == spec_poll(self, flag_raised),
            r.1 <==> (self is Triggered || flag_raised),
    {
        match self {
            WatcherState::Triggered => (WatcherState::Exited, true),
            _ => {
                if flag_raised {
                    (WatcherState::Exited, true)
                } else {
                    (WatcherState::Armed, false)
                }
            },
        }
    }
}

/// Law: once the shutdown flag is raised, the very next poll of an armed
/// (or already triggered) watcher orders process termination — shutdown
/// is honored within one polling interval, even while both copy loops
/// stay blocked in reads that never return.
pub proof fn lemma_exit_within_one_poll(s: WatcherState, flag_raised: bool)
    requires
        s is Armed || s is Triggered,
        flag_raised,
    ensures
        spec_poll(s, flag_raised).1,
        spec_poll(s, flag_raised).0 is Exited,
{
}

} // verus!
