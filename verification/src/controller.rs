//! The poller controller: the start/stop lifecycle of the one live session.
//!
//! The controller models the protected session slot of the running program:
//! whether it holds a live session handle, and how many sampling threads have
//! ever been spawned. The caller that owns the real slot keeps the two in
//! step: on `Started` it spawns the sampling thread and stores its handle, on
//! `Stopping` it sets the cancellation flag of the handle it took out and
//! detaches a task that joins the thread, so stopping never blocks.

use vstd::prelude::*;

verus! {

/// What a start or stop command reports to its caller.
#[derive(Clone, Copy, Debug, PartialEq, Eq, Structural)]
pub enum ControlStatus {
    /// A start command found no active session and spawned one.
    Started,
    /// A start command found a session already active and did nothing.
    AlreadyRunning,
    /// A stop command took the active session and signalled it to cancel.
    Stopping,
    /// A stop command found no active session and did nothing.
    NotRunning,
}

impl ControlStatus {
    /// The report as the fixed status text of the control surface.
    pub fn message(&self) -> (s: &'static str)
        ensures
            *self is Started ==> s@ == "started"@,
            *self is AlreadyRunning ==> s@ == "already running"@,
            *self is Stopping ==> s@ == "stopping"@,
            *self is NotRunning ==> s@ == "not running"@,
    {
        match self {
            ControlStatus::Started => "started",
            ControlStatus::AlreadyRunning => "already running",
            ControlStatus::Stopping => "stopping",
            ControlStatus::NotRunning => "not running",
        }
    }
}

/// The controller's view of the session slot.
pub struct PollerController {
    /// Whether the slot holds a live session handle.
    pub active: bool,
    /// How many sampling threads have ever been spawned.
    pub spawned: Ghost<nat>,
}

/// The slot and spawn count after one start command: a new session is
/// spawned exactly when none was active.
pub open spec fn spec_start(active: bool, spawned: nat) -> (bool, nat) {
    if active {
        (true, spawned)
    } else {
        (true, spawned + 1)
    }
}

/// The slot and spawn count after one stop command: the slot is cleared and
/// no thread is ever spawned.
pub open spec fn spec_stop(active: bool, spawned: nat) -> (bool, nat) {
    (false, spawned)
}

/// The slot and spawn count after `n` consecutive start commands with no
/// intervening stop.
pub open spec fn spec_starts(active: bool, spawned: nat, n: nat) -> (bool, nat)
    decreases n,
{
    if n == 0 {
        (active, spawned)
    } else {
        let next = spec_start(active, spawned);
        spec_starts(next.0, next.1, (n - 1) as nat)
    }
}

impl PollerController {
    /// A controller with no active session and nothing spawned yet.
    pub fn new() -> (c: Self)
        ensures
            !c.active,
            c.spawned@ == 0,
    {
        PollerController { active: false, spawned: Ghost(0) }
    }

    /// Handle a start command: idempotent and non-destructive. When a
    /// session is already active it reports `AlreadyRunning` and changes
    /// nothing; otherwise it records the one new session and reports
    /// `Started` — only then does the caller spawn a sampling thread.
    pub fn on_start(&mut self) -> (r: ControlStatus)
        ensures
            (final(self).active, final(self).spawned@) == spec_start(old(self).active, old(self).spawned@),
            r == (if old(self).active { ControlStatus::AlreadyRunning } else { ControlStatus::Started }),
            old(self).active ==> *final(self) == *old(self),
    {
        if self.active {
            ControlStatus::AlreadyRunning
        } else {
            self.active = true;
            self.spawned = Ghost(self.spawned@ + 1);
            ControlStatus::Started
        }
    }

    /// Handle a stop command: idempotent. When a session is active it clears
    /// the slot — so a later start may proceed at once — and reports
    /// `Stopping`, without waiting for the sampling thread; when none is, it
    /// reports `NotRunning` and changes nothing.
    pub fn on_stop(&mut self) -> (r: ControlStatus)
        ensures
            (final(self).active, final(self).spawned@) == spec_stop(old(self).active, old(self).spawned@),
            r == (if old(self).active { ControlStatus::Stopping } else { ControlStatus::NotRunning }),
            !old(self).active ==> *final(self) == *old(self),
    {
        if self.active {
            self.active = false;
            ControlStatus::Stopping
        } else {
            ControlStatus::NotRunning
        }
    }

    /// Handle the combined control command of the control surface.
    pub fn on_control(&mut self, start: bool) -> (r: ControlStatus)
        ensures
            start ==> (final(self).active, final(self).spawned@) == spec_start(old(self).active, old(self).spawned@)
                && r == (if old(self).active { ControlStatus::AlreadyRunning } else { ControlStatus::Started }),
            !start ==> (final(self).active, final(self).spawned@) == spec_stop(old(self).active, old(self).spawned@)
                && r == (if old(self).active { ControlStatus::Stopping } else { ControlStatus::NotRunning }),
    {
        if start {
            self.on_start()
        } else {
            self.on_stop()
        }
    }
}

/// Single-session law: any run of one or more start commands with no
/// intervening stop leaves exactly one session active, and spawns exactly
/// one sampling thread when none was active at the outset and none at all
/// when one already was.
pub proof fn lemma_single_session(active: bool, spawned: nat, n: nat)
    requires
        n >= 1,
    ensures
        spec_starts(active, spawned, n).0,
        spec_starts(active, spawned, n).1 == spawned + (if active { 0int } else { 1int }),
    decreases n,
{
    let next = spec_start(active, spawned);
    if n == 1 {
        assert(spec_starts(next.0, next.1, 0) == next);
    } else {
        lemma_single_session(next.0, next.1, (n - 1) as nat);
    }
}

/// Idempotent-stop law: a stop command with no active session reports
/// `NotRunning` and has no effect on the slot or the spawn count, however
/// often it is repeated.
pub proof fn lemma_stop_idempotent(spawned: nat)
    ensures
        spec_stop(false, spawned) == (false, spawned),
        spec_stop(spec_stop(false, spawned).0, spec_stop(false, spawned).1) == spec_stop(false, spawned),
{
}

} // verus!
