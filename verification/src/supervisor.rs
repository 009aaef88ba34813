use vstd::prelude::*;

use crate::error::Error;

verus! {

/// The completion state of one run: `Pending` and `Running` are live,
/// `Completed`, `Cancelled` and `Failed` are terminal.
#[derive(Debug)]
pub enum RunStatus {
    /// Created for a detected change; the command has not started yet.
    Pending,
    /// The command is executing.
    Running,
    /// The command ran to completion with this exit code. A non-zero code is
    /// still a completion: it is reported, and the loop continues.
    Completed(i32),
    /// Superseded by a newer change before reaching a terminal state.
    Cancelled,
    /// The command could not be started, or its outcome could not be
    /// captured; the error is kept for reporting.
    Failed(Error),
}

impl RunStatus {
    pub open spec fn is_terminal_spec(self) -> bool {
        self is Completed || self is Cancelled || self is Failed
    }

    /// Whether the run has reached a terminal state.
    pub fn is_terminal(&self) -> (r: bool)
        ensures
            r == self.is_terminal_spec(),
    {
        match self {
            RunStatus::Pending => false,
            RunStatus::Running => false,
            RunStatus::Completed(_) => true,
            RunStatus::Cancelled => true,
            RunStatus::Failed(_) => true,
        }
    }
}

/// One execution attempt of the command, identified by a monotonically
/// increasing sequence number.
#[derive(Debug)]
pub struct Run {
    /// Sequence number: the n-th detected change creates the run numbered n,
    /// counting from the number the supervisor was created with.
    pub seq: u64,
    /// The run's completion state.
    pub status: RunStatus,
}

/// Owns the lifecycle of the current run. The slot holds at most one run by
/// construction, so no two runs are ever simultaneously current; superseding
/// the occupant cancels it before the replacement is created.
#[derive(Debug)]
pub struct Supervisor {
    /// The current run slot: `None` is the idle state.
    pub current: Option<Run>,
    /// The sequence number the next run will take.
    pub next_seq: u64,
    /// The shell command every run executes; immutable after construction.
    pub command: String,
}

impl Supervisor {
    /// Well-formedness: the slot's occupant, if any, is live (a run that
    /// reaches a terminal state leaves the slot), and its sequence number is
    /// below the next to be issued.
    pub open spec fn wf(self) -> bool {
        self.current matches Some(r) ==> {
            &&& r.seq < self.next_seq
            &&& (r.status is Pending || r.status is Running)
        }
    }

    pub fn new(command: String) -> (s: Supervisor)
        ensures
            s.current is None,
            s.next_seq == 0,
            s.command@ == command@,
            s.wf(),
    {
        Supervisor { current: None, next_seq: 0, command }
    }

    /// What supersession leaves of the old occupant: it transitions to
    /// `Cancelled` unless it already reached a terminal state.
    pub open spec fn superseded_of(self) -> Option<Run> {
        match self.current {
            Option::None => Option::None,
            Option::Some(r) => Option::Some(
                Run {
                    seq: r.seq,
                    status: if r.status.is_terminal_spec() {
                        r.status
                    } else {
                        RunStatus::Cancelled
                    },
                },
            ),
        }
    }

    /// The supervisor state after one detected change is processed: a fresh
    /// `Pending` run with the next sequence number occupies the slot.
    pub open spec fn change_step(self) -> Supervisor {
        Supervisor {
            current: Option::Some(Run { seq: self.next_seq, status: RunStatus::Pending }),
            next_seq: (self.next_seq + 1) as u64,
            command: self.command,
        }
    }

    /// A change was detected: cancel the occupant (if any, and not already
    /// terminal) without waiting for its teardown, then create the superseding
    /// run. Returns the superseded run, for reporting, and the sequence number
    /// of the new run, whose command the caller now starts.
    pub fn on_change_detected(&mut self) -> (r: (Option<Run>, u64))
        requires
            old(self).next_seq < u64::MAX,
        ensures
            r.0 == old(self).superseded_of(),
            r.1 == old(self).next_seq,
            *final(self) == old(self).change_step(),
            old(self).wf() ==> final(self).wf(),
    {
        let taken = self.current.take();
        let superseded = match taken {
            Option::None => Option::None,
            Option::Some(run) => {
                if run.status.is_terminal() {
                    Option::Some(run)
                } else {
                    Option::Some(Run { seq: run.seq, status: RunStatus::Cancelled })
                }
            },
        };
        let seq = self.next_seq;
        self.current = Option::Some(Run { seq, status: RunStatus::Pending });
        self.next_seq = seq + 1;
        (superseded, seq)
    }

    /// The command for the run numbered `seq` was started. The event applies
    /// only if that run is still the pending occupant; a stale notification
    /// (the run was superseded meanwhile) is ignored.
    pub fn on_run_started(&mut self, seq: u64) -> (applied: bool)
        ensures
            applied == (old(self).current matches Some(r) && r.seq == seq
                && r.status is Pending),
            applied ==> {
                &&& final(self).current == Some(Run { seq, status: RunStatus::Running })
                &&& final(self).next_seq == old(self).next_seq
                &&& final(self).command == old(self).command
            },
            !applied ==> *final(self) == *old(self),
            old(self).wf() ==> final(self).wf(),
    {
        let applies = match &self.current {
            Option::Some(r) => r.seq == seq && matches!(r.status, RunStatus::Pending),
            Option::None => false,
        };
        if applies {
            self.current = Option::Some(Run { seq, status: RunStatus::Running });
        }
        applies
    }

    /// The run numbered `seq` ran to completion with this exit code: it
    /// becomes `Completed` and the slot returns to idle. A report for a run
    /// that is no longer current is ignored.
    pub fn on_run_completed(&mut self, seq: u64, exit_code: i32) -> (finished: Option<Run>)
        ensures
            (old(self).current matches Some(r) && r.seq == seq) ==> {
                &&& finished == Some(Run { seq, status: RunStatus::Completed(exit_code) })
                &&& final(self).current is None
            },
            !(old(self).current matches Some(r) && r.seq == seq) ==> {
                &&& finished is None
                &&& *final(self) == *old(self)
            },
            final(self).next_seq == old(self).next_seq,
            final(self).command == old(self).command,
            old(self).wf() ==> final(self).wf(),
    {
        let applies = match &self.current {
            Option::Some(r) => r.seq == seq,
            Option::None => false,
        };
        if applies {
            self.current = Option::None;
            Option::Some(Run { seq, status: RunStatus::Completed(exit_code) })
        } else {
            Option::None
        }
    }

    /// The run numbered `seq` failed before or during execution (the shell
    /// could not be spawned, or its output could not be captured): it becomes
    /// `Failed`, the slot returns to idle, and the supervisor waits for the
    /// next change. A report for a run that is no longer current is ignored.
    pub fn on_run_failed(&mut self, seq: u64, err: Error) -> (finished: Option<Run>)
        ensures
            (old(self).current matches Some(r) && r.seq == seq) ==> {
                &&& finished == Some(Run { seq, status: RunStatus::Failed(err) })
                &&& final(self).current is None
            },
            !(old(self).current matches Some(r) && r.seq == seq) ==> {
                &&& finished is None
                &&& *final(self) == *old(self)
            },
            final(self).next_seq == old(self).next_seq,
            final(self).command == old(self).command,
            old(self).wf() ==> final(self).wf(),
    {
        let applies = match &self.current {
            Option::Some(r) => r.seq == seq,
            Option::None => false,
        };
        if applies {
            self.current = Option::None;
            Option::Some(Run { seq, status: RunStatus::Failed(err) })
        } else {
            Option::None
        }
    }

    /// Whether a run currently occupies the slot.
    pub fn has_current_run(&self) -> (r: bool)
        ensures
            r == (self.current is Some),
    {
        match &self.current {
            Option::Some(_) => true,
            Option::None => false,
        }
    }

    /// The command every run executes.
    pub fn command(&self) -> (c: &String)
        ensures
            c@ == self.command@,
    {
        &self.command
    }
}

/// The supervisor state after `n` successive detected changes.
pub open spec fn after_changes(s: Supervisor, n: nat) -> Supervisor
    decreases n,
{
    if n == 0 {
        s
    } else {
        after_changes(s, (n - 1) as nat).change_step()
    }
}

/// At most one current run: the slot holds at most one occupant at any
/// instant, and after `n` rapid successive changes exactly one run is current,
/// the one created for the last change (sequence number `next_seq + n - 1`).
pub proof fn lemma_at_most_one_current_run(s: Supervisor, n: nat)
    requires
        s.wf(),
        1 <= n,
        s.next_seq + n <= u64::MAX,
    ensures
        after_changes(s, n).wf(),
        after_changes(s, n).next_seq == s.next_seq + n,
        after_changes(s, n).current matches Some(r) && r.seq == s.next_seq + n - 1
            && r.status is Pending,
    decreases n,
{
    if n == 1 {
        assert(after_changes(s, 0) == s);
        assert(after_changes(s, 1) == s.change_step());
    } else {
        lemma_at_most_one_current_run(s, (n - 1) as nat);
        assert(after_changes(s, n) == after_changes(s, (n - 1) as nat).change_step());
    }
}

/// Cancellation supersession: when a change arrives while a run is still
/// current and not terminal, that run transitions to `Cancelled` — it is never
/// left live — and the superseding run takes the slot as `Pending` with the
/// next sequence number.
pub proof fn lemma_cancellation_supersession(s: Supervisor)
    requires
        s.current matches Some(r) && !r.status.is_terminal_spec(),
    ensures
        (s.superseded_of() matches Some(c) && c.seq == s.current.unwrap().seq
            && c.status is Cancelled),
        (s.change_step().current matches Some(nr) && nr.seq == s.next_seq
            && nr.status is Pending),
{
}

} // verus!
