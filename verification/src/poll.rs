use vstd::prelude::*;

use crate::error::Error;
use crate::fingerprint::Fingerprint;
use crate::supervisor::{Run, Supervisor};

verus! {

/// The fixed tick interval of the poll loop, in milliseconds. Shorter
/// intervals increase responsiveness and CPU usage; the value is not
/// correctness-critical.
pub const TICK_INTERVAL_MS: u64 = 500;

/// What one tick of the poll loop decided.
pub enum TickDecision {
    /// The fresh fingerprint equals the previous tick's: nothing to do.
    Unchanged,
    /// The fresh fingerprint differs: exactly one change notification is due.
    Changed,
    /// The watched state could not be read: the loop must stop with this
    /// error, never mask it.
    Fatal(Error),
}

/// The poll loop's state between ticks: the fingerprint observed on the
/// previous tick. It must be seeded with one fingerprint computed before
/// comparisons begin, so the first tick never reports a spurious change.
pub struct PollState {
    /// The previous tick's fingerprint.
    pub prev: Fingerprint,
}

impl PollState {
    /// Seeds the loop with the fingerprint of the initial on-disk state.
    pub fn seed(first: Fingerprint) -> (s: PollState)
        ensures
            s.prev@ == first@,
    {
        PollState { prev: first }
    }

    /// One tick: compare a fresh reading of the watched state against the
    /// previous fingerprint. A failed reading is fatal and leaves the state
    /// untouched; a successful one becomes the new previous fingerprint, and
    /// the tick reports a change exactly when it differs from the old one.
    /// Several file modifications between two ticks thus collapse into one
    /// detected change.
    pub fn tick(&mut self, reading: Result<Fingerprint, Error>) -> (d: TickDecision)
        ensures
            (reading matches Err(e) ==> d == TickDecision::Fatal(e)
                && final(self).prev@ == old(self).prev@),
            (reading matches Ok(fp) ==> {
                &&& final(self).prev@ == fp@
                &&& (d is Changed <==> fp@ != old(self).prev@)
                &&& (d is Unchanged <==> fp@ == old(self).prev@)
            }),
    {
        match reading {
            Result::Err(e) => TickDecision::Fatal(e),
            Result::Ok(fp) => {
                let changed = !self.prev.equals(&fp);
                self.prev = fp;
                if changed {
                    TickDecision::Changed
                } else {
                    TickDecision::Unchanged
                }
            },
        }
    }
}

/// What the caller of one loop step must carry out.
pub enum StepAction {
    /// Nothing changed: wait out the tick interval and poll again.
    Idle,
    /// The watched state became unreadable: stop the loop with this error.
    Stop(Error),
    /// A change was detected: abort the superseded run's task, if one is
    /// handed back, then start the command for the run numbered `seq`.
    Start { superseded: Option<Run>, seq: u64 },
}

/// One step of the watch loop: compare the fresh reading against the previous
/// fingerprint and, when it differs, notify the supervisor, which cancels the
/// occupant of the run slot and creates the superseding run. A failed reading
/// stops the loop; a quiet tick leaves the supervisor untouched.
pub fn step(
    poll: &mut PollState,
    sup: &mut Supervisor,
    reading: Result<Fingerprint, Error>,
) -> (a: StepAction)
    requires
        old(sup).next_seq < u64::MAX,
    ensures
        (reading matches Err(e) ==> {
            &&& a == StepAction::Stop(e)
            &&& final(poll).prev@ == old(poll).prev@
            &&& *final(sup) == *old(sup)
        }),
        (reading matches Ok(fp) ==> {
            &&& final(poll).prev@ == fp@
            &&& (fp@ == old(poll).prev@ ==> a is Idle && *final(sup) == *old(sup))
            &&& (fp@ != old(poll).prev@ ==> {
                &&& (a matches StepAction::Start { superseded, seq }
                    && superseded == old(sup).superseded_of()
                    && seq == old(sup).next_seq)
                &&& *final(sup) == old(sup).change_step()
            })
        }),
        old(sup).wf() ==> final(sup).wf(),
{
    match poll.tick(reading) {
        TickDecision::Fatal(e) => StepAction::Stop(e),
        TickDecision::Unchanged => StepAction::Idle,
        TickDecision::Changed => {
            let (superseded, seq) = sup.on_change_detected();
            StepAction::Start { superseded, seq }
        },
    }
}

} // verus!
