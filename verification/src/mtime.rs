use vstd::prelude::*;
use crate::entry::Mtime;

verus! {

/// Where setting a modification time on disk stands. Some platforms only
/// set it on a file opened for writing, so a read-only open is the fallback;
/// directories are skipped when they refuse.
#[derive(Clone, Copy, Debug, PartialEq, Eq, Structural)]
pub enum MtimeStep {
    /// Open the path for writing.
    OpenForWrite,
    /// Open the path read-only, since opening it for writing failed.
    OpenForRead,
    /// Set the modification time on the opened path.
    SetModified,
    /// Finished: the time is set, there was none to set, or a directory
    /// refused it.
    Done,
    /// Finished with the error of the last attempt.
    Failed,
}

/// The outcome of the last attempt.
#[derive(Clone, Copy, Debug, PartialEq, Eq, Structural)]
pub enum MtimeEvent {
    Succeeded,
    /// The attempt failed; `is_dir` tells whether the path is a directory.
    FailedOn { is_dir: bool },
}

/// The first step: nothing to do without a time.
pub open spec fn spec_first_mtime_step(mtime: Option<Mtime>) -> MtimeStep {
    if mtime is Some {
        MtimeStep::OpenForWrite
    } else {
        MtimeStep::Done
    }
}

/// The next step after an attempt: a failed open for writing falls back to
/// a read-only open; a failure on a directory ends the process without an
/// error; any other failure ends it with that failure.
pub open spec fn spec_next_mtime_step(step: MtimeStep, event: MtimeEvent) -> MtimeStep {
    match (step, event) {
        (MtimeStep::OpenForWrite, MtimeEvent::Succeeded) => MtimeStep::SetModified,
        (MtimeStep::OpenForWrite, MtimeEvent::FailedOn { .. }) => MtimeStep::OpenForRead,
        (MtimeStep::OpenForRead, MtimeEvent::Succeeded) => MtimeStep::SetModified,
        (MtimeStep::SetModified, MtimeEvent::Succeeded) => MtimeStep::Done,
        (MtimeStep::OpenForRead, MtimeEvent::FailedOn { is_dir }) | (
            MtimeStep::SetModified,
            MtimeEvent::FailedOn { is_dir },
        ) => if is_dir {
            MtimeStep::Done
        } else {
            MtimeStep::Failed
        },
        (s, _) => s,
    }
}

/// The first step of setting `mtime`.
pub fn first_mtime_step(mtime: Option<Mtime>) -> (step: MtimeStep)
    ensures
        step == spec_first_mtime_step(mtime),
{
    if mtime.is_some() {
        MtimeStep::OpenForWrite
    } else {
        MtimeStep::Done
    }
}

/// The step that follows `step` when its attempt ended with `event`.
pub fn next_mtime_step(step: MtimeStep, event: MtimeEvent) -> (next: MtimeStep)
    ensures
        next == spec_next_mtime_step(step, event),
{
    match (step, event) {
        (MtimeStep::OpenForWrite, MtimeEvent::Succeeded) => MtimeStep::SetModified,
        (MtimeStep::OpenForWrite, MtimeEvent::FailedOn { .. }) => MtimeStep::OpenForRead,
        (MtimeStep::OpenForRead, MtimeEvent::Succeeded) => MtimeStep::SetModified,
        (MtimeStep::SetModified, MtimeEvent::Succeeded) => MtimeStep::Done,
        (MtimeStep::OpenForRead, MtimeEvent::FailedOn { is_dir }) | (
            MtimeStep::SetModified,
            MtimeEvent::FailedOn { is_dir },
        ) => if is_dir {
            MtimeStep::Done
        } else {
            MtimeStep::Failed
        },
        (s, _) => s,
    }
}

/// Setting a time on a directory never ends in an error, and from the first
/// step at most three attempts are made before the process has finished.
pub proof fn law_mtime_directories_never_fail(
    mtime: Option<Mtime>,
    first: MtimeEvent,
    second: MtimeEvent,
    third: MtimeEvent,
)
    ensures
        ({
            let s1 = spec_next_mtime_step(spec_first_mtime_step(mtime), first);
            let s2 = spec_next_mtime_step(s1, second);
            let s3 = spec_next_mtime_step(s2, third);
            &&& s3 is Done || s3 is Failed
            &&& (first != MtimeEvent::FailedOn { is_dir: false } && second != MtimeEvent::FailedOn {
                is_dir: false,
            } && third != MtimeEvent::FailedOn { is_dir: false }) ==> !(s3 is Failed)
        }),
{
}

/// The step reached from `step` once the attempts have ended with `events`,
/// in order.
pub open spec fn mtime_run(step: MtimeStep, events: Seq<MtimeEvent>) -> MtimeStep
    decreases events.len(),
{
    if events.len() == 0 {
        step
    } else {
        mtime_run(spec_next_mtime_step(step, events[0]), events.drop_first())
    }
}

/// Along the run from `step` through `events`, setting the modification
/// time on an opened path succeeded.
pub open spec fn mtime_run_sets_time(step: MtimeStep, events: Seq<MtimeEvent>) -> bool
    decreases events.len(),
{
    if events.len() == 0 {
        false
    } else {
        (step is SetModified && events[0] is Succeeded) || mtime_run_sets_time(
            spec_next_mtime_step(step, events[0]),
            events.drop_first(),
        )
    }
}

/// No attempt along `events` failed on a directory.
pub open spec fn no_directory_failure(events: Seq<MtimeEvent>) -> bool {
    forall|k: int| 0 <= k < events.len() ==> #[trigger] events[k] != (MtimeEvent::FailedOn { is_dir: true })
}

/// Once an open succeeds, whether for writing or read-only, the next step
/// sets the modification time on the opened path.
pub proof fn law_mtime_open_then_set(step: MtimeStep)
    requires
        step is OpenForWrite || step is OpenForRead,
    ensures
        spec_next_mtime_step(step, MtimeEvent::Succeeded) is SetModified,
{
}

proof fn lemma_mtime_failed_stays(events: Seq<MtimeEvent>)
    ensures
        mtime_run(MtimeStep::Failed, events) is Failed,
    decreases events.len(),
{
    if events.len() > 0 {
        lemma_mtime_failed_stays(events.drop_first());
    }
}

proof fn lemma_mtime_done_sets(step: MtimeStep, events: Seq<MtimeEvent>)
    requires
        step is OpenForWrite || step is OpenForRead || step is SetModified,
        mtime_run(step, events) is Done,
        no_directory_failure(events),
    ensures
        mtime_run_sets_time(step, events),
    decreases events.len(),
{
    if events.len() > 0 {
        let next = spec_next_mtime_step(step, events[0]);
        let rest = events.drop_first();
        assert(events[0] != (MtimeEvent::FailedOn { is_dir: true }));
        assert(no_directory_failure(rest)) by {
            assert forall|k: int| 0 <= k < rest.len() implies #[trigger] rest[k] != (
            MtimeEvent::FailedOn { is_dir: true }) by {
                assert(rest[k] == events[k + 1]);
            }
        }
        if next is Failed {
            lemma_mtime_failed_stays(rest);
        } else if !(step is SetModified && events[0] is Succeeded) {
            lemma_mtime_done_sets(next, rest);
        }
    }
}

/// When there is a time to set and no attempt fails on a directory, the
/// process finishes without an error only after setting the time on the
/// opened path has succeeded: a file that is written gets its
/// modification time.
pub proof fn law_mtime_done_means_set(mtime: Option<Mtime>, events: Seq<MtimeEvent>)
    requires
        mtime is Some,
        no_directory_failure(events),
        mtime_run(spec_first_mtime_step(mtime), events) is Done,
    ensures
        mtime_run_sets_time(spec_first_mtime_step(mtime), events),
{
    lemma_mtime_done_sets(spec_first_mtime_step(mtime), events);
}

} // verus!
