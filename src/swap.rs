use vstd::prelude::*;

verus! {

/// Where a rewrite of the data file stands. The new contents go to a temporary
/// file that must not exist yet; only when they are all written is the
/// temporary file renamed onto the data file, in one atomic step.
#[derive(Debug, Clone, Copy, PartialEq, Eq, Structural)]
pub enum SwapStage {
    /// Create the temporary file; it must not exist already.
    CreateTemp,
    /// Write the new contents to the temporary file.
    WriteTemp,
    /// Rename the temporary file onto the data file.
    Replace,
    /// The data file holds the new contents.
    Finished,
    /// A step failed; the data file was left as it was.
    Abandoned,
}

/// How the step of a stage went.
#[derive(Debug, Clone, Copy, PartialEq, Eq, Structural)]
pub enum StepOutcome {
    Succeeded,
    Failed,
}

pub open spec fn swap_next_spec(stage: SwapStage, outcome: StepOutcome) -> SwapStage {
    match stage {
        SwapStage::CreateTemp => if outcome == StepOutcome::Succeeded {
            SwapStage::WriteTemp
        } else {
            SwapStage::Abandoned
        },
        SwapStage::WriteTemp => if outcome == StepOutcome::Succeeded {
            SwapStage::Replace
        } else {
            SwapStage::Abandoned
        },
        SwapStage::Replace => if outcome == StepOutcome::Succeeded {
            SwapStage::Finished
        } else {
            SwapStage::Abandoned
        },
        _ => stage,
    }
}

/// The stage that follows `stage` once its step has had `outcome`. Writing
/// counts as failed when any record could not be edited or written.
pub fn swap_next(stage: SwapStage, outcome: StepOutcome) -> (r: SwapStage)
    ensures
        r == swap_next_spec(stage, outcome),
{
    let ok = outcome == StepOutcome::Succeeded;
    match stage {
        SwapStage::CreateTemp => if ok {
            SwapStage::WriteTemp
        } else {
            SwapStage::Abandoned
        },
        SwapStage::WriteTemp => if ok {
            SwapStage::Replace
        } else {
            SwapStage::Abandoned
        },
        SwapStage::Replace => if ok {
            SwapStage::Finished
        } else {
            SwapStage::Abandoned
        },
        _ => stage,
    }
}

/// Whether `stage` still has a step to take.
pub fn swap_pending(stage: SwapStage) -> (r: bool)
    ensures
        r == (stage != SwapStage::Finished && stage != SwapStage::Abandoned),
{
    stage != SwapStage::Finished && stage != SwapStage::Abandoned
}

/// What the data file and the temporary file hold, where they exist.
pub struct DiskModel {
    pub data: Option<Seq<u8>>,
    pub temp: Option<Seq<u8>>,
}

/// One step of a rewrite as the file system carries it out: the outcome it
/// reports, and, for a write that fails, what part of the contents reached
/// the temporary file.
pub struct DiskEvent {
    pub outcome: StepOutcome,
    pub written: Seq<u8>,
}

/// The file system reports success of an exclusive creation only where the
/// file did not exist.
pub open spec fn event_possible(disk: DiskModel, stage: SwapStage, e: DiskEvent) -> bool {
    stage == SwapStage::CreateTemp && disk.temp.is_some() ==> e.outcome == StepOutcome::Failed
}

/// What the step of `stage` does to the files, writing `new`. A rename either
/// happens whole or not at all.
pub open spec fn disk_after(disk: DiskModel, stage: SwapStage, e: DiskEvent, new: Seq<u8>) -> DiskModel {
    let ok = e.outcome == StepOutcome::Succeeded;
    match stage {
        SwapStage::CreateTemp => if ok {
            DiskModel { temp: Some(Seq::empty()), ..disk }
        } else {
            disk
        },
        SwapStage::WriteTemp => if ok {
            DiskModel { temp: Some(new), ..disk }
        } else {
            DiskModel { temp: Some(e.written), ..disk }
        },
        SwapStage::Replace => if ok {
            DiskModel { data: disk.temp, temp: None }
        } else {
            disk
        },
        _ => disk,
    }
}

/// The files and the stage after the steps of `events` have been taken, from
/// `disk` at `stage`; the run may stop after any of them.
pub open spec fn run(disk: DiskModel, stage: SwapStage, events: Seq<DiskEvent>, new: Seq<u8>) -> (
    DiskModel,
    SwapStage,
)
    decreases events.len(),
{
    if events.len() == 0 {
        (disk, stage)
    } else {
        run(
            disk_after(disk, stage, events[0], new),
            swap_next_spec(stage, events[0].outcome),
            events.drop_first(),
            new,
        )
    }
}

pub open spec fn events_possible(disk: DiskModel, stage: SwapStage, events: Seq<DiskEvent>, new: Seq<
    u8,
>) -> bool
    decreases events.len(),
{
    events.len() == 0 || (event_possible(disk, stage, events[0]) && events_possible(
        disk_after(disk, stage, events[0], new),
        swap_next_spec(stage, events[0].outcome),
        events.drop_first(),
        new,
    ))
}

pub open spec fn swap_safe(disk: DiskModel, stage: SwapStage, old: Seq<u8>, new: Seq<u8>) -> bool {
    &&& stage == SwapStage::Finished ==> disk.data == Some(new)
    &&& stage != SwapStage::Finished ==> disk.data == Some(old)
    &&& stage == SwapStage::Replace ==> disk.temp == Some(new)
}

proof fn lemma_run_safe(disk: DiskModel, stage: SwapStage, events: Seq<DiskEvent>, old: Seq<u8>, new: Seq<u8>)
    requires
        swap_safe(disk, stage, old, new),
        events_possible(disk, stage, events, new),
    ensures
        swap_safe(run(disk, stage, events, new).0, run(disk, stage, events, new).1, old, new),
    decreases events.len(),
{
    if events.len() > 0 {
        lemma_run_safe(
            disk_after(disk, stage, events[0], new),
            swap_next_spec(stage, events[0].outcome),
            events.drop_first(),
            old,
            new,
        );
    }
}

/// However a rewrite of a data file that holds `old` is cut short, the data
/// file still holds `old`; only a rewrite that finished leaves `new` there. A
/// temporary file left from an earlier run is never overwritten: the rewrite
/// then stops at once.
pub proof fn lemma_interrupted_rewrite_keeps_data(
    old: Seq<u8>,
    temp: Option<Seq<u8>>,
    events: Seq<DiskEvent>,
    new: Seq<u8>,
)
    requires
        events_possible(DiskModel { data: Some(old), temp }, SwapStage::CreateTemp, events, new),
    ensures
        ({
            let (disk, stage) = run(DiskModel { data: Some(old), temp }, SwapStage::CreateTemp, events, new);
            &&& stage == SwapStage::Finished ==> disk.data == Some(new)
            &&& stage != SwapStage::Finished ==> disk.data == Some(old)
        }),
        temp.is_some() && events.len() > 0 ==> run(
            DiskModel { data: Some(old), temp },
            SwapStage::CreateTemp,
            events.take(1),
            new,
        ) == (DiskModel { data: Some(old), temp }, SwapStage::Abandoned),
{
    lemma_run_safe(DiskModel { data: Some(old), temp }, SwapStage::CreateTemp, events, old, new);
    if temp.is_some() && events.len() > 0 {
        let d = DiskModel { data: Some(old), temp };
        assert(events.take(1).drop_first() =~= Seq::<DiskEvent>::empty());
        assert(events.take(1)[0] == events[0]);
        assert(run(d, SwapStage::CreateTemp, events.take(1), new) == run(
            disk_after(d, SwapStage::CreateTemp, events[0], new),
            SwapStage::Abandoned,
            Seq::empty(),
            new,
        ));
    }
}

} // verus!
