//! The steps of one installation, in the only order in which they may run.
//!
//! The engine performs no step itself. It names the step that is due, is told
//! how that step ended, and moves on. Whoever drives it does the work on disk.

use vstd::prelude::*;
use crate::validator::{Target, Validation};

verus! {

/// Why an installation was given up.
#[derive(Clone, Copy, Debug, PartialEq, Eq, Structural)]
pub enum ExtractionError {
    /// Something could not be read, written or created.
    Io,
    /// The archive could not be parsed.
    Corrupt,
    /// The destination was no longer empty when the payload was to be
    /// unpacked into it.
    DestinationConflict,
}

/// A point of progress that is reported while an installation runs.
#[derive(Clone, Copy, Debug, PartialEq, Eq, Structural)]
pub enum ProgressCheckpoint {
    /// The installation has begun.
    Started,
    /// The whole archive lies in its temporary file.
    ArchiveWritten,
    /// Every entry of the archive has been unpacked into the destination.
    Unpacked,
    /// The temporary file has been dealt with: nothing is left to do on disk.
    Finished,
}

impl ProgressCheckpoint {
    /// The share of the work, in percent, that is done at this checkpoint.
    pub open spec fn spec_percent(&self) -> u8 {
        match self {
            ProgressCheckpoint::Started => 0,
            ProgressCheckpoint::ArchiveWritten => 20,
            ProgressCheckpoint::Unpacked => 80,
            ProgressCheckpoint::Finished => 100,
        }
    }

    /// The share of the work, in percent, that is done at this checkpoint.
    #[verifier::when_used_as_spec(spec_percent)]
    pub fn percent(&self) -> (p: u8)
        ensures
            p == self.spec_percent(),
            p <= 100,
    {
        match self {
            ProgressCheckpoint::Started => 0,
            ProgressCheckpoint::ArchiveWritten => 20,
            ProgressCheckpoint::Unpacked => 80,
            ProgressCheckpoint::Finished => 100,
        }
    }

    /// What is going on once this checkpoint is passed, in words for a person.
    pub fn label(&self) -> (text: &'static str)
        ensures
            text@ == match self {
                ProgressCheckpoint::Started => "Writing the archive"@,
                ProgressCheckpoint::ArchiveWritten => "Unpacking"@,
                ProgressCheckpoint::Unpacked => "Cleaning up"@,
                ProgressCheckpoint::Finished => "Done"@,
            },
    {
        match self {
            ProgressCheckpoint::Started => "Writing the archive",
            ProgressCheckpoint::ArchiveWritten => "Unpacking",
            ProgressCheckpoint::Unpacked => "Cleaning up",
            ProgressCheckpoint::Finished => "Done",
        }
    }
}

/// A step on disk that the engine asks for.
#[derive(Clone, Copy, Debug, PartialEq, Eq, Structural)]
pub enum Command {
    /// Write the whole payload to the temporary archive file and close it.
    WriteArchive,
    /// Create the destination directory.
    CreateDestination,
    /// Look at the destination once more and report what is there.
    InspectDestination,
    /// Unpack every entry of the temporary archive into the destination.
    Decompress,
    /// Delete the temporary archive file.
    RemoveArchive,
}

impl Command {
    /// Whether carrying out this command changes anything on disk.
    pub open spec fn writes(self) -> bool {
        self != Command::InspectDestination
    }
}

/// How a step on disk ended.
#[derive(Clone, Copy, Debug, PartialEq, Eq, Structural)]
pub enum Outcome {
    /// The step was carried out.
    Succeeded,
    /// The destination was looked at, and this was found.
    Inspected(Target),
    /// The step failed on a read, a write or a permission.
    IoFailed,
    /// The step failed because the archive cannot be parsed.
    ArchiveCorrupt,
}

/// Where an installation stands: the step whose outcome is awaited, or how
/// the installation ended.
#[derive(Clone, Copy, Debug, PartialEq, Eq, Structural)]
pub enum Extraction {
    /// The archive is being written to its temporary file. The destination
    /// is created afterwards if `create_destination` is set.
    WritingArchive { create_destination: bool },
    /// The destination directory is being created.
    CreatingDestination,
    /// The destination is being looked at for the last time before anything
    /// is put into it.
    Inspecting,
    /// The archive is being unpacked into the destination.
    Decompressing,
    /// The temporary archive file is being deleted.
    RemovingArchive,
    /// The payload is installed. `archive_left` is set if the temporary
    /// archive file could not be deleted.
    Finished { archive_left: bool },
    /// The installation was given up.
    Failed(ExtractionError),
}

/// Where an installation goes once the destination has been looked at for the
/// last time: on to unpacking only if an empty directory was found.
pub open spec fn after_inspection(found: Target) -> Extraction {
    if found.is_empty_directory() {
        Extraction::Decompressing
    } else if found == Target::Absent {
        Extraction::Failed(ExtractionError::Io)
    } else {
        Extraction::Failed(ExtractionError::DestinationConflict)
    }
}

impl Extraction {
    /// The state in which an installation begins, given the verdict on its
    /// destination; none if the verdict forbids the installation.
    pub open spec fn initial(verdict: Validation) -> Option<Extraction> {
        match verdict {
            Validation::Proceed => Some(Extraction::WritingArchive { create_destination: false }),
            Validation::ProceedAfterCreate => Some(
                Extraction::WritingArchive { create_destination: true },
            ),
            _ => None,
        }
    }

    /// Whether the installation has ended, well or badly.
    pub open spec fn is_over(self) -> bool {
        self is Finished || self is Failed
    }

    /// The step whose outcome is awaited; none once the installation is over.
    pub open spec fn pending(self) -> Option<Command> {
        match self {
            Extraction::WritingArchive { .. } => Some(Command::WriteArchive),
            Extraction::CreatingDestination => Some(Command::CreateDestination),
            Extraction::Inspecting => Some(Command::InspectDestination),
            Extraction::Decompressing => Some(Command::Decompress),
            Extraction::RemovingArchive => Some(Command::RemoveArchive),
            _ => None,
        }
    }

    /// The last checkpoint that was passed; none after a failure.
    pub open spec fn reached(self) -> Option<ProgressCheckpoint> {
        match self {
            Extraction::WritingArchive { .. } => Some(ProgressCheckpoint::Started),
            Extraction::CreatingDestination => Some(ProgressCheckpoint::ArchiveWritten),
            Extraction::Inspecting => Some(ProgressCheckpoint::ArchiveWritten),
            Extraction::Decompressing => Some(ProgressCheckpoint::ArchiveWritten),
            Extraction::RemovingArchive => Some(ProgressCheckpoint::Unpacked),
            Extraction::Finished { .. } => Some(ProgressCheckpoint::Finished),
            Extraction::Failed(_) => None,
        }
    }

    /// How the installation ended; none while it runs.
    pub open spec fn verdict(self) -> Option<Result<(), ExtractionError>> {
        match self {
            Extraction::Finished { .. } => Some(Ok(())),
            Extraction::Failed(error) => Some(Err(error)),
            _ => None,
        }
    }

    /// The state that follows when the awaited step ends with `outcome`.
    ///
    /// A failure ends the installation, except that of deleting the temporary
    /// file, which is only noted. A report that answers no awaited step
    /// changes nothing, and nothing changes once the installation is over.
    pub open spec fn next(self, outcome: Outcome) -> Extraction {
        match self {
            Extraction::WritingArchive { create_destination } => match outcome {
                Outcome::Succeeded => if create_destination {
                    Extraction::CreatingDestination
                } else {
                    Extraction::Inspecting
                },
                Outcome::IoFailed => Extraction::Failed(ExtractionError::Io),
                Outcome::ArchiveCorrupt => Extraction::Failed(ExtractionError::Corrupt),
                Outcome::Inspected(_) => self,
            },
            Extraction::CreatingDestination => match outcome {
                Outcome::Succeeded => Extraction::Inspecting,
                Outcome::IoFailed => Extraction::Failed(ExtractionError::Io),
                Outcome::ArchiveCorrupt => Extraction::Failed(ExtractionError::Corrupt),
                Outcome::Inspected(_) => self,
            },
            Extraction::Inspecting => match outcome {
                Outcome::Inspected(found) => after_inspection(found),
                Outcome::IoFailed => Extraction::Failed(ExtractionError::Io),
                Outcome::ArchiveCorrupt => Extraction::Failed(ExtractionError::Corrupt),
                Outcome::Succeeded => self,
            },
            Extraction::Decompressing => match outcome {
                Outcome::Succeeded => Extraction::RemovingArchive,
                Outcome::IoFailed => Extraction::Failed(ExtractionError::Io),
                Outcome::ArchiveCorrupt => Extraction::Failed(ExtractionError::Corrupt),
                Outcome::Inspected(_) => self,
            },
            Extraction::RemovingArchive => match outcome {
                Outcome::Succeeded => Extraction::Finished { archive_left: false },
                Outcome::IoFailed => Extraction::Finished { archive_left: true },
                Outcome::ArchiveCorrupt => Extraction::Finished { archive_left: true },
                Outcome::Inspected(_) => self,
            },
            Extraction::Finished { .. } => self,
            Extraction::Failed(_) => self,
        }
    }

    /// The checkpoint that is passed when the awaited step ends with
    /// `outcome`, if one is.
    pub open spec fn passed(self, outcome: Outcome) -> Option<ProgressCheckpoint> {
        let before = self.reached();
        let after = self.next(outcome).reached();
        if after is Some && after != before {
            after
        } else {
            None
        }
    }

    /// Begins an installation, if the verdict on the destination allows one.
    /// It begins at the checkpoint [`ProgressCheckpoint::Started`].
    pub fn begin(verdict: Validation) -> (r: Option<Extraction>)
        ensures
            r == Extraction::initial(verdict),
    {
        match verdict {
            Validation::Proceed => Some(Extraction::WritingArchive { create_destination: false }),
            Validation::ProceedAfterCreate => Some(
                Extraction::WritingArchive { create_destination: true },
            ),
            _ => None,
        }
    }

    /// The step to carry out now.
    pub fn command(&self) -> (r: Option<Command>)
        ensures
            r == self.pending(),
    {
        match self {
            Extraction::WritingArchive { .. } => Some(Command::WriteArchive),
            Extraction::CreatingDestination => Some(Command::CreateDestination),
            Extraction::Inspecting => Some(Command::InspectDestination),
            Extraction::Decompressing => Some(Command::Decompress),
            Extraction::RemovingArchive => Some(Command::RemoveArchive),
            _ => None,
        }
    }

    /// The last checkpoint that was passed.
    pub fn checkpoint(&self) -> (r: Option<ProgressCheckpoint>)
        ensures
            r == self.reached(),
    {
        match self {
            Extraction::WritingArchive { .. } => Some(ProgressCheckpoint::Started),
            Extraction::CreatingDestination => Some(ProgressCheckpoint::ArchiveWritten),
            Extraction::Inspecting => Some(ProgressCheckpoint::ArchiveWritten),
            Extraction::Decompressing => Some(ProgressCheckpoint::ArchiveWritten),
            Extraction::RemovingArchive => Some(ProgressCheckpoint::Unpacked),
            Extraction::Finished { .. } => Some(ProgressCheckpoint::Finished),
            Extraction::Failed(_) => None,
        }
    }

    /// How the installation ended, once it has.
    pub fn result(&self) -> (r: Option<Result<(), ExtractionError>>)
        ensures
            r == self.verdict(),
    {
        match self {
            Extraction::Finished { .. } => Some(Ok(())),
            Extraction::Failed(error) => Some(Err(*error)),
            _ => None,
        }
    }

    /// Takes in how the awaited step ended, and returns the checkpoint that
    /// was passed with it, if one was.
    pub fn advance(&mut self, outcome: Outcome) -> (r: Option<ProgressCheckpoint>)
        ensures
            *final(self) == old(self).next(outcome),
            r == old(self).passed(outcome),
    {
        let before = *self;
        let failure = match outcome {
            Outcome::IoFailed => Some(ExtractionError::Io),
            Outcome::ArchiveCorrupt => Some(ExtractionError::Corrupt),
            _ => None,
        };
        match before {
            Extraction::Finished { .. } => None,
            Extraction::Failed(_) => None,
            Extraction::RemovingArchive => match outcome {
                Outcome::Inspected(_) => None,
                Outcome::Succeeded => {
                    *self = Extraction::Finished { archive_left: false };
                    Some(ProgressCheckpoint::Finished)
                },
                _ => {
                    *self = Extraction::Finished { archive_left: true };
                    Some(ProgressCheckpoint::Finished)
                },
            },
            _ => match failure {
                Some(error) => {
                    *self = Extraction::Failed(error);
                    None
                },
                None => match (before, outcome) {
                    (Extraction::WritingArchive { create_destination }, Outcome::Succeeded) => {
                        *self = if create_destination {
                            Extraction::CreatingDestination
                        } else {
                            Extraction::Inspecting
                        };
                        Some(ProgressCheckpoint::ArchiveWritten)
                    },
                    (Extraction::CreatingDestination, Outcome::Succeeded) => {
                        *self = Extraction::Inspecting;
                        None
                    },
                    (Extraction::Inspecting, Outcome::Inspected(found)) => {
                        *self = if found.empty_directory() {
                            Extraction::Decompressing
                        } else {
                            match found {
                                Target::Absent => Extraction::Failed(ExtractionError::Io),
                                _ => Extraction::Failed(ExtractionError::DestinationConflict),
                            }
                        };
                        None
                    },
                    (Extraction::Decompressing, Outcome::Succeeded) => {
                        *self = Extraction::RemovingArchive;
                        Some(ProgressCheckpoint::Unpacked)
                    },
                    _ => None,
                },
            },
        }
    }
}

/// Every checkpoint, in the order in which an installation passes them.
pub open spec fn schedule() -> Seq<ProgressCheckpoint> {
    seq![
        ProgressCheckpoint::Started,
        ProgressCheckpoint::ArchiveWritten,
        ProgressCheckpoint::Unpacked,
        ProgressCheckpoint::Finished,
    ]
}

impl Extraction {
    /// The state reached from this one when the steps end, one after another,
    /// as `outcomes` says.
    pub open spec fn run(self, outcomes: Seq<Outcome>) -> Extraction
        decreases outcomes.len(),
    {
        if outcomes.len() == 0 {
            self
        } else {
            self.run(outcomes.drop_last()).next(outcomes.last())
        }
    }

    /// The checkpoints passed on the way from this state while the steps end
    /// as `outcomes` says, in the order in which they are passed.
    pub open spec fn trail(self, outcomes: Seq<Outcome>) -> Seq<ProgressCheckpoint>
        decreases outcomes.len(),
    {
        if outcomes.len() == 0 {
            Seq::empty()
        } else {
            let earlier = self.trail(outcomes.drop_last());
            match self.run(outcomes.drop_last()).passed(outcomes.last()) {
                Some(checkpoint) => earlier.push(checkpoint),
                None => earlier,
            }
        }
    }
}

/// The checkpoints reported by an installation that begins under `verdict`
/// and whose steps end as `outcomes` says: the one at which it begins, then
/// those passed on the way.
pub open spec fn reported(verdict: Validation, outcomes: Seq<Outcome>) -> Seq<ProgressCheckpoint>
    recommends
        Extraction::initial(verdict) is Some,
{
    seq![ProgressCheckpoint::Started] + Extraction::initial(verdict).unwrap().trail(outcomes)
}

/// The number of checkpoints that lie behind an installation in `state`, if
/// it has not failed.
spec fn behind(state: Extraction) -> int {
    match state.reached() {
        Some(ProgressCheckpoint::Started) => 1,
        Some(ProgressCheckpoint::ArchiveWritten) => 2,
        Some(ProgressCheckpoint::Unpacked) => 3,
        Some(ProgressCheckpoint::Finished) => 4,
        None => 0,
    }
}

proof fn lemma_reported_is_scheduled(verdict: Validation, outcomes: Seq<Outcome>)
    requires
        Extraction::initial(verdict) is Some,
    ensures
        ({
            let state = Extraction::initial(verdict).unwrap().run(outcomes);
            let seen = reported(verdict, outcomes);
            &&& 1 <= seen.len() <= 4
            &&& seen == schedule().take(seen.len() as int)
            &&& !(state is Failed) ==> seen.len() == behind(state)
            &&& state is Failed ==> seen.len() <= 2
        }),
    decreases outcomes.len(),
{
    let start = Extraction::initial(verdict).unwrap();
    if outcomes.len() == 0 {
        assert(reported(verdict, outcomes) =~= schedule().take(1));
    } else {
        lemma_reported_is_scheduled(verdict, outcomes.drop_last());
        let before = start.run(outcomes.drop_last());
        let earlier = reported(verdict, outcomes.drop_last());
        let seen = reported(verdict, outcomes);
        match before.passed(outcomes.last()) {
            Some(checkpoint) => {
                assert(seen =~= earlier.push(checkpoint));
                assert(seen =~= schedule().take(seen.len() as int));
            },
            None => {
                assert(seen =~= earlier);
            },
        }
    }
}

/// Progress never goes back, and it ends at 100 exactly when the installation
/// succeeds.
///
/// Whatever the outcomes of the steps, the percentages reported are strictly
/// increasing and are the first few of 0, 20, 80, 100. An installation that
/// finished has reported all four, so the last is 100. One that failed has
/// reported at most the first two, so none is 100.
pub proof fn law_progress_is_monotonic(verdict: Validation, outcomes: Seq<Outcome>)
    requires
        Extraction::initial(verdict) is Some,
    ensures
        ({
            let state = Extraction::initial(verdict).unwrap().run(outcomes);
            let seen = reported(verdict, outcomes);
            &&& seen.len() >= 1
            &&& seen[0] == ProgressCheckpoint::Started
            &&& forall|i: int, j: int|
                0 <= i < j < seen.len() ==> seen[i].spec_percent() < seen[j].spec_percent()
            &&& state is Finished ==> seen == schedule() && seen.last().spec_percent() == 100
            &&& state is Failed ==> forall|i: int|
                0 <= i < seen.len() ==> seen[i].spec_percent() < 100
        }),
{
    lemma_reported_is_scheduled(verdict, outcomes);
    let seen = reported(verdict, outcomes);
    assert(schedule().take(4) =~= schedule());
    assert forall|i: int, j: int| 0 <= i < j < seen.len() implies seen[i].spec_percent()
        < seen[j].spec_percent() by {
        assert(seen[i] == schedule()[i]);
        assert(seen[j] == schedule()[j]);
    }
    assert forall|i: int| 0 <= i < seen.len() && seen.len() <= 2 implies seen[i].spec_percent()
        < 100 by {
        assert(seen[i] == schedule()[i]);
    }
}

/// The steps of an installation that begins under `verdict`, in the order in
/// which they are carried out if none fails: the destination is created only
/// where the verdict asks for it, and before anything is put into it.
pub open spec fn plan(verdict: Validation) -> Seq<Command> {
    if verdict == Validation::ProceedAfterCreate {
        seq![
            Command::WriteArchive,
            Command::CreateDestination,
            Command::InspectDestination,
            Command::Decompress,
            Command::RemoveArchive,
        ]
    } else {
        seq![
            Command::WriteArchive,
            Command::InspectDestination,
            Command::Decompress,
            Command::RemoveArchive,
        ]
    }
}

impl Extraction {
    /// The steps whose outcome was taken in on the way from this state while
    /// the steps end as `outcomes` says, in order. A report that changes
    /// nothing answers no step.
    pub open spec fn carried_out(self, outcomes: Seq<Outcome>) -> Seq<Command>
        decreases outcomes.len(),
    {
        if outcomes.len() == 0 {
            Seq::empty()
        } else {
            let earlier = self.carried_out(outcomes.drop_last());
            let before = self.run(outcomes.drop_last());
            if before.next(outcomes.last()) != before && before.pending() is Some {
                earlier.push(before.pending().unwrap())
            } else {
                earlier
            }
        }
    }
}

/// The number of steps that lie behind an installation in `state` that began
/// under `verdict`, if it has not failed.
spec fn steps_behind(verdict: Validation, state: Extraction) -> int {
    let created: int = if verdict == Validation::ProceedAfterCreate {
        1
    } else {
        0
    };
    match state {
        Extraction::WritingArchive { .. } => 0,
        Extraction::CreatingDestination => 1,
        Extraction::Inspecting => 1 + created,
        Extraction::Decompressing => 2 + created,
        Extraction::RemovingArchive => 3 + created,
        Extraction::Finished { .. } => 4 + created,
        Extraction::Failed(_) => 0,
    }
}

proof fn lemma_carried_out_is_planned(verdict: Validation, outcomes: Seq<Outcome>)
    requires
        Extraction::initial(verdict) is Some,
    ensures
        ({
            let start = Extraction::initial(verdict).unwrap();
            let state = start.run(outcomes);
            let steps = start.carried_out(outcomes);
            &&& steps.len() <= plan(verdict).len()
            &&& steps == plan(verdict).take(steps.len() as int)
            &&& !(state is Failed) ==> steps.len() == steps_behind(verdict, state)
            &&& state is Failed ==> steps.len() >= 1
            &&& state is CreatingDestination ==> verdict == Validation::ProceedAfterCreate
            &&& state matches Extraction::WritingArchive { create_destination }
                ==> create_destination == (verdict == Validation::ProceedAfterCreate)
        }),
    decreases outcomes.len(),
{
    let start = Extraction::initial(verdict).unwrap();
    if outcomes.len() == 0 {
        assert(start.carried_out(outcomes) =~= plan(verdict).take(0));
    } else {
        lemma_carried_out_is_planned(verdict, outcomes.drop_last());
        let before = start.run(outcomes.drop_last());
        let earlier = start.carried_out(outcomes.drop_last());
        let steps = start.carried_out(outcomes);
        if before.next(outcomes.last()) != before && before.pending() is Some {
            assert(steps =~= earlier.push(before.pending().unwrap()));
            assert(steps =~= plan(verdict).take(steps.len() as int));
        } else {
            assert(steps =~= earlier);
        }
    }
}

/// An installation carries out the steps of its plan, in their order, and
/// one that finished has carried out all of them.
///
/// So the archive is written before anything else, a destination that was
/// not there is created before it is looked at for the last time, the
/// payload is unpacked after that look, and the temporary archive file is
/// dealt with last. An installation that failed stopped somewhere on that
/// way, after at least one step.
pub proof fn law_steps_follow_the_plan(verdict: Validation, outcomes: Seq<Outcome>)
    requires
        Extraction::initial(verdict) is Some,
    ensures
        ({
            let start = Extraction::initial(verdict).unwrap();
            let steps = start.carried_out(outcomes);
            &&& steps.len() <= plan(verdict).len()
            &&& steps == plan(verdict).take(steps.len() as int)
            &&& start.run(outcomes) is Finished ==> steps == plan(verdict)
            &&& start.run(outcomes) is Failed ==> steps.len() >= 1
        }),
{
    lemma_carried_out_is_planned(verdict, outcomes);
    assert(plan(verdict).take(plan(verdict).len() as int) =~= plan(verdict));
}

/// Nothing is put into the destination unless it was found to be an empty
/// directory by the step just before.
///
/// The only way into unpacking is from the last look at the destination, and
/// only when that look found an empty directory.
pub proof fn law_unpacks_only_into_empty(state: Extraction, outcome: Outcome)
    requires
        state.next(outcome).pending() == Some(Command::Decompress),
        state.pending() != Some(Command::Decompress),
    ensures
        state == Extraction::Inspecting,
        outcome is Inspected,
        outcome->Inspected_0.is_empty_directory(),
{
}

/// An installation that is over stays as it ended, whatever is reported to
/// it, and passes no further checkpoint.
pub proof fn law_over_is_final(state: Extraction, outcomes: Seq<Outcome>)
    requires
        state.is_over(),
    ensures
        state.run(outcomes) == state,
        state.trail(outcomes) == Seq::<ProgressCheckpoint>::empty(),
    decreases outcomes.len(),
{
    if outcomes.len() > 0 {
        law_over_is_final(state, outcomes.drop_last());
    }
}


} // verus!
