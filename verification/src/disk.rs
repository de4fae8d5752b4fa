//! The two files of a bundle directory held in memory, and whole runs of the
//! machine against them.
//!
//! `MemoryDisk` does what the machine asks for as a file system would, and can
//! be told to fail at one operation. It is what a run is rehearsed and tested
//! on, and what the statements about whole runs are made of.

use crate::config::{ConfigView, PatchConfig};
use crate::detect::patch_offset;
use crate::engine::{
    after_restore, next, patch_darktide, unpatch_darktide, Event, EventView, Outcome, PatchError,
    PatchState, Phase,
};
use vstd::pervasive::unreached;
use vstd::prelude::*;
use vstd::slice::slice_to_vec;

verus! {

/// The operation that is made to fail.
#[derive(Debug, Clone, Copy, PartialEq, Eq, Structural)]
pub enum Fault {
    /// Reading the database.
    Read,
    /// Writing the backup.
    Backup,
    /// Writing the database.
    Write,
    /// Moving the backup onto the database.
    Restore,
}

/// The database file and the backup file, each with its bytes if it exists.
#[derive(Debug, PartialEq, Eq)]
pub struct MemoryDisk {
    pub database: Option<Vec<u8>>,
    pub backup: Option<Vec<u8>>,
}

/// The contents of the two files.
pub ghost struct Files {
    pub database: Option<Seq<u8>>,
    pub backup: Option<Seq<u8>>,
}

/// The bytes of a file that may not exist.
pub open spec fn contents(file: Option<Vec<u8>>) -> Option<Seq<u8>> {
    match file {
        Some(bytes) => Some(bytes@),
        None => None,
    }
}

impl View for MemoryDisk {
    type V = Files;

    open spec fn view(&self) -> Files {
        Files { database: contents(self.database), backup: contents(self.backup) }
    }
}

/// What doing the action of `phase` makes of the files, and the event that
/// reports it. An operation that `fault` names fails and leaves the files as
/// they were. A read or a rename of a file that is not there fails with
/// `missing` set. A write creates or replaces its file. The rename puts the
/// backup's bytes in the database's place and leaves no backup. The operator
/// answers `answer`.
pub open spec fn perform(files: Files, phase: Phase, answer: bool, fault: Option<Fault>) -> (
    Files,
    EventView,
) {
    match phase {
        Phase::Reading => if fault == Some(Fault::Read) {
            (files, EventView::Failed { missing: false })
        } else {
            match files.database {
                Some(bytes) => (files, EventView::Loaded(bytes)),
                None => (files, EventView::Failed { missing: true }),
            }
        },
        Phase::Confirming => (files, EventView::Answered(answer)),
        Phase::BackingUp { database, .. } => if fault == Some(Fault::Backup) {
            (files, EventView::Failed { missing: false })
        } else {
            (Files { backup: Some(database), ..files }, EventView::Completed)
        },
        Phase::Writing { database } => if fault == Some(Fault::Write) {
            (files, EventView::Failed { missing: false })
        } else {
            (Files { database: Some(database), ..files }, EventView::Completed)
        },
        Phase::Restoring => if fault == Some(Fault::Restore) {
            (files, EventView::Failed { missing: false })
        } else {
            match files.backup {
                Some(bytes) => (
                    Files { database: Some(bytes), backup: None },
                    EventView::Completed,
                ),
                None => (files, EventView::Failed { missing: true }),
            }
        },
        Phase::Done(_) => (files, EventView::Completed),
    }
}

/// One turn of a run: the action of the state is done on the files and the
/// machine takes the event. A run that is over stays as it is.
pub open spec fn advance(
    files: Files,
    phase: Phase,
    config: ConfigView,
    interactive: bool,
    answer: bool,
    fault: Option<Fault>,
) -> (Files, Phase) {
    if phase is Done {
        (files, phase)
    } else {
        let (files_after, event) = perform(files, phase, answer, fault);
        (files_after, next(phase, event, config, interactive))
    }
}

/// A whole patch run on `files`: three turns from `Reading`, which is as many
/// as the longest run takes.
pub open spec fn patch_run(
    files: Files,
    config: ConfigView,
    interactive: bool,
    answer: bool,
    fault: Option<Fault>,
) -> (Files, Phase) {
    let (files1, phase1) = advance(files, Phase::Reading, config, interactive, answer, fault);
    let (files2, phase2) = advance(files1, phase1, config, interactive, answer, fault);
    advance(files2, phase2, config, interactive, answer, fault)
}

/// A whole unpatch run on `files`: the rename, and what the machine makes of
/// it.
pub open spec fn unpatch_run(files: Files, fault: Option<Fault>) -> (Files, Phase) {
    let (files_after, event) = perform(files, Phase::Restoring, false, fault);
    (files_after, after_restore(event))
}

/// The range that the patch replaces lies inside `database`, if there is a
/// place for the patch in it at all.
pub open spec fn patch_fits(database: Seq<u8>, config: ConfigView) -> bool {
    match patch_offset(database, config) {
        Some(offset) => offset + config.old_size <= database.len(),
        None => true,
    }
}

/// Whether `fault` names `operation`.
fn fails(fault: Option<Fault>, operation: Fault) -> (hit: bool)
    ensures
        hit == (fault == Some(operation)),
{
    match fault {
        Some(named) => named == operation,
        None => false,
    }
}

impl MemoryDisk {
    /// Does on these files what `state` asks for, and gives the event that the
    /// machine is to be told.
    pub fn perform(&mut self, state: &PatchState, answer: bool, fault: Option<Fault>) -> (event:
        Event)
        ensures
            (final(self)@, event@) == perform(old(self)@, state@, answer, fault),
    {
        match state {
            PatchState::Reading => {
                if fails(fault, Fault::Read) {
                    Event::Failed { missing: false }
                } else {
                    match &self.database {
                        Some(bytes) => Event::Loaded(slice_to_vec(bytes.as_slice())),
                        None => Event::Failed { missing: true },
                    }
                }
            },
            PatchState::Confirming => Event::Answered(answer),
            PatchState::BackingUp { database, .. } => {
                if fails(fault, Fault::Backup) {
                    Event::Failed { missing: false }
                } else {
                    self.backup = Some(slice_to_vec(database.as_slice()));
                    Event::Completed
                }
            },
            PatchState::Writing { database } => {
                if fails(fault, Fault::Write) {
                    Event::Failed { missing: false }
                } else {
                    self.database = Some(slice_to_vec(database.as_slice()));
                    Event::Completed
                }
            },
            PatchState::Restoring => {
                if fails(fault, Fault::Restore) {
                    Event::Failed { missing: false }
                } else {
                    match self.backup.take() {
                        Some(bytes) => {
                            self.database = Some(bytes);
                            Event::Completed
                        },
                        None => Event::Failed { missing: true },
                    }
                }
            },
            PatchState::Done(_) => Event::Completed,
        }
    }

    /// One turn of a run on these files.
    fn advance(
        &mut self,
        state: PatchState,
        config: &PatchConfig,
        interactive: bool,
        answer: bool,
        fault: Option<Fault>,
    ) -> (after: PatchState)
        requires
            state@ matches Phase::BackingUp { database, offset } ==> offset + config@.old_size
                <= database.len(),
        ensures
            (final(self)@, after@) == advance(
                old(self)@,
                state@,
                config@,
                interactive,
                answer,
                fault,
            ),
    {
        match state {
            PatchState::Done(result) => PatchState::Done(result),
            _ => {
                let event = self.perform(&state, answer, fault);
                patch_darktide(state, event, config, interactive)
            },
        }
    }

    /// Runs a patch on these files from the read to the end, and gives how it
    /// ended. `answer` is what the operator says if asked, and `fault` the
    /// operation that fails, if one is to fail.
    pub fn patch(
        &mut self,
        config: &PatchConfig,
        interactive: bool,
        answer: bool,
        fault: Option<Fault>,
    ) -> (result: Result<Outcome, PatchError>)
        requires
            old(self)@.database matches Some(database) ==> patch_fits(database, config@),
        ensures
            (final(self)@, Phase::Done(result)) == patch_run(
                old(self)@,
                config@,
                interactive,
                answer,
                fault,
            ),
    {
        let state = self.advance(PatchState::Reading, config, interactive, answer, fault);
        let state = self.advance(state, config, interactive, answer, fault);
        let state = self.advance(state, config, interactive, answer, fault);
        match state {
            PatchState::Done(result) => result,
            _ => unreached(),
        }
    }

    /// Runs an unpatch on these files, and gives how it ended.
    pub fn unpatch(&mut self, fault: Option<Fault>) -> (result: Result<Outcome, PatchError>)
        ensures
            (final(self)@, Phase::Done(result)) == unpatch_run(old(self)@, fault),
    {
        let event = self.perform(&PatchState::Restoring, false, fault);
        match unpatch_darktide(&event) {
            PatchState::Done(result) => result,
            _ => unreached(),
        }
    }
}

} // verus!
