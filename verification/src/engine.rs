//! The patch and unpatch operations as a state machine.
//!
//! The machine never touches a file. Its state names the one thing to be done
//! next (`PatchState::action`); the program does it and reports what happened
//! as an `Event`; `patch_darktide` gives the state that follows. A patch run
//! starts in `PatchState::Reading`, an unpatch run in `PatchState::Restoring`,
//! and both end in `PatchState::Done`.

use crate::config::{ConfigView, PatchConfig};
use crate::detect::{classify, is_patched, is_unsupported, patch_offset, DatabaseState};
use crate::splice::{splice, spliced};
use vstd::prelude::*;

verus! {

/// How an operation ended where it did not fail.
#[derive(Debug, Clone, Copy, PartialEq, Eq, Structural)]
pub enum Outcome {
    /// The database holds the patch now, and the backup holds what it was.
    Patched,
    /// The database held the patch already. Nothing was written.
    AlreadyPatched,
    /// The backup has taken the place of the database.
    Unpatched,
}

/// Why an operation stopped.
#[derive(Debug, Clone, Copy, PartialEq, Eq, Structural)]
pub enum PatchError {
    /// The database could not be read.
    ReadFailed,
    /// The database holds the version marker. Nothing was written.
    UnsupportedVersion,
    /// The database holds none of the markers. Nothing was written.
    PatchPointNotFound,
    /// The backup could not be written. The database was not touched.
    BackupFailed,
    /// The patched database could not be written. The backup is in place.
    WriteFailed,
    /// There is no backup to restore.
    BackupNotFound,
    /// The backup is there and could not be moved onto the database.
    RestoreFailed,
}

/// What the program reports back after it has done what the machine asked for.
#[derive(Debug, PartialEq, Eq)]
pub enum Event {
    /// The database was read; these are its bytes.
    Loaded(Vec<u8>),
    /// The operator said whether the patch is to be removed.
    Answered(bool),
    /// The write or the rename went through.
    Completed,
    /// The read, the write or the rename failed; `missing` says that it failed
    /// because the file to act on does not exist.
    Failed { missing: bool },
}

/// An `Event` as plain values.
pub ghost enum EventView {
    Loaded(Seq<u8>),
    Answered(bool),
    Completed,
    Failed { missing: bool },
}

impl View for Event {
    type V = EventView;

    open spec fn view(&self) -> EventView {
        match *self {
            Event::Loaded(bytes) => EventView::Loaded(bytes@),
            Event::Answered(yes) => EventView::Answered(yes),
            Event::Completed => EventView::Completed,
            Event::Failed { missing } => EventView::Failed { missing },
        }
    }
}

/// Where a run stands. Each state but `Done` waits for the event that answers
/// its action.
#[derive(Debug, PartialEq, Eq)]
pub enum PatchState {
    /// The database is to be read.
    Reading,
    /// The database holds the patch, and the operator is to be asked whether
    /// to remove it.
    Confirming,
    /// `database` is what was read, unchanged; it is to be written to the
    /// backup file. The patch goes in at `offset`.
    BackingUp { database: Vec<u8>, offset: usize },
    /// `database` is the patched buffer; it is to be written over the database
    /// file.
    Writing { database: Vec<u8> },
    /// The backup is to be moved onto the database file.
    Restoring,
    /// The run is over.
    Done(Result<Outcome, PatchError>),
}

/// A `PatchState` as plain values.
pub ghost enum Phase {
    Reading,
    Confirming,
    BackingUp { database: Seq<u8>, offset: int },
    Writing { database: Seq<u8> },
    Restoring,
    Done(Result<Outcome, PatchError>),
}

impl View for PatchState {
    type V = Phase;

    open spec fn view(&self) -> Phase {
        match *self {
            PatchState::Reading => Phase::Reading,
            PatchState::Confirming => Phase::Confirming,
            PatchState::BackingUp { database, offset } => Phase::BackingUp {
                database: database@,
                offset: offset as int,
            },
            PatchState::Writing { database } => Phase::Writing { database: database@ },
            PatchState::Restoring => Phase::Restoring,
            PatchState::Done(result) => Phase::Done(result),
        }
    }
}

/// The one thing that a state asks the program to do.
#[derive(Debug, PartialEq, Eq)]
pub enum Action<'a> {
    /// Read the database file in full.
    ReadDatabase,
    /// Ask the operator whether the patch is to be removed. Where nobody can be
    /// asked the answer is no.
    AskUnpatch,
    /// Write these bytes to the backup file.
    WriteBackup(&'a [u8]),
    /// Write these bytes over the database file.
    WriteDatabase(&'a [u8]),
    /// Move the backup file onto the database file.
    RestoreBackup,
    /// Nothing is left to do; this is how the run ended.
    Finish(Result<Outcome, PatchError>),
}

/// The state after a database has been read.
pub open spec fn after_read(database: Seq<u8>, config: ConfigView, interactive: bool) -> Phase {
    if is_patched(database, config) {
        if interactive {
            Phase::Confirming
        } else {
            Phase::Done(Ok(Outcome::AlreadyPatched))
        }
    } else if is_unsupported(database, config) {
        Phase::Done(Err(PatchError::UnsupportedVersion))
    } else {
        match patch_offset(database, config) {
            Some(offset) => Phase::BackingUp { database, offset },
            None => Phase::Done(Err(PatchError::PatchPointNotFound)),
        }
    }
}

/// The state that follows `Restoring` on `event`.
pub open spec fn after_restore(event: EventView) -> Phase {
    match event {
        EventView::Completed => Phase::Done(Ok(Outcome::Unpatched)),
        EventView::Failed { missing } => if missing {
            Phase::Done(Err(PatchError::BackupNotFound))
        } else {
            Phase::Done(Err(PatchError::RestoreFailed))
        },
        _ => Phase::Restoring,
    }
}

/// The state that follows `phase` on `event`. An event that does not answer
/// the action of `phase` leaves the state as it is.
pub open spec fn next(phase: Phase, event: EventView, config: ConfigView, interactive: bool) -> Phase {
    match phase {
        Phase::Reading => match event {
            EventView::Loaded(database) => after_read(database, config, interactive),
            EventView::Failed { .. } => Phase::Done(Err(PatchError::ReadFailed)),
            _ => phase,
        },
        Phase::Confirming => match event {
            EventView::Answered(yes) => if yes {
                Phase::Restoring
            } else {
                Phase::Done(Ok(Outcome::AlreadyPatched))
            },
            _ => phase,
        },
        Phase::BackingUp { database, offset } => match event {
            EventView::Completed => Phase::Writing {
                database: spliced(database, offset, config.old_size as int, config.payload),
            },
            EventView::Failed { .. } => Phase::Done(Err(PatchError::BackupFailed)),
            _ => phase,
        },
        Phase::Writing { .. } => match event {
            EventView::Completed => Phase::Done(Ok(Outcome::Patched)),
            EventView::Failed { .. } => Phase::Done(Err(PatchError::WriteFailed)),
            _ => phase,
        },
        Phase::Restoring => after_restore(event),
        Phase::Done(_) => phase,
    }
}

/// The range that the patch replaces lies inside the buffer that waits for its
/// backup. Only a state that waits for the backup, met by the event that the
/// backup is written, has anything to fit.
pub open spec fn range_fits(phase: Phase, event: EventView, config: ConfigView) -> bool {
    match (phase, event) {
        (Phase::BackingUp { database, offset }, EventView::Completed) => offset + config.old_size
            <= database.len(),
        _ => true,
    }
}

impl PatchState {
    /// What is to be done in this state, with the bytes to write where it is a
    /// write.
    pub fn action(&self) -> (todo: Action<'_>)
        ensures
            match self@ {
                Phase::Reading => todo == Action::ReadDatabase,
                Phase::Confirming => todo == Action::AskUnpatch,
                Phase::BackingUp { database, .. } => todo matches Action::WriteBackup(bytes)
                    && bytes@ == database,
                Phase::Writing { database } => todo matches Action::WriteDatabase(bytes) && bytes@
                    == database,
                Phase::Restoring => todo == Action::RestoreBackup,
                Phase::Done(result) => todo == Action::Finish(result),
            },
    {
        match self {
            PatchState::Reading => Action::ReadDatabase,
            PatchState::Confirming => Action::AskUnpatch,
            PatchState::BackingUp { database, .. } => Action::WriteBackup(database.as_slice()),
            PatchState::Writing { database } => Action::WriteDatabase(database.as_slice()),
            PatchState::Restoring => Action::RestoreBackup,
            PatchState::Done(result) => Action::Finish(*result),
        }
    }

    /// Whether `patch_darktide` may be given `event` in this state: false only
    /// where the backup has been written and the range to replace runs past
    /// the end of the buffer.
    pub fn accepts(&self, event: &Event, config: &PatchConfig) -> (fits: bool)
        ensures
            fits == range_fits(self@, event@, config@),
    {
        match (self, event) {
            (PatchState::BackingUp { database, offset }, Event::Completed) => {
                *offset <= database.len() && config.old_size <= database.len() - *offset
            },
            _ => true,
        }
    }
}

/// The step of an unpatch run: what follows once the program has tried to move
/// the backup onto the database. A rename that went through ends the run with
/// `Unpatched`; one that failed ends it with `BackupNotFound` where the backup
/// is missing and with `RestoreFailed` otherwise. Any other event is not an
/// answer to the rename and leaves the run waiting for it.
pub fn unpatch_darktide(event: &Event) -> (state: PatchState)
    ensures
        state@ == after_restore(event@),
{
    match event {
        Event::Completed => PatchState::Done(Ok(Outcome::Unpatched)),
        Event::Failed { missing } => if *missing {
            PatchState::Done(Err(PatchError::BackupNotFound))
        } else {
            PatchState::Done(Err(PatchError::RestoreFailed))
        },
        _ => PatchState::Restoring,
    }
}

/// The step of a patch run: the state that follows `state` once the program
/// reports `event`.
///
/// - `Reading`: a database that was read is put into one of its states, the
///   patch marker first, then the version marker, then the insertion point. A
///   patched one ends the run with `AlreadyPatched`, or has the operator asked
///   where `interactive_mode` is set; the version marker ends it with
///   `UnsupportedVersion`; no insertion point ends it with
///   `PatchPointNotFound`; otherwise the unchanged bytes wait for their backup.
///   A failed read ends the run with `ReadFailed`.
/// - `Confirming`: a yes goes on to restore the backup, a no ends the run with
///   `AlreadyPatched`.
/// - `BackingUp`: once the backup is written the payload is spliced in and the
///   result waits to be written; a failed backup ends the run with
///   `BackupFailed`, and no write of the database is ever asked for.
/// - `Writing`: ends the run with `Patched`, or with `WriteFailed`.
/// - `Restoring`: as `unpatch_darktide`.
///
/// An event that does not answer the state's action changes nothing, and
/// neither does any event once the run is over.
pub fn patch_darktide(
    state: PatchState,
    event: Event,
    config: &PatchConfig,
    interactive_mode: bool,
) -> (after: PatchState)
    requires
        range_fits(state@, event@, config@),
    ensures
        after@ == next(state@, event@, config@, interactive_mode),
{
    match state {
        PatchState::Reading => match event {
            Event::Loaded(database) => {
                match classify(database.as_slice(), config) {
                    DatabaseState::Patched => if interactive_mode {
                        PatchState::Confirming
                    } else {
                        PatchState::Done(Ok(Outcome::AlreadyPatched))
                    },
                    DatabaseState::UnsupportedVersion => PatchState::Done(
                        Err(PatchError::UnsupportedVersion),
                    ),
                    DatabaseState::Patchable { offset } => PatchState::BackingUp {
                        database,
                        offset,
                    },
                    DatabaseState::Unrecognized => PatchState::Done(
                        Err(PatchError::PatchPointNotFound),
                    ),
                }
            },
            Event::Failed { .. } => PatchState::Done(Err(PatchError::ReadFailed)),
            _ => PatchState::Reading,
        },
        PatchState::Confirming => match event {
            Event::Answered(yes) => if yes {
                PatchState::Restoring
            } else {
                PatchState::Done(Ok(Outcome::AlreadyPatched))
            },
            _ => PatchState::Confirming,
        },
        PatchState::BackingUp { database, offset } => match event {
            Event::Completed => {
                let mut database = database;
                splice(&mut database, offset, config.old_size, config.payload.as_slice());
                PatchState::Writing { database }
            },
            Event::Failed { .. } => PatchState::Done(Err(PatchError::BackupFailed)),
            _ => PatchState::BackingUp { database, offset },
        },
        PatchState::Writing { database } => match event {
            Event::Completed => PatchState::Done(Ok(Outcome::Patched)),
            Event::Failed { .. } => PatchState::Done(Err(PatchError::WriteFailed)),
            _ => PatchState::Writing { database },
        },
        PatchState::Restoring => unpatch_darktide(&event),
        PatchState::Done(result) => PatchState::Done(result),
    }
}

} // verus!
