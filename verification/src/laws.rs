//! What holds of every database, every configuration and every run.

use crate::config::ConfigView;
use crate::detect::{is_patched, is_unsupported, patch_offset};
use crate::disk::{patch_run, unpatch_run, Fault, Files};
use crate::engine::{next, EventView, Outcome, PatchError, Phase};
use crate::scan::{first_match, lemma_first_match, matches_at, occurs};
use crate::splice::spliced;
use vstd::prelude::*;

verus! {

/// The patch marker decides alone. A database that holds it counts as patched
/// whatever else it holds, the version marker and the insertion point
/// included: a read of it ends the run with `AlreadyPatched`, or has the
/// operator asked in interactive mode, and never leads to a write.
pub proof fn law_patch_marker_decides(database: Seq<u8>, config: ConfigView)
    requires
        occurs(database, config.patch_marker),
    ensures
        is_patched(database, config),
        !is_unsupported(database, config),
        patch_offset(database, config).is_none(),
        next(Phase::Reading, EventView::Loaded(database), config, false) == Phase::Done(
            Ok(Outcome::AlreadyPatched),
        ),
        next(Phase::Reading, EventView::Loaded(database), config, true) == Phase::Confirming,
{
}

/// Without interaction a patched database is left alone: the run ends with
/// `AlreadyPatched` and both files are as they were, whatever the operator
/// would have answered and whichever later operation would have failed.
pub proof fn law_patched_database_is_left_alone(
    files: Files,
    database: Seq<u8>,
    config: ConfigView,
    answer: bool,
    fault: Option<Fault>,
)
    requires
        files.database == Some(database),
        occurs(database, config.patch_marker),
        fault != Some(Fault::Read),
    ensures
        patch_run(files, config, false, answer, fault) == (
            files,
            Phase::Done(Ok(Outcome::AlreadyPatched)),
        ),
{
}

/// The version marker comes before the insertion point. A database without
/// the patch marker that holds the version marker is refused with
/// `UnsupportedVersion`, whether or not the insertion point is in it too.
pub proof fn law_version_marker_before_insertion_point(
    database: Seq<u8>,
    config: ConfigView,
    interactive: bool,
)
    requires
        !occurs(database, config.patch_marker),
        occurs(database, config.version_marker),
    ensures
        is_unsupported(database, config),
        patch_offset(database, config).is_none(),
        next(Phase::Reading, EventView::Loaded(database), config, interactive) == Phase::Done(
            Err(PatchError::UnsupportedVersion),
        ),
{
}

/// A database with none of the three markers is refused with
/// `PatchPointNotFound`. The empty database is one, unless a marker is empty
/// itself.
pub proof fn law_no_marker_no_patch(database: Seq<u8>, config: ConfigView, interactive: bool)
    requires
        !occurs(database, config.patch_marker),
        !occurs(database, config.version_marker),
        !occurs(database, config.insertion_point),
    ensures
        next(Phase::Reading, EventView::Loaded(database), config, interactive) == Phase::Done(
            Err(PatchError::PatchPointNotFound),
        ),
{
    lemma_first_match(database, config.insertion_point);
}

/// Nothing but the empty sequence lies in an empty buffer.
pub proof fn law_empty_buffer_holds_nothing(needle: Seq<u8>)
    requires
        needle.len() > 0,
    ensures
        !occurs(Seq::<u8>::empty(), needle),
        first_match(Seq::<u8>::empty(), needle).is_none(),
{
}

/// The parts of a spliced buffer: up to `offset` it is the old buffer, then
/// comes the payload, then the old buffer from the end of the replaced range
/// on; and its length is the old length less `old_size` plus the payload's.
pub proof fn law_splice_parts(buffer: Seq<u8>, offset: int, old_size: int, payload: Seq<u8>)
    requires
        0 <= offset,
        0 <= old_size,
        offset + old_size <= buffer.len(),
    ensures
        ({
            let result = spliced(buffer, offset, old_size, payload);
            &&& result.len() == buffer.len() - old_size + payload.len()
            &&& result.subrange(0, offset) == buffer.subrange(0, offset)
            &&& result.subrange(offset, offset + payload.len()) == payload
            &&& result.subrange(offset + payload.len(), result.len() as int) == buffer.subrange(
                offset + old_size,
                buffer.len() as int,
            )
        }),
{
    let result = spliced(buffer, offset, old_size, payload);
    assert(result.subrange(0, offset) =~= buffer.subrange(0, offset));
    assert(result.subrange(offset, offset + payload.len()) =~= payload);
    assert(result.subrange(offset + payload.len(), result.len() as int) =~= buffer.subrange(
        offset + old_size,
        buffer.len() as int,
    ));
}

/// What lies in the payload lies in the spliced buffer, as far to the right as
/// the payload was put.
pub proof fn law_payload_content_survives(
    buffer: Seq<u8>,
    offset: int,
    old_size: int,
    payload: Seq<u8>,
    needle: Seq<u8>,
    at: int,
)
    requires
        0 <= offset,
        0 <= old_size,
        offset + old_size <= buffer.len(),
        matches_at(payload, needle, at),
    ensures
        matches_at(spliced(buffer, offset, old_size, payload), needle, offset + at),
{
    let result = spliced(buffer, offset, old_size, payload);
    assert(result.subrange(offset + at, offset + at + needle.len()) =~= payload.subrange(
        at,
        at + needle.len(),
    ));
}

/// A patched buffer is known again. Where the payload holds the patch marker,
/// the buffer that a splice gives counts as patched, so no place for the patch
/// is found in it any more: not at the old offset and not elsewhere.
pub proof fn law_spliced_counts_as_patched(
    buffer: Seq<u8>,
    offset: int,
    config: ConfigView,
    interactive: bool,
)
    requires
        0 <= offset,
        offset + config.old_size <= buffer.len(),
        occurs(config.payload, config.patch_marker),
    ensures
        ({
            let result = spliced(buffer, offset, config.old_size as int, config.payload);
            &&& is_patched(result, config)
            &&& patch_offset(result, config).is_none()
            &&& !(next(Phase::Reading, EventView::Loaded(result), config, interactive)
                is BackingUp)
        }),
{
    let at = choose|at: int| matches_at(config.payload, config.patch_marker, at);
    law_payload_content_survives(
        buffer,
        offset,
        config.old_size as int,
        config.payload,
        config.patch_marker,
        at,
    );
}

/// The backup comes first. The machine asks for the database to be written
/// only in answer to a backup that has been written, and then asks for the
/// spliced bytes of the buffer that went to the backup.
pub proof fn law_write_only_after_backup(
    phase: Phase,
    event: EventView,
    config: ConfigView,
    interactive: bool,
)
    requires
        !(phase is Writing),
        next(phase, event, config, interactive) is Writing,
    ensures
        event == EventView::Completed,
        phase matches Phase::BackingUp { database, offset } && next(
            phase,
            event,
            config,
            interactive,
        ) == (Phase::Writing {
            database: spliced(database, offset, config.old_size as int, config.payload),
        }),
{
}

/// A patch run is over after its three turns.
pub proof fn law_patch_run_ends(
    files: Files,
    config: ConfigView,
    interactive: bool,
    answer: bool,
    fault: Option<Fault>,
)
    ensures
        patch_run(files, config, interactive, answer, fault).1 is Done,
{
}

/// A backup that cannot be written costs nothing: a run that ends with
/// `BackupFailed` leaves the database with the bytes it had.
pub proof fn law_failed_backup_keeps_database(
    files: Files,
    config: ConfigView,
    interactive: bool,
    answer: bool,
    fault: Option<Fault>,
)
    ensures
        ({
            let (after, end) = patch_run(files, config, interactive, answer, fault);
            end == Phase::Done(Err(PatchError::BackupFailed)) ==> after.database
                == files.database
        }),
{
}

/// A run on a database with a place for the patch, with the backup made to
/// fail, ends with `BackupFailed` and leaves both files as they were.
pub proof fn law_backup_fault_stops_the_run(
    files: Files,
    database: Seq<u8>,
    config: ConfigView,
    interactive: bool,
    answer: bool,
)
    requires
        files.database == Some(database),
        patch_offset(database, config).is_some(),
    ensures
        patch_run(files, config, interactive, answer, Some(Fault::Backup)) == (
            files,
            Phase::Done(Err(PatchError::BackupFailed)),
        ),
{
}

/// A run that refuses the database writes nothing. After `AlreadyPatched`
/// without a restore, `ReadFailed`, `UnsupportedVersion` and
/// `PatchPointNotFound` both files are as they were.
pub proof fn law_refusal_writes_nothing(
    files: Files,
    config: ConfigView,
    interactive: bool,
    answer: bool,
    fault: Option<Fault>,
)
    ensures
        ({
            let (after, end) = patch_run(files, config, interactive, answer, fault);
            (end == Phase::Done(Ok(Outcome::AlreadyPatched)) || end == Phase::Done(
                Err(PatchError::ReadFailed),
            ) || end == Phase::Done(Err(PatchError::UnsupportedVersion)) || end == Phase::Done(
                Err(PatchError::PatchPointNotFound),
            )) ==> after == files
        }),
{
}

/// Whenever the database is written or was about to be, its old bytes are in
/// the backup. After `Patched` and after `WriteFailed` the backup holds
/// exactly what the database held before the run.
pub proof fn law_backup_is_the_old_database(
    files: Files,
    config: ConfigView,
    interactive: bool,
    answer: bool,
    fault: Option<Fault>,
)
    ensures
        ({
            let (after, end) = patch_run(files, config, interactive, answer, fault);
            (end == Phase::Done(Ok(Outcome::Patched)) || end == Phase::Done(
                Err(PatchError::WriteFailed),
            )) ==> files.database.is_some() && after.backup == files.database
        }),
{
}

/// Patch, then unpatch, gives the database back. On a database with a place
/// for the patch a run without faults ends with `Patched`, the database then
/// holds the spliced bytes and the backup the old ones; the unpatch run that
/// follows ends with `Unpatched`, the database then holds the old bytes again
/// and no backup is left.
pub proof fn law_unpatch_undoes_patch(
    files: Files,
    database: Seq<u8>,
    offset: int,
    config: ConfigView,
    interactive: bool,
    answer: bool,
)
    requires
        files.database == Some(database),
        patch_offset(database, config) == Some(offset),
        offset + config.old_size <= database.len(),
    ensures
        ({
            let (patched, end) = patch_run(files, config, interactive, answer, None);
            let (restored, end_again) = unpatch_run(patched, None);
            &&& end == Phase::Done(Ok(Outcome::Patched))
            &&& patched.database == Some(
                spliced(database, offset, config.old_size as int, config.payload),
            )
            &&& patched.backup == Some(database)
            &&& end_again == Phase::Done(Ok(Outcome::Unpatched))
            &&& restored == Files { database: Some(database), backup: None }
        }),
{
}

/// Without a backup there is nothing to undo. An unpatch run on files without
/// a backup ends with `BackupNotFound` and leaves the database, if there is
/// one, as it was.
pub proof fn law_unpatch_needs_backup(files: Files, fault: Option<Fault>)
    requires
        files.backup.is_none(),
        fault != Some(Fault::Restore),
    ensures
        unpatch_run(files, fault) == (files, Phase::Done(Err(PatchError::BackupNotFound))),
{
}

/// An unpatch run does not look at the database: with a backup and no fault
/// it ends with `Unpatched`, whatever the database holds and whether it
/// exists.
pub proof fn law_unpatch_restores_backup(files: Files, backup: Seq<u8>)
    requires
        files.backup == Some(backup),
    ensures
        unpatch_run(files, None) == (
            Files { database: Some(backup), backup: None },
            Phase::Done(Ok(Outcome::Unpatched)),
        ),
{
}

} // verus!
