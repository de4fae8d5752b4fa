use dtkit_patch::config::PatchConfig;
use dtkit_patch::engine::{
    patch_darktide, unpatch_darktide, Action, Event, Outcome, PatchError, PatchState,
};

fn synthetic() -> PatchConfig {
    PatchConfig {
        patch_marker: b"PATCHED".to_vec(),
        version_marker: b"V2".to_vec(),
        insertion_point: b"HERE".to_vec(),
        old_size: 6,
        payload: b"<PATCHED>".to_vec(),
    }
}

#[test]
fn reading_asks_for_the_database() {
    assert_eq!(PatchState::Reading.action(), Action::ReadDatabase);
    assert_eq!(PatchState::Confirming.action(), Action::AskUnpatch);
    assert_eq!(PatchState::Restoring.action(), Action::RestoreBackup);
    assert_eq!(
        PatchState::Done(Ok(Outcome::Patched)).action(),
        Action::Finish(Ok(Outcome::Patched))
    );
}

#[test]
fn failed_read_ends_with_read_failed() {
    let config = synthetic();
    let state = patch_darktide(PatchState::Reading, Event::Failed { missing: true }, &config, false);
    assert_eq!(state, PatchState::Done(Err(PatchError::ReadFailed)));
    let state = patch_darktide(PatchState::Reading, Event::Failed { missing: false }, &config, true);
    assert_eq!(state, PatchState::Done(Err(PatchError::ReadFailed)));
}

#[test]
fn patched_database_without_interaction_is_already_patched() {
    let config = synthetic();
    let state = patch_darktide(
        PatchState::Reading,
        Event::Loaded(b"..PATCHED..HERE..".to_vec()),
        &config,
        false,
    );
    assert_eq!(state, PatchState::Done(Ok(Outcome::AlreadyPatched)));
}

#[test]
fn patched_database_with_interaction_asks_the_operator() {
    let config = synthetic();
    let state =
        patch_darktide(PatchState::Reading, Event::Loaded(b"PATCHED".to_vec()), &config, true);
    assert_eq!(state, PatchState::Confirming);
    let no = patch_darktide(PatchState::Confirming, Event::Answered(false), &config, true);
    assert_eq!(no, PatchState::Done(Ok(Outcome::AlreadyPatched)));
    let yes = patch_darktide(PatchState::Confirming, Event::Answered(true), &config, true);
    assert_eq!(yes, PatchState::Restoring);
}

#[test]
fn version_marker_is_unsupported() {
    let config = synthetic();
    let state =
        patch_darktide(PatchState::Reading, Event::Loaded(b"HERE..V2".to_vec()), &config, true);
    assert_eq!(state, PatchState::Done(Err(PatchError::UnsupportedVersion)));
}

#[test]
fn empty_database_has_no_patch_point() {
    let config = synthetic();
    let state = patch_darktide(PatchState::Reading, Event::Loaded(Vec::new()), &config, false);
    assert_eq!(state, PatchState::Done(Err(PatchError::PatchPointNotFound)));
}

#[test]
fn patchable_database_goes_through_backup_and_write() {
    let config = synthetic();
    let original = b"abHERE12cd".to_vec();
    let state =
        patch_darktide(PatchState::Reading, Event::Loaded(original.clone()), &config, false);
    assert_eq!(state, PatchState::BackingUp { database: original.clone(), offset: 2 });
    assert_eq!(state.action(), Action::WriteBackup(&original));
    assert!(state.accepts(&Event::Completed, &config));
    let state = patch_darktide(state, Event::Completed, &config, false);
    let patched = b"ab<PATCHED>cd".to_vec();
    assert_eq!(state, PatchState::Writing { database: patched.clone() });
    assert_eq!(state.action(), Action::WriteDatabase(&patched));
    let state = patch_darktide(state, Event::Completed, &config, false);
    assert_eq!(state, PatchState::Done(Ok(Outcome::Patched)));
}

#[test]
fn failed_backup_never_asks_for_the_database_write() {
    let config = synthetic();
    let state = PatchState::BackingUp { database: b"abHERE12cd".to_vec(), offset: 2 };
    let state = patch_darktide(state, Event::Failed { missing: false }, &config, false);
    assert_eq!(state, PatchState::Done(Err(PatchError::BackupFailed)));
    assert_eq!(state.action(), Action::Finish(Err(PatchError::BackupFailed)));
}

#[test]
fn failed_write_ends_with_write_failed() {
    let config = synthetic();
    let state = PatchState::Writing { database: b"ab<PATCHED>cd".to_vec() };
    let state = patch_darktide(state, Event::Failed { missing: false }, &config, false);
    assert_eq!(state, PatchState::Done(Err(PatchError::WriteFailed)));
}

#[test]
fn range_past_the_end_is_not_accepted() {
    let config = synthetic();
    let state = PatchState::BackingUp { database: b"abHERE1".to_vec(), offset: 2 };
    assert!(!state.accepts(&Event::Completed, &config));
    assert!(state.accepts(&Event::Failed { missing: false }, &config));
    let exact = PatchState::BackingUp { database: b"abHERE12".to_vec(), offset: 2 };
    assert!(exact.accepts(&Event::Completed, &config));
}

#[test]
fn unpatch_steps() {
    assert_eq!(unpatch_darktide(&Event::Completed), PatchState::Done(Ok(Outcome::Unpatched)));
    assert_eq!(
        unpatch_darktide(&Event::Failed { missing: true }),
        PatchState::Done(Err(PatchError::BackupNotFound))
    );
    assert_eq!(
        unpatch_darktide(&Event::Failed { missing: false }),
        PatchState::Done(Err(PatchError::RestoreFailed))
    );
    assert_eq!(unpatch_darktide(&Event::Answered(true)), PatchState::Restoring);
}

#[test]
fn restoring_state_follows_the_unpatch_step() {
    let config = synthetic();
    let state = patch_darktide(PatchState::Restoring, Event::Completed, &config, true);
    assert_eq!(state, PatchState::Done(Ok(Outcome::Unpatched)));
}

#[test]
fn events_that_do_not_answer_change_nothing() {
    let config = synthetic();
    assert_eq!(
        patch_darktide(PatchState::Reading, Event::Completed, &config, false),
        PatchState::Reading
    );
    assert_eq!(
        patch_darktide(PatchState::Confirming, Event::Completed, &config, false),
        PatchState::Confirming
    );
    let done = PatchState::Done(Err(PatchError::WriteFailed));
    assert_eq!(
        patch_darktide(done, Event::Loaded(b"HERE".to_vec()), &config, false),
        PatchState::Done(Err(PatchError::WriteFailed))
    );
}
