use dtkit_patch::config::PatchConfig;
use dtkit_patch::detect::{classify, DatabaseState};

fn synthetic() -> PatchConfig {
    PatchConfig {
        patch_marker: b"PATCHED".to_vec(),
        version_marker: b"V2".to_vec(),
        insertion_point: b"HERE".to_vec(),
        old_size: 6,
        payload: b"<PATCHED>".to_vec(),
    }
}

#[test]
fn patch_marker_wins_over_everything() {
    let config = synthetic();
    assert_eq!(classify(b"..HERE..V2..PATCHED..", &config), DatabaseState::Patched);
    assert_eq!(classify(b"PATCHED", &config), DatabaseState::Patched);
    assert_eq!(classify(b"HERExxPATCHED", &config), DatabaseState::Patched);
}

#[test]
fn version_marker_wins_over_insertion_point() {
    let config = synthetic();
    assert_eq!(classify(b"..HERE..V2..", &config), DatabaseState::UnsupportedVersion);
    assert_eq!(classify(b"V2HERE", &config), DatabaseState::UnsupportedVersion);
    assert_eq!(classify(b"V2", &config), DatabaseState::UnsupportedVersion);
}

#[test]
fn insertion_point_gives_first_offset() {
    let config = synthetic();
    assert_eq!(classify(b"..HERE..HERE", &config), DatabaseState::Patchable { offset: 2 });
    assert_eq!(classify(b"HERE", &config), DatabaseState::Patchable { offset: 0 });
}

#[test]
fn nothing_found_is_unrecognized() {
    let config = synthetic();
    assert_eq!(classify(b"", &config), DatabaseState::Unrecognized);
    assert_eq!(classify(b"HER", &config), DatabaseState::Unrecognized);
    assert_eq!(classify(b"PATCHE V HEREx"[..9].as_ref(), &config), DatabaseState::Unrecognized);
}

#[test]
fn darktide_markers_are_told_apart() {
    let config = PatchConfig::darktide(b"patch_999".to_vec());
    let anchor = 0xA33A4AA4AF26A69Bu64.to_be_bytes();
    let mut database = vec![0u8; 10];
    database.extend_from_slice(&anchor);
    database.extend_from_slice(&[0u8; 100]);
    assert_eq!(classify(&database, &config), DatabaseState::Patchable { offset: 10 });
    database.extend_from_slice(b"9ba626afa44a3aa3.patch_001");
    assert_eq!(classify(&database, &config), DatabaseState::UnsupportedVersion);
    database.extend_from_slice(b"patch_999");
    assert_eq!(classify(&database, &config), DatabaseState::Patched);
}
