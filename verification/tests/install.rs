use dtkit_patch::install::{darktide_dir, prefer, Install, Selection, Vantage, STEAM_APP_ID};

#[test]
fn steam_app_id_is_darktide() {
    assert_eq!(STEAM_APP_ID, 1361210);
}

#[test]
fn selection_by_what_was_found() {
    assert_eq!(darktide_dir(false, false), Selection::NotFound);
    assert_eq!(darktide_dir(true, false), Selection::Use(Install::Steam));
    assert_eq!(darktide_dir(false, true), Selection::Use(Install::XboxGamePass));
    assert_eq!(darktide_dir(true, true), Selection::Both);
}

#[test]
fn working_directory_decides_between_two() {
    assert_eq!(prefer(Vantage::Unknown), Install::Steam);
    assert_eq!(prefer(Vantage::SteamUnresolved), Install::XboxGamePass);
    assert_eq!(prefer(Vantage::XboxUnresolved), Install::Steam);
    assert_eq!(prefer(Vantage::WorkingUnresolved), Install::Steam);
    assert_eq!(prefer(Vantage::Resolved { in_steam: true, in_xbox: false }), Install::Steam);
    assert_eq!(prefer(Vantage::Resolved { in_steam: true, in_xbox: true }), Install::Steam);
    assert_eq!(
        prefer(Vantage::Resolved { in_steam: false, in_xbox: true }),
        Install::XboxGamePass
    );
    assert_eq!(prefer(Vantage::Resolved { in_steam: false, in_xbox: false }), Install::Steam);
}

#[test]
fn bundle_directories() {
    assert_eq!(Install::Steam.bundle_subdir(), "bundle");
    assert_eq!(Install::XboxGamePass.bundle_subdir(), "Content/bundle");
}
