use dtkit_patch::locate::DatabaseLocator;

#[test]
fn paths_below_a_directory() {
    let locator = DatabaseLocator::new("/games/darktide/bundle".to_string());
    assert_eq!(locator.database_path(), "/games/darktide/bundle/bundle_database.data");
    assert_eq!(locator.backup_path(), "/games/darktide/bundle/bundle_database.data.bak");
}

#[test]
fn no_second_separator_after_a_trailing_one() {
    let locator = DatabaseLocator::new("bundle/".to_string());
    assert_eq!(locator.database_path(), "bundle/bundle_database.data");
    assert_eq!(locator.backup_path(), "bundle/bundle_database.data.bak");
}

#[test]
fn empty_base_is_the_working_directory() {
    let locator = DatabaseLocator::new(String::new());
    assert_eq!(locator.database_path(), "bundle_database.data");
    assert_eq!(locator.backup_path(), "bundle_database.data.bak");
}

#[test]
fn base_with_other_than_ascii() {
    let locator = DatabaseLocator::new("/spiele/größe".to_string());
    assert_eq!(locator.database_path(), "/spiele/größe/bundle_database.data");
}

#[test]
fn paths_agree_with_std_on_this_platform() {
    for base in ["/a/b", "a", "a/", "", "/"] {
        let locator = DatabaseLocator::new(base.to_string());
        let joined = std::path::Path::new(base).join("bundle_database.data");
        assert_eq!(locator.database_path(), joined.to_str().unwrap());
    }
}
