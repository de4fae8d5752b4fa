use dtkit_patch::registry::{
    find_darktide, Hive, Lookup, LookupError, RegistryQuery, RegistryReply,
};

const FAMILY: &str = "Local Settings\\Software\\Microsoft\\Windows\\CurrentVersion\\AppModel\\Repository\\Families\\FatsharkAB.Warhammer40000DarktideNew_hwm6pnepa3ng2";
const FULL_NAME: &str = "SOFTWARE\\Microsoft\\Windows\\CurrentVersion\\AppModel\\StateRepository\\Cache\\Package\\Index\\PackageFullName";
const DATA: &str = "SOFTWARE\\Microsoft\\Windows\\CurrentVersion\\AppModel\\StateRepository\\Cache\\Package\\Data";

#[test]
fn walk_starts_with_the_first_package_of_the_family() {
    let lookup = Lookup::start();
    assert_eq!(lookup, Lookup::Family { index: 0 });
    assert_eq!(
        lookup.query(),
        Some(RegistryQuery::Subkey {
            hive: Hive::ClassesRoot,
            path: FAMILY.to_string(),
            index: 0
        })
    );
}

#[test]
fn walk_finds_the_installed_location() {
    let lookup = find_darktide(Lookup::start(), RegistryReply::Text("Pkg_1.0".to_string()));
    assert_eq!(lookup, Lookup::Package { family: 0, name: "Pkg_1.0".to_string() });
    assert_eq!(
        lookup.query(),
        Some(RegistryQuery::Subkey {
            hive: Hive::LocalMachine,
            path: format!("{}\\{}", FULL_NAME, "Pkg_1.0"),
            index: 0
        })
    );
    let lookup = find_darktide(lookup, RegistryReply::Text("2a".to_string()));
    assert_eq!(lookup, Lookup::Location { entry: "2a".to_string() });
    assert_eq!(
        lookup.query(),
        Some(RegistryQuery::Value {
            hive: Hive::LocalMachine,
            path: format!("{}\\{}", DATA, "2a"),
            name: "InstalledLocation".to_string()
        })
    );
    let lookup = find_darktide(lookup, RegistryReply::Text("C:\\XboxGames\\Darktide".to_string()));
    assert_eq!(lookup, Lookup::Found("C:\\XboxGames\\Darktide".to_string()));
    assert_eq!(lookup.query(), None);
}

#[test]
fn package_without_index_entry_is_passed_over() {
    let lookup = Lookup::Package { family: 3, name: "Pkg".to_string() };
    assert_eq!(find_darktide(lookup, RegistryReply::End), Lookup::Family { index: 4 });
    let last = Lookup::Package { family: u32::MAX, name: "Pkg".to_string() };
    assert_eq!(find_darktide(last, RegistryReply::End), Lookup::Failed(LookupError::NotFound));
}

#[test]
fn end_of_family_is_not_found() {
    assert_eq!(
        find_darktide(Lookup::start(), RegistryReply::End),
        Lookup::Failed(LookupError::NotFound)
    );
    assert_eq!(
        find_darktide(Lookup::Family { index: 7 }, RegistryReply::End),
        Lookup::Failed(LookupError::NotFound)
    );
}

#[test]
fn refused_question_ends_the_walk() {
    assert_eq!(
        find_darktide(Lookup::start(), RegistryReply::Failed),
        Lookup::Failed(LookupError::Registry)
    );
    assert_eq!(
        find_darktide(Lookup::Package { family: 0, name: "P".to_string() }, RegistryReply::Failed),
        Lookup::Failed(LookupError::Registry)
    );
    assert_eq!(
        find_darktide(Lookup::Location { entry: "1".to_string() }, RegistryReply::Failed),
        Lookup::Failed(LookupError::Registry)
    );
    assert_eq!(
        find_darktide(Lookup::Location { entry: "1".to_string() }, RegistryReply::End),
        Lookup::Failed(LookupError::Registry)
    );
}

#[test]
fn platform_without_registry_is_unsupported() {
    assert_eq!(
        find_darktide(Lookup::start(), RegistryReply::Unavailable),
        Lookup::Failed(LookupError::Unsupported)
    );
}

#[test]
fn finished_walk_stays_finished() {
    assert_eq!(
        find_darktide(Lookup::Found("D".to_string()), RegistryReply::Failed),
        Lookup::Found("D".to_string())
    );
    assert_eq!(
        find_darktide(Lookup::Failed(LookupError::NotFound), RegistryReply::Text("x".to_string())),
        Lookup::Failed(LookupError::NotFound)
    );
}
