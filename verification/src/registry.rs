//! The walk through the Windows registry that finds the Xbox Game Pass
//! installation of Darktide.
//!
//! The walk asks one question at a time (`Lookup::query`); the program puts the
//! question to the registry and hands the reply to `find_darktide`, which
//! gives the state that follows. The walk starts at `Lookup::Family` with
//! index 0 and ends in `Lookup::Found` or `Lookup::Failed`.

use vstd::prelude::*;

verus! {

/// The root keys that the walk reads under.
#[derive(Debug, Clone, Copy, PartialEq, Eq, Structural)]
pub enum Hive {
    ClassesRoot,
    LocalMachine,
}

/// Why the walk found no installation.
#[derive(Debug, Clone, Copy, PartialEq, Eq, Structural)]
pub enum LookupError {
    /// No package of the game is registered.
    NotFound,
    /// The registry refused a question.
    Registry,
    /// There is no registry here: the lookup works on Windows only.
    Unsupported,
}

/// What the registry is asked.
#[derive(Debug, PartialEq, Eq)]
pub enum RegistryQuery {
    /// The name of subkey number `index` of the key at `path`.
    Subkey { hive: Hive, path: String, index: u32 },
    /// The text of the value `name` of the key at `path`.
    Value { hive: Hive, path: String, name: String },
}

/// A `RegistryQuery` as plain values.
pub ghost enum QueryView {
    Subkey { hive: Hive, path: Seq<char>, index: u32 },
    Value { hive: Hive, path: Seq<char>, name: Seq<char> },
}

impl View for RegistryQuery {
    type V = QueryView;

    open spec fn view(&self) -> QueryView {
        match *self {
            RegistryQuery::Subkey { hive, path, index } => QueryView::Subkey {
                hive,
                path: path@,
                index,
            },
            RegistryQuery::Value { hive, path, name } => QueryView::Value {
                hive,
                path: path@,
                name: name@,
            },
        }
    }
}

/// What the registry said.
#[derive(Debug, PartialEq, Eq)]
pub enum RegistryReply {
    /// The name of the subkey, or the text of the value.
    Text(String),
    /// The key has no subkey of that number.
    End,
    /// The key could not be opened, or the subkey or the value not read.
    Failed,
    /// There is no registry on this platform.
    Unavailable,
}

/// A `RegistryReply` as plain values.
pub ghost enum ReplyView {
    Text(Seq<char>),
    End,
    Failed,
    Unavailable,
}

impl View for RegistryReply {
    type V = ReplyView;

    open spec fn view(&self) -> ReplyView {
        match *self {
            RegistryReply::Text(text) => ReplyView::Text(text@),
            RegistryReply::End => ReplyView::End,
            RegistryReply::Failed => ReplyView::Failed,
            RegistryReply::Unavailable => ReplyView::Unavailable,
        }
    }
}

/// Where the walk stands.
#[derive(Debug, PartialEq, Eq)]
pub enum Lookup {
    /// The package of the game's family with number `index` is looked for.
    Family { index: u32 },
    /// The package `name`, number `family` of the family, is registered; its
    /// first entry in the package index is looked for.
    Package { family: u32, name: String },
    /// The package has the index entry `entry`; the place it is installed in
    /// is looked for.
    Location { entry: String },
    /// The game is installed in this directory.
    Found(String),
    /// No installation was found.
    Failed(LookupError),
}

/// A `Lookup` as plain values.
pub ghost enum LookupView {
    Family { index: u32 },
    Package { family: u32, name: Seq<char> },
    Location { entry: Seq<char> },
    Found(Seq<char>),
    Failed(LookupError),
}

impl View for Lookup {
    type V = LookupView;

    open spec fn view(&self) -> LookupView {
        match *self {
            Lookup::Family { index } => LookupView::Family { index },
            Lookup::Package { family, name } => LookupView::Package { family, name: name@ },
            Lookup::Location { entry } => LookupView::Location { entry: entry@ },
            Lookup::Found(directory) => LookupView::Found(directory@),
            Lookup::Failed(error) => LookupView::Failed(error),
        }
    }
}

/// The key under the classes root whose subkeys are the registered packages
/// of the game's family.
pub open spec fn family_path() -> Seq<char> {
    "Local Settings\\Software\\Microsoft\\Windows\\CurrentVersion\\AppModel\\Repository\\Families\\FatsharkAB.Warhammer40000DarktideNew_hwm6pnepa3ng2"@
}

/// The key under the local machine below which each package has a key, named
/// as the package, with its index entries as subkeys; ends in a backslash.
pub open spec fn package_prefix() -> Seq<char> {
    "SOFTWARE\\Microsoft\\Windows\\CurrentVersion\\AppModel\\StateRepository\\Cache\\Package\\Index\\PackageFullName\\"@
}

/// The key under the local machine below which each index entry has a key
/// with the data of its package; ends in a backslash.
pub open spec fn data_prefix() -> Seq<char> {
    "SOFTWARE\\Microsoft\\Windows\\CurrentVersion\\AppModel\\StateRepository\\Cache\\Package\\Data\\"@
}

/// The value of a data key that holds the directory of the installation.
pub open spec fn location_value() -> Seq<char> {
    "InstalledLocation"@
}

/// The question that a state has for the registry; none once the walk is
/// over.
pub open spec fn query_of(lookup: LookupView) -> Option<QueryView> {
    match lookup {
        LookupView::Family { index } => Some(
            QueryView::Subkey { hive: Hive::ClassesRoot, path: family_path(), index },
        ),
        LookupView::Package { name, .. } => Some(
            QueryView::Subkey { hive: Hive::LocalMachine, path: package_prefix() + name, index: 0 },
        ),
        LookupView::Location { entry } => Some(
            QueryView::Value {
                hive: Hive::LocalMachine,
                path: data_prefix() + entry,
                name: location_value(),
            },
        ),
        _ => None,
    }
}

/// The state that follows `lookup` on `reply`.
///
/// The packages of the family are taken in the order of their numbers, and
/// the first one that has an index entry decides: the walk ends with the
/// directory of that entry, or fails if it cannot be read. A package without
/// an index entry is passed over. A question that the registry refuses ends
/// the walk with `Registry`, a platform without a registry with
/// `Unsupported`, and the end of the family's packages with `NotFound`.
pub open spec fn lookup_next(lookup: LookupView, reply: ReplyView) -> LookupView {
    match lookup {
        LookupView::Found(_) | LookupView::Failed(_) => lookup,
        _ => match reply {
            ReplyView::Unavailable => LookupView::Failed(LookupError::Unsupported),
            ReplyView::Failed => LookupView::Failed(LookupError::Registry),
            ReplyView::Text(text) => match lookup {
                LookupView::Family { index } => LookupView::Package { family: index, name: text },
                LookupView::Package { .. } => LookupView::Location { entry: text },
                _ => LookupView::Found(text),
            },
            ReplyView::End => match lookup {
                LookupView::Family { .. } => LookupView::Failed(LookupError::NotFound),
                LookupView::Package { family, .. } => if family < u32::MAX {
                    LookupView::Family { index: (family + 1) as u32 }
                } else {
                    LookupView::Failed(LookupError::NotFound)
                },
                _ => LookupView::Failed(LookupError::Registry),
            },
        },
    }
}

impl Lookup {
    /// The state that a walk starts in.
    pub fn start() -> (lookup: Lookup)
        ensures
            lookup@ == (LookupView::Family { index: 0 }),
    {
        Lookup::Family { index: 0 }
    }

    /// What is to be asked of the registry in this state.
    pub fn query(&self) -> (question: Option<RegistryQuery>)
        ensures
            match question {
                Some(query) => query_of(self@) == Some(query@),
                None => query_of(self@).is_none(),
            },
    {
        match self {
            Lookup::Family { index } => Some(
                RegistryQuery::Subkey {
                    hive: Hive::ClassesRoot,
                    path: String::from_str(
                        "Local Settings\\Software\\Microsoft\\Windows\\CurrentVersion\\AppModel\\Repository\\Families\\FatsharkAB.Warhammer40000DarktideNew_hwm6pnepa3ng2",
                    ),
                    index: *index,
                },
            ),
            Lookup::Package { name, .. } => {
                let mut path = String::from_str(
                    "SOFTWARE\\Microsoft\\Windows\\CurrentVersion\\AppModel\\StateRepository\\Cache\\Package\\Index\\PackageFullName\\",
                );
                path.append(name.as_str());
                Some(RegistryQuery::Subkey { hive: Hive::LocalMachine, path, index: 0 })
            },
            Lookup::Location { entry } => {
                let mut path = String::from_str(
                    "SOFTWARE\\Microsoft\\Windows\\CurrentVersion\\AppModel\\StateRepository\\Cache\\Package\\Data\\",
                );
                path.append(entry.as_str());
                Some(
                    RegistryQuery::Value {
                        hive: Hive::LocalMachine,
                        path,
                        name: String::from_str("InstalledLocation"),
                    },
                )
            },
            _ => None,
        }
    }
}

/// One step of the walk that finds the Xbox Game Pass installation of
/// Darktide: the state that follows `lookup` once the registry has given
/// `reply` to its question. A walk that is over stays as it is.
pub fn find_darktide(lookup: Lookup, reply: RegistryReply) -> (after: Lookup)
    ensures
        after@ == lookup_next(lookup@, reply@),
{
    match lookup {
        Lookup::Found(directory) => Lookup::Found(directory),
        Lookup::Failed(error) => Lookup::Failed(error),
        Lookup::Family { index } => match reply {
            RegistryReply::Unavailable => Lookup::Failed(LookupError::Unsupported),
            RegistryReply::Failed => Lookup::Failed(LookupError::Registry),
            RegistryReply::Text(name) => Lookup::Package { family: index, name },
            RegistryReply::End => Lookup::Failed(LookupError::NotFound),
        },
        Lookup::Package { family, name } => match reply {
            RegistryReply::Unavailable => Lookup::Failed(LookupError::Unsupported),
            RegistryReply::Failed => Lookup::Failed(LookupError::Registry),
            RegistryReply::Text(entry) => Lookup::Location { entry },
            RegistryReply::End => if family < u32::MAX {
                Lookup::Family { index: family + 1 }
            } else {
                Lookup::Failed(LookupError::NotFound)
            },
        },
        Lookup::Location { entry } => match reply {
            RegistryReply::Unavailable => Lookup::Failed(LookupError::Unsupported),
            RegistryReply::Failed => Lookup::Failed(LookupError::Registry),
            RegistryReply::Text(directory) => Lookup::Found(directory),
            RegistryReply::End => Lookup::Failed(LookupError::Registry),
        },
    }
}

} // verus!
