//! Where the database and its backup lie below a bundle directory.

use vstd::prelude::*;

verus! {

/// The name of the database file: `bundle_database.data`.
pub open spec fn database_name() -> Seq<char> {
    "bundle_database.data"@
}

/// The name of the backup file: `bundle_database.data.bak`.
pub open spec fn backup_name() -> Seq<char> {
    "bundle_database.data.bak"@
}

/// `name` below the directory `base`: the two with a `/` between them. No `/`
/// is added where `base` is empty, which stands for the working directory, or
/// ends in one already.
pub open spec fn joined(base: Seq<char>, name: Seq<char>) -> Seq<char> {
    if base.len() == 0 || base.last() == '/' {
        base + name
    } else {
        base + seq!['/'] + name
    }
}

/// Finds the two files of a bundle directory.
pub struct DatabaseLocator {
    pub base: String,
}

/// Whether `text` is empty or ends in `/`.
fn needs_no_separator(text: &str) -> (none: bool)
    ensures
        none == (text@.len() == 0 || text@.last() == '/'),
{
    let length = text.unicode_len();
    if length == 0 {
        true
    } else {
        text.get_char(length - 1) == '/'
    }
}

/// `name` below `base`.
fn join(base: &str, name: &str) -> (path: String)
    ensures
        path@ == joined(base@, name@),
{
    let mut path = String::from_str(base);
    if !needs_no_separator(base) {
        path.append("/");
        proof {
            reveal_strlit("/");
            assert("/"@ =~= seq!['/']);
        }
    }
    path.append(name);
    path
}

impl DatabaseLocator {
    /// A locator for the bundle directory `base`.
    pub fn new(base: String) -> (locator: DatabaseLocator)
        ensures
            locator.base@ == base@,
    {
        DatabaseLocator { base }
    }

    /// The path of the database file.
    pub fn database_path(&self) -> (path: String)
        ensures
            path@ == joined(self.base@, database_name()),
    {
        join(self.base.as_str(), "bundle_database.data")
    }

    /// The path of the backup file.
    pub fn backup_path(&self) -> (path: String)
        ensures
            path@ == joined(self.base@, backup_name()),
    {
        join(self.base.as_str(), "bundle_database.data.bak")
    }
}

} // verus!
