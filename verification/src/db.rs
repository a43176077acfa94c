//! The handle of the SQLite store. The store is opened where it is used;
//! the handle itself is only the file's path.

use vstd::prelude::*;

verus! {

/// The database, by the path of its file.
#[derive(Debug, Clone)]
pub struct Database {
    path: String,
}

impl Database {
    /// The database stored in the file at `path`.
    pub fn new(path: &str) -> (r: Database)
        ensures
            r.path_view() == path@,
    {
        Database { path: path.to_owned() }
    }

    pub closed spec fn path_view(&self) -> Seq<char> {
        self.path@
    }

    /// The path of the database file.
    pub fn path(&self) -> (r: &str)
        ensures
            r@ == self.path_view(),
    {
        self.path.as_str()
    }
}

} // verus!
