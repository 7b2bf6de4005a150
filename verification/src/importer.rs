//! The file formats that can be imported, each with the extensions by which
//! a file of that format is known.

use vstd::prelude::*;

verus! {

/// The importer of SQLite databases.
#[derive(Clone, Copy, Debug, PartialEq, Eq, Structural)]
pub struct SqliteImporter;

/// The entry point to the importers.
#[derive(Clone, Copy, Debug, PartialEq, Eq, Structural)]
pub struct ImportEngine;

/// `extensions` are the three extensions of a SQLite database, in order.
pub open spec fn sqlite_extensions(extensions: Seq<&'static str>) -> bool {
    &&& extensions.len() == 3
    &&& extensions[0]@ == "sqlite"@
    &&& extensions[1]@ == "db"@
    &&& extensions[2]@ == "sqlite3"@
}

impl SqliteImporter {
    pub fn get_format_name() -> (name: &'static str)
        ensures
            name@ == "SQLite Database"@,
    {
        "SQLite Database"
    }

    pub fn get_supported_extensions() -> (extensions: Vec<&'static str>)
        ensures
            sqlite_extensions(extensions@),
    {
        let mut extensions: Vec<&'static str> = Vec::new();
        extensions.push("sqlite");
        extensions.push("db");
        extensions.push("sqlite3");
        extensions
    }
}

impl ImportEngine {
    /// Every format that can be imported, by its name, with its extensions:
    /// the SQLite database and nothing else.
    pub fn list_supported_formats() -> (formats: Vec<(&'static str, Vec<&'static str>)>)
        ensures
            formats@.len() == 1,
            formats@[0].0@ == "SQLite Database"@,
            sqlite_extensions(formats@[0].1@),
    {
        let mut formats: Vec<(&'static str, Vec<&'static str>)> = Vec::new();
        formats.push((SqliteImporter::get_format_name(), SqliteImporter::get_supported_extensions()));
        formats
    }
}

} // verus!
