use vstd::prelude::*;

verus! {

/// What a run of the program is asked to do, and on which files.
#[derive(Debug, Clone, PartialEq, Eq)]
pub struct Config {
    /// The data file: one record per line.
    pub datafile: String,
    /// Where a rewrite puts the new contents before they replace the data file.
    pub tempfile: String,
    pub mode: Mode,
}

/// The operations on the data file.
#[derive(Debug, Clone, PartialEq, Eq)]
pub enum Mode {
    /// Show every record.
    ListAll,
    /// Show the records with this title.
    ListDetails { name: String },
    /// Build a new record and add it at the end.
    Append,
    /// Edit the records with this title.
    Edit { name: String },
    /// Remove the records with this title.
    Remove { name: String },
}

} // verus!
