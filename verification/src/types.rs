//! The records the dictionary service hands out.
use vstd::prelude::*;

verus! {

/// One dictionary entry found by a search.
#[derive(Debug, Clone)]
pub struct YomitanRow {
    pub term: String,
    pub reading: String,
    pub def_tags: String,
    pub rules: String,
    pub score: i64,
    pub glossary_json: String,
    pub sequence: Option<i64>,
    pub term_tags: String,
    pub dict_title: String,
}

/// How far a long operation has come.
#[derive(Debug, Clone)]
pub struct YomitanProgress {
    pub message: String,
    pub current: usize,
    pub total: usize,
    pub steps: usize,
}

/// How the import of one dictionary archive ended: whether it held a dictionary, whether
/// that was loaded, and what went wrong if it did not hold one.
#[derive(Debug, Clone)]
pub struct YomitanZipImportResult {
    pub exists: bool,
    pub load: bool,
    pub error: Option<String>,
}

impl YomitanZipImportResult {
    /// The archive holds no dictionary index; `error` says why it could not be read.
    pub fn missing_index(error: String) -> (r: Self)
        ensures
            !r.exists,
            !r.load,
            r.error == Some(error),
    {
        YomitanZipImportResult { exists: false, load: false, error: Some(error) }
    }

    /// The dictionary is installed already in this revision or a newer one.
    pub fn already_installed() -> (r: Self)
        ensures
            r.exists,
            !r.load,
            r.error is None,
    {
        YomitanZipImportResult { exists: true, load: false, error: None }
    }

    /// The dictionary was imported.
    pub fn imported() -> (r: Self)
        ensures
            r.exists,
            r.load,
            r.error is None,
    {
        YomitanZipImportResult { exists: true, load: true, error: None }
    }
}

/// A dictionary archive to download: where from, and where to under the data directory.
#[derive(Debug, Clone)]
pub struct YomitanDownloadDictEntry {
    pub url: String,
    pub filepath: String,
}

/// A row of the test table.
#[derive(Debug, Clone, Copy, PartialEq, Eq)]
pub struct SearchRow {
    pub a: i32,
    pub b: i32,
}

} // verus!
