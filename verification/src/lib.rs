use vstd::prelude::*;

pub mod archive;
pub mod codec;
pub mod db;
pub mod dictionary;
pub mod download;
pub mod error;
pub mod intern;
pub mod json;
pub mod normalize;
pub mod numbers;
pub mod order;
pub mod progress;
pub mod search;
pub mod search_index;
pub mod setup;
pub mod sync;
pub mod text;
pub mod timer;
pub mod tokenizer;
pub mod types;

pub use error::CJDicError;
pub use sync::LoadYomitanZipDirResult;
pub use timer::Timer;
pub use tokenizer::TokenizeSegment;
pub use types::{SearchRow, YomitanDownloadDictEntry, YomitanProgress, YomitanRow, YomitanZipImportResult};
pub use archive::ZipSource;

verus! {

/// Adds two counts.
pub fn add(left: u64, right: u64) -> (sum: u64)
    requires
        left + right <= u64::MAX,
    ensures
        sum == left + right,
{
    left + right
}

} // verus!
