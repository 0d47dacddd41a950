//! The rules of resumable dictionary downloads.
use vstd::prelude::*;

use crate::error::CJDicError;
use crate::numbers::{decimal, push_decimal};
use crate::text::{push_str, string_from_chars};

verus! {

/// The file a download is written to while a part of it is on disk.
pub fn partial_file_name(filepath: &str) -> (r: String)
    ensures
        r@ == filepath@ + ".dl-tmp"@,
{
    let mut v: Vec<char> = Vec::new();
    push_str(&mut v, filepath);
    push_str(&mut v, ".dl-tmp");
    string_from_chars(v.as_slice())
}

/// The `Range` header that asks for the rest of a file of which `existing_size` bytes are
/// on disk; none when nothing is.
pub fn range_header(existing_size: u64) -> (r: Option<String>)
    ensures
        r is None <==> existing_size == 0,
        r matches Some(h) ==> h@ == "bytes="@ + decimal(existing_size as nat) + "-"@,
{
    if existing_size > 0 {
        let mut v: Vec<char> = Vec::new();
        push_str(&mut v, "bytes=");
        push_decimal(&mut v, existing_size);
        push_str(&mut v, "-");
        Some(string_from_chars(v.as_slice()))
    } else {
        None
    }
}

/// A download is complete unless the server announced a length and fewer bytes arrived.
pub fn check_download_complete(content_length: u64, downloaded: u64) -> (r: Result<(), CJDicError>)
    ensures
        r is Err <==> (content_length > 0 && downloaded < content_length),
        r matches Err(e) ==> e == CJDicError::Error(e->Error_0) && e->Error_0@ == "Incomplete download: expected "@
            + decimal(content_length as nat) + " bytes, got "@ + decimal(downloaded as nat),
{
    if content_length > 0 && downloaded < content_length {
        let mut v: Vec<char> = Vec::new();
        push_str(&mut v, "Incomplete download: expected ");
        push_decimal(&mut v, content_length);
        push_str(&mut v, " bytes, got ");
        push_decimal(&mut v, downloaded);
        Err(CJDicError::Error(string_from_chars(v.as_slice())))
    } else {
        Ok(())
    }
}

} // verus!
