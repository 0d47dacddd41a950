//! The errors of the dictionary service.
use vstd::prelude::*;

use crate::text::{push_str, string_from_chars};

verus! {

/// Everything that can go wrong in the dictionary service; most variants carry the message
/// of the error they stand for.
#[derive(Debug, Clone, PartialEq, Eq)]
pub enum CJDicError {
    Database(String),
    Serialization(String),
    AnyhowError(String),
    IOError(String),
    FileNameNotFound,
    ZipError(String),
    VibratoError(String),
    FromUtf8Error(String),
    ConnectionMutexGuardError(String),
    TokenizerMutexGuardError(String),
    NotFound,
    Error(String),
}

/// How an error reads.
pub open spec fn error_message(e: CJDicError) -> Seq<char> {
    match e {
        CJDicError::Database(m) => "Database error: "@ + m@,
        CJDicError::Serialization(m) => "Serialization error: "@ + m@,
        CJDicError::AnyhowError(m) => "Anyhow error: "@ + m@,
        CJDicError::IOError(m) => "IO error: "@ + m@,
        CJDicError::FileNameNotFound => "File name not found"@,
        CJDicError::ZipError(m) => "Zip error: "@ + m@,
        CJDicError::VibratoError(m) => "Vibrato error: "@ + m@,
        CJDicError::FromUtf8Error(m) => "FromUtf8Error: "@ + m@,
        CJDicError::ConnectionMutexGuardError(m) => "ConnectionMutexGuardError: "@ + m@,
        CJDicError::TokenizerMutexGuardError(m) => "TokenizerMutexGuardError: "@ + m@,
        CJDicError::NotFound => "Not found"@,
        CJDicError::Error(m) => "Error: "@ + m@,
    }
}

/// The name of an error's variant, under which it is reported as `kind`.
pub open spec fn error_kind(e: CJDicError) -> Seq<char> {
    match e {
        CJDicError::Database(_) => "Database"@,
        CJDicError::Serialization(_) => "Serialization"@,
        CJDicError::AnyhowError(_) => "AnyhowError"@,
        CJDicError::IOError(_) => "IOError"@,
        CJDicError::FileNameNotFound => "FileNameNotFound"@,
        CJDicError::ZipError(_) => "ZipError"@,
        CJDicError::VibratoError(_) => "VibratoError"@,
        CJDicError::FromUtf8Error(_) => "FromUtf8Error"@,
        CJDicError::ConnectionMutexGuardError(_) => "ConnectionMutexGuardError"@,
        CJDicError::TokenizerMutexGuardError(_) => "TokenizerMutexGuardError"@,
        CJDicError::NotFound => "NotFound"@,
        CJDicError::Error(_) => "Error"@,
    }
}

/// The message an error carries, if any, reported as `message`.
pub open spec fn error_detail(e: CJDicError) -> Option<Seq<char>> {
    match e {
        CJDicError::Database(m) => Some(m@),
        CJDicError::Serialization(m) => Some(m@),
        CJDicError::AnyhowError(m) => Some(m@),
        CJDicError::IOError(m) => Some(m@),
        CJDicError::FileNameNotFound => None,
        CJDicError::ZipError(m) => Some(m@),
        CJDicError::VibratoError(m) => Some(m@),
        CJDicError::FromUtf8Error(m) => Some(m@),
        CJDicError::ConnectionMutexGuardError(m) => Some(m@),
        CJDicError::TokenizerMutexGuardError(m) => Some(m@),
        CJDicError::NotFound => None,
        CJDicError::Error(m) => Some(m@),
    }
}

impl CJDicError {
    /// How the error reads (what its `Display` shows).
    pub fn message(&self) -> (r: String)
        ensures
            r@ == error_message(*self),
    {
        let mut v: Vec<char> = Vec::new();
        match self {
            CJDicError::Database(m) => {
                push_str(&mut v, "Database error: ");
                push_str(&mut v, m.as_str());
            },
            CJDicError::Serialization(m) => {
                push_str(&mut v, "Serialization error: ");
                push_str(&mut v, m.as_str());
            },
            CJDicError::AnyhowError(m) => {
                push_str(&mut v, "Anyhow error: ");
                push_str(&mut v, m.as_str());
            },
            CJDicError::IOError(m) => {
                push_str(&mut v, "IO error: ");
                push_str(&mut v, m.as_str());
            },
            CJDicError::FileNameNotFound => {
                push_str(&mut v, "File name not found");
            },
            CJDicError::ZipError(m) => {
                push_str(&mut v, "Zip error: ");
                push_str(&mut v, m.as_str());
            },
            CJDicError::VibratoError(m) => {
                push_str(&mut v, "Vibrato error: ");
                push_str(&mut v, m.as_str());
            },
            CJDicError::FromUtf8Error(m) => {
                push_str(&mut v, "FromUtf8Error: ");
                push_str(&mut v, m.as_str());
            },
            CJDicError::ConnectionMutexGuardError(m) => {
                push_str(&mut v, "ConnectionMutexGuardError: ");
                push_str(&mut v, m.as_str());
            },
            CJDicError::TokenizerMutexGuardError(m) => {
                push_str(&mut v, "TokenizerMutexGuardError: ");
                push_str(&mut v, m.as_str());
            },
            CJDicError::NotFound => {
                push_str(&mut v, "Not found");
            },
            CJDicError::Error(m) => {
                push_str(&mut v, "Error: ");
                push_str(&mut v, m.as_str());
            },
        }
        string_from_chars(v.as_slice())
    }

    /// The name of the error's variant.
    pub fn kind(&self) -> (r: &'static str)
        ensures
            r@ == error_kind(*self),
    {
        match self {
            CJDicError::Database(_) => "Database",
            CJDicError::Serialization(_) => "Serialization",
            CJDicError::AnyhowError(_) => "AnyhowError",
            CJDicError::IOError(_) => "IOError",
            CJDicError::FileNameNotFound => "FileNameNotFound",
            CJDicError::ZipError(_) => "ZipError",
            CJDicError::VibratoError(_) => "VibratoError",
            CJDicError::FromUtf8Error(_) => "FromUtf8Error",
            CJDicError::ConnectionMutexGuardError(_) => "ConnectionMutexGuardError",
            CJDicError::TokenizerMutexGuardError(_) => "TokenizerMutexGuardError",
            CJDicError::NotFound => "NotFound",
            CJDicError::Error(_) => "Error",
        }
    }

    /// The message the error carries, if any.
    pub fn detail(&self) -> (r: Option<String>)
        ensures
            r matches Some(m) ==> error_detail(*self) == Some(m@),
            r is None ==> error_detail(*self) is None,
    {
        match self {
            CJDicError::Database(m) => Some(m.clone()),
            CJDicError::Serialization(m) => Some(m.clone()),
            CJDicError::AnyhowError(m) => Some(m.clone()),
            CJDicError::IOError(m) => Some(m.clone()),
            CJDicError::FileNameNotFound => None,
            CJDicError::ZipError(m) => Some(m.clone()),
            CJDicError::VibratoError(m) => Some(m.clone()),
            CJDicError::FromUtf8Error(m) => Some(m.clone()),
            CJDicError::ConnectionMutexGuardError(m) => Some(m.clone()),
            CJDicError::TokenizerMutexGuardError(m) => Some(m.clone()),
            CJDicError::NotFound => None,
            CJDicError::Error(m) => Some(m.clone()),
        }
    }
}

} // verus!
