//! How glossaries are stored: keyed by a BLAKE3 digest of their JSON and compressed with
//! zstd; and how they are read back.
use vstd::prelude::*;
use vstd::utf8::{decode_utf8, encode_utf8, encode_utf8_decode_utf8, encode_utf8_valid_utf8, valid_utf8};

use crate::error::CJDicError;

verus! {

/// The lowercase hex text of the BLAKE3 hash of `bytes`.
pub uninterp spec fn blake3_hex_digest(bytes: Seq<u8>) -> Seq<char>;

/// The zstd frame that `zstd::encode_all` makes of `data` at `level`: `None` where it
/// reports an error.
pub uninterp spec fn zstd_frame(data: Seq<u8>, level: i32) -> Option<Seq<u8>>;

/// Whether `zstd::bulk::Decompressor::with_dictionary` accepts `dictionary`.
pub uninterp spec fn zstd_accepts_dictionary(dictionary: Seq<u8>) -> bool;

/// What a `zstd::bulk::Decompressor` made with `dictionary` returns for `data` when the output
/// may take at most `capacity` bytes: `None` where it reports an error.
pub uninterp spec fn zstd_decompressed(dictionary: Seq<u8>, data: Seq<u8>, capacity: usize) -> Option<
    Seq<u8>,
>;

/// The dictionary that `zstd::dict::from_samples` trains from `samples` with at most
/// `max_size` bytes: `None` where it reports an error.
pub uninterp spec fn zstd_trained_dictionary(samples: Seq<Seq<u8>>, max_size: usize) -> Option<
    Seq<u8>,
>;

pub open spec fn is_lower_hex(c: char) -> bool {
    ('0' <= c && c <= '9') || ('a' <= c && c <= 'f')
}

/// `blake3::hash`, written with the `Display` of `blake3::Hash`. Claimed here: the result is
/// `blake3_hex_digest(bytes@)`, and, as `Hash::to_hex` shows, it is 64 lowercase hex digits.
#[verifier::external_body]
fn blake3_hex(bytes: &[u8]) -> (r: String)
    ensures
        r@ == blake3_hex_digest(bytes@),
        r@.len() == 64,
        forall|i: int| 0 <= i < r@.len() ==> is_lower_hex(#[trigger] r@[i]),
{
    format!("{}", blake3::hash(bytes))
}

/// `zstd::encode_all` over a byte slice. Claimed here: it fails exactly where `zstd_frame`
/// is `None` and otherwise returns that frame; the text of its error is left unsaid.
#[verifier::external_body]
fn zstd_encode_all(data: &[u8], level: i32) -> (r: Result<Vec<u8>, String>)
    ensures
        r is Ok <==> zstd_frame(data@, level) is Some,
        r matches Ok(v) ==> Some(v@) == zstd_frame(data@, level),
{
    zstd::encode_all(data, level).map_err(|e| e.to_string())
}

/// `zstd::dict::from_samples`. Claimed here: it fails exactly where
/// `zstd_trained_dictionary` is `None`, and otherwise returns that dictionary, which (being
/// written into a buffer of `max_size` bytes) takes at most `max_size` bytes; the text of its
/// error is left unsaid.
#[verifier::external_body]
fn zstd_dict_from_samples(samples: &Vec<Vec<u8>>, max_size: usize) -> (r: Result<Vec<u8>, String>)
    ensures
        r is Ok <==> zstd_trained_dictionary(samples@.map_values(|s: Vec<u8>| s@), max_size) is Some,
        r matches Ok(v) ==> Some(v@) == zstd_trained_dictionary(
            samples@.map_values(|s: Vec<u8>| s@),
            max_size,
        ),
        r matches Ok(v) ==> v@.len() <= max_size,
{
    zstd::dict::from_samples(samples.as_slice(), max_size).map_err(|e| e.to_string())
}

/// `String::from_utf8`. Claimed here, as its documentation says: it succeeds exactly on valid
/// UTF-8 and then holds the characters that the bytes encode; the text of the error is left
/// unsaid.
#[verifier::external_body]
fn string_from_utf8(bytes: Vec<u8>) -> (r: Result<String, String>)
    ensures
        r is Ok <==> valid_utf8(bytes@),
        r matches Ok(s) ==> s@ == decode_utf8(bytes@),
{
    String::from_utf8(bytes).map_err(|e| e.to_string())
}

/// A stored glossary: the key under which it is kept and its compressed JSON.
pub struct EncodedGlossary {
    pub hash: String,
    pub blob: Vec<u8>,
}

/// The zstd level at which glossaries are compressed.
pub const GLOSSARY_LEVEL: i32 = 3;

/// The largest size a stored glossary may have once decompressed (512 KiB).
pub const MAX_GLOSSARY_SIZE: usize = 524288;

/// The size of the zstd dictionary trained on stored glossaries (110 KiB).
pub const GLOSSARY_DICTIONARY_SIZE: usize = 112640;

/// The key of a glossary: the BLAKE3 digest of its JSON, in hex.
pub fn glossary_hash(json: &str) -> (r: String)
    ensures
        r@ == blake3_hex_digest(encode_utf8(json@)),
        r@.len() == 64,
{
    blake3_hex(json.as_bytes())
}

/// A glossary's JSON compressed as it is stored; a failure of zstd is an `IOError`.
pub fn compress_glossary(json: &str) -> (r: Result<Vec<u8>, CJDicError>)
    ensures
        r is Ok <==> zstd_frame(encode_utf8(json@), GLOSSARY_LEVEL) is Some,
        r matches Ok(v) ==> Some(v@) == zstd_frame(encode_utf8(json@), GLOSSARY_LEVEL),
        r matches Err(e) ==> e is IOError,
{
    match zstd_encode_all(json.as_bytes(), GLOSSARY_LEVEL) {
        Ok(v) => Ok(v),
        Err(m) => Err(CJDicError::IOError(m)),
    }
}

/// The key and the stored form of a glossary.
pub fn encode_glossary(json: &str) -> (r: Result<EncodedGlossary, CJDicError>)
    ensures
        r is Ok <==> zstd_frame(encode_utf8(json@), GLOSSARY_LEVEL) is Some,
        r matches Ok(g) ==> g.hash@ == blake3_hex_digest(encode_utf8(json@)) && Some(g.blob@)
            == zstd_frame(encode_utf8(json@), GLOSSARY_LEVEL),
        r matches Err(e) ==> e is IOError,
{
    let hash = glossary_hash(json);
    match compress_glossary(json) {
        Ok(blob) => Ok(EncodedGlossary { hash, blob }),
        Err(e) => Err(e),
    }
}

/// Trains the zstd dictionary with which stored glossaries are read, from sample glossaries.
pub fn train_glossary_dictionary(samples: &Vec<Vec<u8>>) -> (r: Result<Vec<u8>, CJDicError>)
    ensures
        r is Ok <==> zstd_trained_dictionary(
            samples@.map_values(|s: Vec<u8>| s@),
            GLOSSARY_DICTIONARY_SIZE,
        ) is Some,
        r matches Ok(v) ==> Some(v@) == zstd_trained_dictionary(
            samples@.map_values(|s: Vec<u8>| s@),
            GLOSSARY_DICTIONARY_SIZE,
        ),
        r matches Ok(v) ==> v@.len() <= GLOSSARY_DICTIONARY_SIZE,
        r matches Err(e) ==> e is IOError,
{
    match zstd_dict_from_samples(samples, GLOSSARY_DICTIONARY_SIZE) {
        Ok(v) => Ok(v),
        Err(m) => Err(CJDicError::IOError(m)),
    }
}

/// What reading a stored glossary gives: the text of its bytes as zstd decompresses them
/// with `dictionary` within `MAX_GLOSSARY_SIZE`, where they are UTF-8.
pub open spec fn glossary_read(dictionary: Seq<u8>, blob: Seq<u8>) -> Option<Seq<char>> {
    match zstd_decompressed(dictionary, blob, MAX_GLOSSARY_SIZE) {
        Some(b) => if valid_utf8(b) {
            Some(decode_utf8(b))
        } else {
            None
        },
        None => None,
    }
}

/// A stored glossary reads back as the JSON it was stored from, whenever zstd, reading with
/// `dictionary`, gives back the bytes that went into the frame (zstd's documentation here
/// does not say whether a frame made without a dictionary reads the same with one, so that is
/// the premise).
pub proof fn lemma_glossary_round_trip(dictionary: Seq<u8>, json: Seq<char>, blob: Seq<u8>)
    requires
        zstd_frame(encode_utf8(json), GLOSSARY_LEVEL) == Some(blob),
        zstd_decompressed(dictionary, blob, MAX_GLOSSARY_SIZE) == Some(encode_utf8(json)),
    ensures
        glossary_read(dictionary, blob) == Some(json),
{
    encode_utf8_valid_utf8(json);
    encode_utf8_decode_utf8(json);
}

/// Reads stored glossaries with a trained dictionary.
pub struct GlossaryDecoder {
    inner: zstd::bulk::Decompressor<'static>,
    dictionary: Ghost<Seq<u8>>,
}

#[verifier::external_type_specification]
#[verifier::external_body]
pub struct ExDecompressor<'a>(zstd::bulk::Decompressor<'a>);

impl GlossaryDecoder {
    /// The dictionary the decoder reads with.
    pub closed spec fn dictionary(&self) -> Seq<u8> {
        self.dictionary@
    }

    /// `zstd::bulk::Decompressor::with_dictionary`. Claimed here: it succeeds exactly where
    /// `zstd_accepts_dictionary` holds, and a decoder it returns reads with `dictionary`; the
    /// text of its error is left unsaid.
    #[verifier::external_body]
    fn with_dictionary(dictionary: &[u8]) -> (r: Result<GlossaryDecoder, String>)
        ensures
            r is Ok <==> zstd_accepts_dictionary(dictionary@),
            r matches Ok(d) ==> d.dictionary() == dictionary@,
    {
        match zstd::bulk::Decompressor::with_dictionary(dictionary) {
            Ok(inner) => Ok(GlossaryDecoder { inner, dictionary: Ghost(dictionary@) }),
            Err(e) => Err(e.to_string()),
        }
    }

    /// `zstd::bulk::Decompressor::decompress`. Claimed here: it fails exactly where
    /// `zstd_decompressed` is `None` and otherwise returns that, which, as its documentation
    /// says, takes at most `capacity` bytes; the decoder keeps its dictionary; the text of the
    /// error is left unsaid.
    #[verifier::external_body]
    fn decompress(&mut self, data: &[u8], capacity: usize) -> (r: Result<Vec<u8>, String>)
        ensures
            final(self).dictionary() == old(self).dictionary(),
            r is Ok <==> zstd_decompressed(old(self).dictionary(), data@, capacity) is Some,
            r matches Ok(v) ==> Some(v@) == zstd_decompressed(old(self).dictionary(), data@, capacity),
            r matches Ok(v) ==> v@.len() <= capacity,
    {
        self.inner.decompress(data, capacity).map_err(|e| e.to_string())
    }

    /// A decoder for glossaries stored with the trained `dictionary`; a dictionary zstd does
    /// not accept is an `IOError`.
    pub fn new(dictionary: &[u8]) -> (r: Result<GlossaryDecoder, CJDicError>)
        ensures
            r is Ok <==> zstd_accepts_dictionary(dictionary@),
            r matches Ok(d) ==> d.dictionary() == dictionary@,
            r matches Err(e) ==> e is IOError,
    {
        match GlossaryDecoder::with_dictionary(dictionary) {
            Ok(d) => Ok(d),
            Err(m) => Err(CJDicError::IOError(m)),
        }
    }

    /// The JSON of a stored glossary: it is decompressed (to at most `MAX_GLOSSARY_SIZE`
    /// bytes) and read as UTF-8. A failed decompression is an `IOError`, text that is not
    /// UTF-8 a `FromUtf8Error`.
    pub fn decode_glossary(&mut self, blob: &[u8]) -> (r: Result<String, CJDicError>)
        ensures
            final(self).dictionary() == old(self).dictionary(),
            (r is Err && r->Err_0 is IOError) <==> zstd_decompressed(
                old(self).dictionary(),
                blob@,
                MAX_GLOSSARY_SIZE,
            ) is None,
            (r is Err && r->Err_0 is FromUtf8Error) <==> (zstd_decompressed(
                old(self).dictionary(),
                blob@,
                MAX_GLOSSARY_SIZE,
            ) matches Some(b) && !valid_utf8(b)),
            r matches Ok(s) ==> zstd_decompressed(old(self).dictionary(), blob@, MAX_GLOSSARY_SIZE)
                matches Some(b) && s@ == decode_utf8(b) && b.len() <= MAX_GLOSSARY_SIZE,
            r matches Err(e) ==> (e is IOError || e is FromUtf8Error),
            r is Ok <==> glossary_read(old(self).dictionary(), blob@) is Some,
            r matches Ok(s) ==> Some(s@) == glossary_read(old(self).dictionary(), blob@),
    {
        match self.decompress(blob, MAX_GLOSSARY_SIZE) {
            Ok(bytes) => match string_from_utf8(bytes) {
                Ok(s) => Ok(s),
                Err(m) => Err(CJDicError::FromUtf8Error(m)),
            },
            Err(m) => Err(CJDicError::IOError(m)),
        }
    }
}

} // verus!
