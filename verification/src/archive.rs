//! A dictionary archive held in memory, and what the import reads of it.
use vstd::prelude::*;

use crate::dictionary::{
    bank_file, bank_file_name, dictionary_index, highest_term_bank, highest_term_bank_index, index_says,
    BankKind, DictionaryIndex,
};
use crate::error::CJDicError;
use crate::json::{
    opt_view, read_json_rows, read_json_value, rows_view, serde_json_rows, serde_json_value, JsonField,
};
use crate::types::YomitanZipImportResult;

verus! {

#[verifier::external_type_specification]
#[verifier::external_body]
#[verifier::reject_recursive_types(R)]
pub struct ExZipArchive<R>(zip::ZipArchive<R>);

#[verifier::external_type_specification]
#[verifier::external_body]
#[verifier::reject_recursive_types(T)]
pub struct ExCursor<T>(std::io::Cursor<T>);

/// Whether `zip::ZipArchive::new` reads `bytes` as an archive.
pub uninterp spec fn zip_opens(bytes: Seq<u8>) -> bool;

/// The names that `zip::ZipArchive::file_names` lists for the archive `bytes`, in its
/// order; `None` for a name that could not be decoded.
pub uninterp spec fn zip_file_names(bytes: Seq<u8>) -> Seq<Option<Seq<char>>>;

/// What reading the entry `name` of the archive `bytes` gives: `None` where
/// `ZipArchive::by_name` fails, `Some(None)` where reading the entry as text fails, and
/// otherwise its text.
pub uninterp spec fn zip_entry_text(bytes: Seq<u8>, name: Seq<char>) -> Option<Option<Seq<char>>>;

/// How reading an entry of an archive ended.
pub enum EntryRead {
    /// The entry's text.
    Text(String),
    /// The archive has no such entry (or could not open it); the message says why.
    Missing(String),
    /// The entry could not be read as text; the message says why.
    Unreadable(String),
}

/// A dictionary archive, read from its bytes.
pub struct DictionaryArchive {
    archive: zip::ZipArchive<std::io::Cursor<Vec<u8>>>,
    bytes: Ghost<Seq<u8>>,
}

impl DictionaryArchive {
    /// The bytes the archive was read from.
    pub closed spec fn bytes(&self) -> Seq<u8> {
        self.bytes@
    }

    /// `zip::ZipArchive::new` over the bytes. Claimed here: it succeeds exactly where
    /// `zip_opens` holds, and the archive keeps the bytes it was read from; the text of its
    /// error is left unsaid.
    #[verifier::external_body]
    fn read_archive(bytes: Vec<u8>) -> (r: Result<DictionaryArchive, String>)
        ensures
            r is Ok <==> zip_opens(bytes@),
            r matches Ok(a) ==> a.bytes() == bytes@,
    {
        let ghost b = bytes@;
        match zip::ZipArchive::new(std::io::Cursor::new(bytes)) {
            Ok(archive) => Ok(DictionaryArchive { archive, bytes: Ghost(b) }),
            Err(e) => Err(e.to_string()),
        }
    }

    /// `zip::ZipArchive::file_names`, each name owned. Claimed here: the result is
    /// `zip_file_names` of the archive's bytes.
    #[verifier::external_body]
    pub(crate) fn file_names(&self) -> (r: Vec<Option<String>>)
        ensures
            r@.map_values(|n: Option<String>| opt_view(n)) == zip_file_names(self.bytes()),
    {
        self.archive.file_names().map(|n| n.ok().map(|s| s.into_owned())).collect()
    }

    /// `zip::ZipArchive::by_name`, then `Read::read_to_string` of the entry. Claimed here: the
    /// outcome is that of `zip_entry_text` on the archive's bytes; the archive keeps its
    /// bytes; the texts of the errors are left unsaid.
    #[verifier::external_body]
    pub(crate) fn read_entry(&mut self, name: &str) -> (r: EntryRead)
        ensures
            final(self).bytes() == old(self).bytes(),
            r matches EntryRead::Text(t) ==> zip_entry_text(old(self).bytes(), name@) == Some(
                Some(t@),
            ),
            r is Missing <==> zip_entry_text(old(self).bytes(), name@) is None,
            r is Unreadable <==> zip_entry_text(old(self).bytes(), name@) == Some(
                None::<Seq<char>>,
            ),
    {
        match self.archive.by_name(name) {
            Ok(mut f) => {
                let mut s = String::new();
                match std::io::Read::read_to_string(&mut f, &mut s) {
                    Ok(_) => EntryRead::Text(s),
                    Err(e) => EntryRead::Unreadable(e.to_string()),
                }
            },
            Err(e) => EntryRead::Missing(e.to_string()),
        }
    }

    /// The number of term banks the archive announces: the highest term bank number among
    /// its file names.
    pub fn term_bank_count(&self) -> (r: usize)
        ensures
            r as nat == highest_term_bank_index(zip_file_names(self.bytes())),
    {
        let names = self.file_names();
        highest_term_bank(&names)
    }

    /// Reads an archive from its bytes; bytes that are no archive give a `ZipError`.
    pub fn open(bytes: Vec<u8>) -> (r: Result<DictionaryArchive, CJDicError>)
        ensures
            r is Ok <==> zip_opens(bytes@),
            r matches Ok(a) ==> a.bytes() == bytes@,
            r matches Err(e) ==> e is ZipError,
    {
        match DictionaryArchive::read_archive(bytes) {
            Ok(a) => Ok(a),
            Err(m) => Err(CJDicError::ZipError(m)),
        }
    }

    /// The dictionary's index, `index.json`. Without it the archive holds no dictionary:
    /// the result is then the import result that says so, with the reason. An index that
    /// cannot be read is an `IOError`; one that is no JSON a `Serialization` error.
    pub fn read_index(&mut self) -> (r: Result<IndexRead, CJDicError>)
        ensures
            final(self).bytes() == old(self).bytes(),
            (r matches Ok(IndexRead::NoDictionary(res)) ==> !res.exists && !res.load
                && res.error is Some),
            r matches Ok(IndexRead::NoDictionary(_)) <==> zip_entry_text(
                old(self).bytes(),
                "index.json"@,
            ) is None,
            r matches Err(e) ==> (e is IOError <==> zip_entry_text(
                old(self).bytes(),
                "index.json"@,
            ) == Some(None::<Seq<char>>)),
            r matches Err(e) ==> (e is Serialization <==> (zip_entry_text(
                old(self).bytes(),
                "index.json"@,
            ) matches Some(Some(t)) && serde_json_value(t) is None)),
            r matches Err(e) ==> (e is IOError || e is Serialization),
            r matches Ok(IndexRead::Found(idx)) ==> zip_entry_text(
                old(self).bytes(),
                "index.json"@,
            ) matches Some(Some(t)) && serde_json_value(t) matches Some(v) && index_says(idx, v),
    {
        match self.read_entry("index.json") {
            EntryRead::Text(t) => match read_json_value(t.as_str()) {
                Ok(f) => Ok(IndexRead::Found(dictionary_index(&f))),
                Err(e) => Err(e),
            },
            EntryRead::Missing(m) => Ok(IndexRead::NoDictionary(YomitanZipImportResult::missing_index(m))),
            EntryRead::Unreadable(m) => Err(CJDicError::IOError(m)),
        }
    }

    /// Bank `i` of a kind, as rows of fields; `None` when the archive has no such bank (the
    /// banks of a kind are numbered from 1 and end at the first one missing). A bank that
    /// cannot be read is an `IOError`; one that is not a JSON array a `Serialization` error.
    pub fn read_bank(&mut self, kind: BankKind, i: usize) -> (r: Result<Option<Vec<Vec<JsonField>>>, CJDicError>)
        ensures
            final(self).bytes() == old(self).bytes(),
            r matches Ok(None) <==> zip_entry_text(old(self).bytes(), bank_file_name(kind, i as nat)) is None,
            r matches Ok(Some(rows)) ==> zip_entry_text(old(self).bytes(), bank_file_name(kind, i as nat))
                matches Some(Some(t)) && serde_json_rows(t) == Some(rows_view(rows@)),
            r matches Err(e) ==> (e is IOError <==> zip_entry_text(
                old(self).bytes(),
                bank_file_name(kind, i as nat),
            ) == Some(None::<Seq<char>>)),
            r matches Err(e) ==> (e is Serialization <==> (zip_entry_text(
                old(self).bytes(),
                bank_file_name(kind, i as nat),
            ) matches Some(Some(t)) && serde_json_rows(t) is None)),
            r matches Err(e) ==> (e is IOError || e is Serialization),
    {
        let name = bank_file(kind, i);
        match self.read_entry(name.as_str()) {
            EntryRead::Text(t) => match read_json_rows(t.as_str()) {
                Ok(rows) => Ok(Some(rows)),
                Err(e) => Err(e),
            },
            EntryRead::Missing(_) => Ok(None),
            EntryRead::Unreadable(m) => Err(CJDicError::IOError(m)),
        }
    }
}

/// A dictionary archive as the service finds it: a name and the bytes of the archive.
pub trait ZipSource {
    /// The archive's file name, under which its dictionary is installed.
    fn file_name(&self) -> &str;

    /// The bytes of the archive.
    fn bytes(&self) -> Result<Vec<u8>, CJDicError>;
}

/// What the index of an archive gave.
pub enum IndexRead {
    /// The dictionary's index.
    Found(DictionaryIndex),
    /// The archive holds no dictionary; the import ends with this result.
    NoDictionary(YomitanZipImportResult),
}

/// What to do with a dictionary given what is installed of it.
#[derive(Debug, Clone, Copy, PartialEq, Eq)]
pub enum InstallDecision {
    /// Nothing of that title is installed: import it.
    Install,
    /// An older revision is installed: remove it, then import.
    Replace,
    /// This revision, or a newer one, is installed: leave it.
    Skip,
}

/// Decides on a dictionary from the installed revision of its title: `None` when none is
/// installed, otherwise whether the installed revision sorts before the archive's.
pub fn install_decision(installed_is_outdated: Option<bool>) -> (r: InstallDecision)
    ensures
        installed_is_outdated is None <==> r == InstallDecision::Install,
        installed_is_outdated == Some(true) <==> r == InstallDecision::Replace,
        installed_is_outdated == Some(false) <==> r == InstallDecision::Skip,
{
    match installed_is_outdated {
        None => InstallDecision::Install,
        Some(true) => InstallDecision::Replace,
        Some(false) => InstallDecision::Skip,
    }
}

} // verus!
