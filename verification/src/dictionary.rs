//! Reading a Yomitan dictionary archive: its index, its term, term meta and tag banks, and
//! what each bank row becomes.
use vstd::prelude::*;

use crate::json::{field_view, opt_view, row_view, FieldView, JsonField};
use crate::numbers::{decimal, is_digit, lemma_decimal_digits, parse_usize, parsed_usize, push_decimal};
use crate::text::{
    chars_equal, chars_of, find_char, find_char_index, lemma_find_char, push_str, rfind_char,
    rfind_char_index, skip_chars, string_from_chars, take_chars, trim_chars, trim_end_chars,
    trimmed, trimmed_end,
};

verus! {

/// The three kinds of banks in a dictionary archive.
#[derive(Debug, Clone, Copy, PartialEq, Eq)]
pub enum BankKind {
    Term,
    TermMeta,
    Tag,
}

pub open spec fn bank_prefix(kind: BankKind) -> Seq<char> {
    match kind {
        BankKind::Term => "term_bank_"@,
        BankKind::TermMeta => "term_meta_bank_"@,
        BankKind::Tag => "tag_bank_"@,
    }
}

/// The file that holds bank `i` of a kind: `term_bank_1.json`, `tag_bank_2.json`, ...
pub open spec fn bank_file_name(kind: BankKind, i: nat) -> Seq<char> {
    bank_prefix(kind) + decimal(i) + ".json"@
}

/// The file that holds bank `i` of a kind.
pub fn bank_file(kind: BankKind, i: usize) -> (r: String)
    ensures
        r@ == bank_file_name(kind, i as nat),
{
    let mut v: Vec<char> = Vec::new();
    match kind {
        BankKind::Term => push_str(&mut v, "term_bank_"),
        BankKind::TermMeta => push_str(&mut v, "term_meta_bank_"),
        BankKind::Tag => push_str(&mut v, "tag_bank_"),
    }
    push_decimal(&mut v, i as u64);
    push_str(&mut v, ".json");
    string_from_chars(v.as_slice())
}

/// The number of a term bank file: what follows `term_bank_` up to the first `.`, read as
/// a `usize`.
pub open spec fn term_bank_index(name: Seq<char>) -> Option<nat> {
    let p = "term_bank_"@;
    if name.len() >= p.len() && name.take(p.len() as int) == p {
        let rest = name.skip(p.len() as int);
        match find_char(rest, '.') {
            Some(k) => parsed_usize(rest.take(k)),
            None => None,
        }
    } else {
        None
    }
}

/// The highest term bank number among the archive's file names (0 when there is none);
/// names that could not be read count for nothing.
pub open spec fn highest_term_bank_index(names: Seq<Option<Seq<char>>>) -> nat
    decreases names.len(),
{
    if names.len() == 0 {
        0
    } else {
        let prev = highest_term_bank_index(names.drop_last());
        match names.last() {
            Some(n) => match term_bank_index(n) {
                Some(i) => if i > prev {
                    i
                } else {
                    prev
                },
                None => prev,
            },
            None => prev,
        }
    }
}

fn starts_with(s: &[char], p: &[char]) -> (r: bool)
    ensures
        r == (s@.len() >= p@.len() && s@.take(p@.len() as int) == p@),
{
    if s.len() < p.len() {
        return false;
    }
    let head = take_chars(s, p.len());
    chars_equal(head.as_slice(), p)
}

/// The number of a term bank file.
pub fn term_bank_number(name: &str) -> (r: Option<usize>)
    ensures
        r matches Some(i) ==> term_bank_index(name@) == Some(i as nat),
        r is None ==> term_bank_index(name@) is None,
{
    let s = chars_of(name);
    let p = chars_of("term_bank_");
    if !starts_with(s.as_slice(), p.as_slice()) {
        return None;
    }
    let rest = skip_chars(s.as_slice(), p.len());
    match find_char_index(rest.as_slice(), '.') {
        Some(k) => {
            let digits = take_chars(rest.as_slice(), k);
            parse_usize(digits.as_slice())
        },
        None => None,
    }
}

/// The number of term banks an archive announces: the highest term bank number among its
/// file names.
pub fn highest_term_bank(names: &Vec<Option<String>>) -> (r: usize)
    ensures
        r as nat == highest_term_bank_index(names@.map_values(|n: Option<String>| opt_view(n))),
{
    let ghost views = names@.map_values(|n: Option<String>| opt_view(n));
    let mut best: usize = 0;
    let mut i: usize = 0;
    while i < names.len()
        invariant
            i <= names@.len(),
            views == names@.map_values(|n: Option<String>| opt_view(n)),
            best as nat == highest_term_bank_index(views.take(i as int)),
        decreases names@.len() - i,
    {
        assert(views.take(i as int + 1).drop_last() == views.take(i as int));
        assert(views.take(i as int + 1).last() == opt_view(names@[i as int]));
        match &names[i] {
            Some(n) => match term_bank_number(n.as_str()) {
                Some(k) => {
                    if k > best {
                        best = k;
                    }
                },
                None => {},
            },
            None => {},
        }
        i += 1;
    }
    assert(views.take(names@.len() as int) == views);
    best
}

/// The file of term bank `i` is read back as term bank `i`.
pub proof fn lemma_term_bank_name_roundtrip(i: nat)
    requires
        i <= usize::MAX,
    ensures
        term_bank_index(bank_file_name(BankKind::Term, i)) == Some(i),
{
    reveal_strlit("term_bank_");
    reveal_strlit(".json");
    let p = "term_bank_"@;
    let d = decimal(i);
    let name = bank_file_name(BankKind::Term, i);
    lemma_decimal_digits(i);
    assert(name.take(p.len() as int) =~= p);
    let rest = name.skip(p.len() as int);
    assert(rest =~= d + ".json"@);
    assert forall|j: int| 0 <= j < d.len() implies rest[j] != '.' by {
        assert(rest[j] == d[j]);
        assert(is_digit(d[j]));
    }
    assert(rest[d.len() as int] == '.');
    lemma_find_char(rest, '.', d.len() as int);
    assert(rest.take(d.len() as int) =~= d);
}

/// A title without the trailing `[...]` stamp that some dictionaries carry: everything
/// before the last `[`, without trailing white space.
pub open spec fn without_timestamp(s: Seq<char>) -> Seq<char> {
    match rfind_char(s, '[') {
        Some(p) => trimmed_end(s.take(p)),
        None => s,
    }
}

/// Drops the trailing `[...]` stamp from a dictionary title.
pub fn remove_timestamp(s: &str) -> (r: String)
    ensures
        r@ == without_timestamp(s@),
{
    let cs = chars_of(s);
    match rfind_char_index(cs.as_slice(), '[') {
        Some(p) => {
            let head = take_chars(cs.as_slice(), p);
            let t = trim_end_chars(head.as_slice());
            string_from_chars(t.as_slice())
        },
        None => string_from_chars(cs.as_slice()),
    }
}

/// The text of the first member named `key` (`Value::get(key)` and `as_str`).
pub open spec fn member_text(members: Seq<(Seq<char>, Option<Seq<char>>)>, key: Seq<char>) -> Option<
    Seq<char>,
>
    decreases members.len(),
{
    if members.len() == 0 {
        None
    } else if members[0].0 == key {
        members[0].1
    } else {
        member_text(members.drop_first(), key)
    }
}

/// The text of the member named `key` of an object.
pub fn member_string(field: &JsonField, key: &str) -> (r: Option<String>)
    ensures
        opt_view(r) == member_text(field_view(*field).2, key@),
{
    let k = chars_of(key);
    let ghost ms = field_view(*field).2;
    let mut i: usize = 0;
    assert(ms.skip(0) == ms);
    while i < field.members.len()
        invariant
            i <= field.members@.len(),
            k@ == key@,
            ms == field_view(*field).2,
            ms.len() == field.members@.len(),
            member_text(ms, key@) == member_text(ms.skip(i as int), key@),
        decreases field.members@.len() - i,
    {
        let name = chars_of(field.members[i].0.as_str());
        assert(ms[i as int].0 == field.members@[i as int].0@);
        if chars_equal(name.as_slice(), k.as_slice()) {
            assert(ms.skip(i as int)[0] == ms[i as int]);
            return match &field.members[i].1 {
                Some(t) => Some(t.clone()),
                None => None,
            };
        }
        assert(ms.skip(i as int).drop_first() == ms.skip(i as int + 1));
        i += 1;
    }
    None
}

/// What a dictionary's `index.json` says of it.
pub struct DictionaryIndex {
    /// The title, without a trailing `[...]` stamp; empty when there is none.
    pub title: String,
    /// The revision; empty when there is none.
    pub revision: String,
    pub author: Option<String>,
    pub url: Option<String>,
    pub description: Option<String>,
}

pub open spec fn or_empty(o: Option<Seq<char>>) -> Seq<char> {
    match o {
        Some(s) => s,
        None => seq![],
    }
}

fn string_or_empty(o: Option<String>) -> (r: String)
    ensures
        r@ == or_empty(opt_view(o)),
{
    match o {
        Some(s) => s,
        None => string_from_chars(Vec::<char>::new().as_slice()),
    }
}

/// Whether `idx` is what the index document `v` says: its title without the trailing stamp,
/// its revision (empty when absent), and its author, url and description where they are
/// strings.
pub open spec fn index_says(idx: DictionaryIndex, v: FieldView) -> bool {
    &&& idx.title@ == without_timestamp(or_empty(member_text(v.2, "title"@)))
    &&& idx.revision@ == or_empty(member_text(v.2, "revision"@))
    &&& opt_view(idx.author) == member_text(v.2, "author"@)
    &&& opt_view(idx.url) == member_text(v.2, "url"@)
    &&& opt_view(idx.description) == member_text(v.2, "description"@)
}

/// What the index of a dictionary says of it.
pub fn dictionary_index(index: &JsonField) -> (r: DictionaryIndex)
    ensures
        index_says(r, field_view(*index)),
{
    let title = string_or_empty(member_string(index, "title"));
    DictionaryIndex {
        title: remove_timestamp(title.as_str()),
        revision: string_or_empty(member_string(index, "revision")),
        author: member_string(index, "author"),
        url: member_string(index, "url"),
        description: member_string(index, "description"),
    }
}

/// The element at `i` of a bank row (`Value::get(i)`).
pub open spec fn field_at(row: Seq<FieldView>, i: int) -> Option<FieldView> {
    if 0 <= i < row.len() {
        Some(row[i])
    } else {
        None
    }
}

/// The element at `i` as a string.
pub open spec fn text_at(row: Seq<FieldView>, i: int) -> Option<Seq<char>> {
    match field_at(row, i) {
        Some(f) => f.0,
        None => None,
    }
}

/// The element at `i` as an integer.
pub open spec fn integer_at(row: Seq<FieldView>, i: int) -> Option<i64> {
    match field_at(row, i) {
        Some(f) => f.1,
        None => None,
    }
}

/// The element at `i` written as JSON; a missing element is written `null`.
pub open spec fn json_at(row: Seq<FieldView>, i: int) -> Seq<char> {
    match field_at(row, i) {
        Some(f) => f.3,
        None => "null"@,
    }
}

/// A space-separated list of tags or rules: trimmed, and absent when that leaves nothing.
pub open spec fn tag_list(o: Option<Seq<char>>) -> Option<Seq<char>> {
    match o {
        Some(s) => if trimmed(s).len() > 0 {
            Some(trimmed(s))
        } else {
            None
        },
        None => None,
    }
}

fn text_field(row: &Vec<JsonField>, i: usize) -> (r: Option<String>)
    ensures
        opt_view(r) == text_at(row_view(*row), i as int),
{
    if i < row.len() {
        match &row[i].text {
            Some(t) => Some(t.clone()),
            None => None,
        }
    } else {
        None
    }
}

fn integer_field(row: &Vec<JsonField>, i: usize) -> (r: Option<i64>)
    ensures
        r == integer_at(row_view(*row), i as int),
{
    if i < row.len() {
        row[i].integer
    } else {
        None
    }
}

fn json_field(row: &Vec<JsonField>, i: usize) -> (r: String)
    ensures
        r@ == json_at(row_view(*row), i as int),
{
    if i < row.len() {
        row[i].json.clone()
    } else {
        string_from_chars(chars_of("null").as_slice())
    }
}

fn tag_field(row: &Vec<JsonField>, i: usize) -> (r: Option<String>)
    ensures
        opt_view(r) == tag_list(text_at(row_view(*row), i as int)),
{
    match text_field(row, i) {
        Some(t) => {
            let cs = chars_of(t.as_str());
            let tr = trim_chars(cs.as_slice());
            if tr.len() > 0 {
                Some(string_from_chars(tr.as_slice()))
            } else {
                None
            }
        },
        None => None,
    }
}

/// One row of a term bank: `[term, reading, definition tags, rules, score, glossary,
/// sequence, term tags]`.
pub struct TermRecord {
    pub term: String,
    pub reading: String,
    pub def_tags: Option<String>,
    pub rules: Option<String>,
    pub score: i64,
    pub glossary_json: String,
    pub sequence: Option<i64>,
    pub term_tags: Option<String>,
}

/// What a term bank row becomes: missing texts read as empty, a missing score as 0, a
/// missing glossary as `null`, and tag lists are trimmed and dropped when empty.
pub fn term_record(row: &Vec<JsonField>) -> (r: TermRecord)
    ensures
        r.term@ == or_empty(text_at(row_view(*row), 0)),
        r.reading@ == or_empty(text_at(row_view(*row), 1)),
        opt_view(r.def_tags) == tag_list(text_at(row_view(*row), 2)),
        opt_view(r.rules) == tag_list(text_at(row_view(*row), 3)),
        r.score == (match integer_at(row_view(*row), 4) {
            Some(v) => v,
            None => 0,
        }),
        r.glossary_json@ == json_at(row_view(*row), 5),
        r.sequence == integer_at(row_view(*row), 6),
        opt_view(r.term_tags) == tag_list(text_at(row_view(*row), 7)),
{
    TermRecord {
        term: string_or_empty(text_field(row, 0)),
        reading: string_or_empty(text_field(row, 1)),
        def_tags: tag_field(row, 2),
        rules: tag_field(row, 3),
        score: match integer_field(row, 4) {
            Some(v) => v,
            None => 0,
        },
        glossary_json: json_field(row, 5),
        sequence: integer_field(row, 6),
        term_tags: tag_field(row, 7),
    }
}

/// One row of a term meta bank: `[term, mode, data]`.
pub struct TermMetaRecord {
    pub term: String,
    pub mode: String,
    pub reading: Option<String>,
    pub data_json: String,
}

/// What a term meta bank row becomes: missing texts read as empty, the reading is the
/// `reading` member of the data, and missing data is written `null`.
pub fn term_meta_record(row: &Vec<JsonField>) -> (r: TermMetaRecord)
    ensures
        r.term@ == or_empty(text_at(row_view(*row), 0)),
        r.mode@ == or_empty(text_at(row_view(*row), 1)),
        opt_view(r.reading) == (match field_at(row_view(*row), 2) {
            Some(f) => member_text(f.2, "reading"@),
            None => None,
        }),
        r.data_json@ == json_at(row_view(*row), 2),
{
    let reading = if row.len() > 2 {
        member_string(&row[2], "reading")
    } else {
        None
    };
    TermMetaRecord {
        term: string_or_empty(text_field(row, 0)),
        mode: string_or_empty(text_field(row, 1)),
        reading,
        data_json: json_field(row, 2),
    }
}

/// One row of a tag bank: `[name, category, order, notes, score]`.
pub struct TagRecord {
    pub name: String,
    pub category: Option<String>,
    pub sort_order: i64,
    pub notes: Option<String>,
    pub score: i64,
}

/// What a tag bank row becomes: a missing name reads as empty, a missing order or score as 0.
pub fn tag_record(row: &Vec<JsonField>) -> (r: TagRecord)
    ensures
        r.name@ == or_empty(text_at(row_view(*row), 0)),
        opt_view(r.category) == text_at(row_view(*row), 1),
        r.sort_order == (match integer_at(row_view(*row), 2) {
            Some(v) => v,
            None => 0,
        }),
        opt_view(r.notes) == text_at(row_view(*row), 3),
        r.score == (match integer_at(row_view(*row), 4) {
            Some(v) => v,
            None => 0,
        }),
{
    TagRecord {
        name: string_or_empty(text_field(row, 0)),
        category: text_field(row, 1),
        sort_order: match integer_field(row, 2) {
            Some(v) => v,
            None => 0,
        },
        notes: text_field(row, 3),
        score: match integer_field(row, 4) {
            Some(v) => v,
            None => 0,
        },
    }
}

} // verus!
