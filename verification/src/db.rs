//! The layout of the dictionary databases: the files, the schemas they are attached under,
//! how they are attached, and which of them are attached.
use vstd::prelude::*;

use crate::order::{lemma_text_lt_irreflexive, lemma_text_lt_transitive, text_less, text_lt};
use crate::text::{chars_of, push_str, string_from_chars};

verus! {

/// The databases that hang off the user database.
#[derive(Debug, Clone, Copy, PartialEq, Eq)]
pub enum DbChild {
    Yomitan,
    YomitanGlossary,
    Search,
}

/// The file of the user database.
pub const USER_DBFILE: &'static str = "user.db";

/// The file a database lives in.
pub open spec fn db_file_name(c: DbChild) -> Seq<char> {
    match c {
        DbChild::Yomitan => "yomitan.db"@,
        DbChild::YomitanGlossary => "yomitan-glossary.db"@,
        DbChild::Search => "search.db"@,
    }
}

/// The schema a database is attached under.
pub open spec fn db_schema_name(c: DbChild) -> Seq<char> {
    match c {
        DbChild::Yomitan => "yomitan"@,
        DbChild::YomitanGlossary => "glossary"@,
        DbChild::Search => "search"@,
    }
}

/// The file a database lives in.
pub fn db_file(c: DbChild) -> (r: &'static str)
    ensures
        r@ == db_file_name(c),
{
    match c {
        DbChild::Yomitan => "yomitan.db",
        DbChild::YomitanGlossary => "yomitan-glossary.db",
        DbChild::Search => "search.db",
    }
}

/// The schema a database is attached under.
pub fn db_schema(c: DbChild) -> (r: &'static str)
    ensures
        r@ == db_schema_name(c),
{
    match c {
        DbChild::Yomitan => "yomitan",
        DbChild::YomitanGlossary => "glossary",
        DbChild::Search => "search",
    }
}

/// The path in an SQLite URI: backslashes become slashes.
pub open spec fn uri_path(path: Seq<char>) -> Seq<char> {
    path.map_values(|c: char| if c == '\\' { '/' } else { c })
}

/// The URI under which a database file is attached; a read-only one is opened immutable.
pub open spec fn attach_uri_text(path: Seq<char>, read_only: bool) -> Seq<char> {
    "file:"@ + uri_path(path) + (if read_only {
        "?mode=ro&immutable=1"@
    } else {
        seq![]
    })
}

/// The URI under which the database file at `path` is attached.
pub fn attach_uri(path: &str, read_only: bool) -> (r: String)
    ensures
        r@ == attach_uri_text(path@, read_only),
{
    let cs = chars_of(path);
    let mut v: Vec<char> = Vec::new();
    push_str(&mut v, "file:");
    let ghost head = v@;
    let mut i: usize = 0;
    while i < cs.len()
        invariant
            i <= cs@.len(),
            cs@ == path@,
            v@ == head + uri_path(cs@.take(i as int)),
        decreases cs@.len() - i,
    {
        let c = cs[i];
        v.push(if c == '\\' {
            '/'
        } else {
            c
        });
        assert(uri_path(cs@.take(i as int + 1)) =~= uri_path(cs@.take(i as int)).push(
            if c == '\\' {
                '/'
            } else {
                c
            },
        ));
        i += 1;
    }
    assert(cs@.take(cs@.len() as int) == cs@);
    if read_only {
        push_str(&mut v, "?mode=ro&immutable=1");
    }
    string_from_chars(v.as_slice())
}

/// Whether the dictionary service attaches a database read-only: the dictionary and its
/// glossaries are only read; the search index is written.
pub open spec fn attached_read_only(c: DbChild) -> bool {
    c != DbChild::Search
}

/// Whether a database is attached read-only when the service reads.
pub fn is_attached_read_only(c: DbChild) -> (r: bool)
    ensures
        r == attached_read_only(c),
{
    match c {
        DbChild::Search => false,
        _ => true,
    }
}

/// The statement that attaches a database under its schema; its parameter is the URI.
pub fn attach_statement(c: DbChild) -> (r: String)
    ensures
        r@ == "ATTACH DATABASE ?1 AS "@ + db_schema_name(c),
{
    let mut v: Vec<char> = Vec::new();
    push_str(&mut v, "ATTACH DATABASE ?1 AS ");
    push_str(&mut v, db_schema(c));
    string_from_chars(v.as_slice())
}

/// The statement that lets SQLite map up to 3 GB of an attached database.
pub fn mmap_statement(c: DbChild) -> (r: String)
    ensures
        r@ == "\n                PRAGMA "@ + db_schema_name(c)
            + ".mmap_size = 3000000000; -- 3_000_000_000\n                "@,
{
    let mut v: Vec<char> = Vec::new();
    push_str(&mut v, "\n                PRAGMA ");
    push_str(&mut v, db_schema(c));
    push_str(&mut v, ".mmap_size = 3000000000; -- 3_000_000_000\n                ");
    string_from_chars(v.as_slice())
}

/// Which databases are attached to the connection.
#[derive(Debug, Clone, Copy, PartialEq, Eq)]
pub struct AttachState {
    pub yomitan: bool,
    pub glossary: bool,
    pub search: bool,
}

pub open spec fn attached(s: AttachState, c: DbChild) -> bool {
    match c {
        DbChild::Yomitan => s.yomitan,
        DbChild::YomitanGlossary => s.glossary,
        DbChild::Search => s.search,
    }
}

impl AttachState {
    /// Nothing attached.
    pub fn new() -> (r: AttachState)
        ensures
            forall|c: DbChild| !attached(r, c),
    {
        AttachState { yomitan: false, glossary: false, search: false }
    }

    /// Whether `c` is attached.
    pub fn is_attached(&self, c: DbChild) -> (r: bool)
        ensures
            r == attached(*self, c),
    {
        match c {
            DbChild::Yomitan => self.yomitan,
            DbChild::YomitanGlossary => self.glossary,
            DbChild::Search => self.search,
        }
    }

    /// Records that `c` is attached.
    pub fn mark_attached(&mut self, c: DbChild)
        ensures
            attached(*final(self), c),
            forall|d: DbChild| d != c ==> attached(*final(self), d) == attached(*old(self), d),
    {
        match c {
            DbChild::Yomitan => self.yomitan = true,
            DbChild::YomitanGlossary => self.glossary = true,
            DbChild::Search => self.search = true,
        }
    }
}

/// A database is attached once: after it is recorded as attached, recording it again
/// changes nothing, and the others stay as they were.
pub proof fn lemma_attach_once(s: AttachState, c: DbChild, t: AttachState, u: AttachState)
    requires
        attached(t, c),
        forall|d: DbChild| d != c ==> attached(t, d) == attached(s, d),
        attached(u, c),
        forall|d: DbChild| d != c ==> attached(u, d) == attached(t, d),
    ensures
        forall|d: DbChild| attached(u, d) == attached(t, d),
        forall|d: DbChild| d != c ==> attached(u, d) == attached(s, d),
{
}

/// The version of the dictionary schema.
pub const SCHEMA_VERSION: &'static str = "2026-03-08";

/// What opening the dictionary database does to bring its schema up to date.
#[derive(Debug, Clone, Copy, PartialEq, Eq)]
pub struct SchemaPlan {
    /// Move the glossaries into their own database (schemas before version `2`).
    pub migrate_glossary: bool,
    /// Record the current version over an older one.
    pub record_version: bool,
    /// Record the version and creation time of a new database.
    pub record_creation: bool,
}

pub open spec fn schema_plan_for(current: Option<Seq<char>>) -> SchemaPlan {
    match current {
        Some(v) => SchemaPlan {
            migrate_glossary: text_lt(v, "2"@),
            record_version: text_lt(v, SCHEMA_VERSION@),
            record_creation: false,
        },
        None => SchemaPlan { migrate_glossary: false, record_version: false, record_creation: true },
    }
}

/// What to do given the recorded schema version (`None` for a new database).
pub fn schema_plan(current: Option<&str>) -> (r: SchemaPlan)
    ensures
        r == schema_plan_for(match current {
            Some(v) => Some(v@),
            None => None,
        }),
        r.migrate_glossary <==> (current matches Some(v) && (v@.len() == 0 || v@[0] < '2')),
{
    proof {
        if let Some(v) = current {
            lemma_glossary_migration_versions(v@);
        }
    }
    match current {
        Some(v) => {
            let cv = chars_of(v);
            let two = chars_of("2");
            let now = chars_of(SCHEMA_VERSION);
            SchemaPlan {
                migrate_glossary: text_less(cv.as_slice(), two.as_slice()),
                record_version: text_less(cv.as_slice(), now.as_slice()),
                record_creation: false,
            }
        },
        None => SchemaPlan { migrate_glossary: false, record_version: false, record_creation: true },
    }
}

/// The glossaries are moved out exactly for a recorded version that sorts before "2": an
/// empty one, or one whose first character comes before '2'. A version "2", or any that begins
/// with '2' or a later character, is left as it is.
pub proof fn lemma_glossary_migration_versions(v: Seq<char>)
    ensures
        schema_plan_for(Some(v)).migrate_glossary <==> (v.len() == 0 || v[0] < '2'),
        !schema_plan_for(Some("2"@)).migrate_glossary,
        schema_plan_for(None).migrate_glossary == false,
{
    reveal_strlit("2");
    let t = "2"@;
    assert(t.len() == 1 && t[0] == '2');
    if v.len() > 0 && v[0] == '2' {
        assert(t.drop_first().len() == 0);
        assert(!text_lt(v.drop_first(), t.drop_first()));
    }
    lemma_text_lt_irreflexive(t);
}

/// The schema version recorded once the schema has been brought up to date from `current`:
/// the current one where it was missing or older, else the one recorded.
pub open spec fn schema_version_after(current: Option<Seq<char>>) -> Seq<char> {
    match current {
        Some(v) => if text_lt(v, SCHEMA_VERSION@) {
            SCHEMA_VERSION@
        } else {
            v
        },
        None => SCHEMA_VERSION@,
    }
}

proof fn lemma_two_before_current()
    ensures
        text_lt("2"@, SCHEMA_VERSION@),
{
    reveal_strlit("2026-03-08");
    reveal_strlit("2");
    let v = SCHEMA_VERSION@;
    let t = "2"@;
    assert(v == "2026-03-08"@);
    assert(v.len() == 10);
    assert(t.len() == 1);
    assert(v[0] == t[0]);
    assert(t.drop_first().len() == 0);
    assert(v.drop_first().len() == 9);
    assert(text_lt(t.drop_first(), v.drop_first()));
}

/// A database whose recorded schema version is the current one or a later one needs nothing
/// done.
pub proof fn lemma_up_to_date_schema_is_final(v: Seq<char>)
    requires
        !text_lt(v, SCHEMA_VERSION@),
    ensures
        schema_plan_for(Some(v)) == (SchemaPlan {
            migrate_glossary: false,
            record_version: false,
            record_creation: false,
        }),
{
    lemma_two_before_current();
    if text_lt(v, "2"@) {
        lemma_text_lt_transitive(v, "2"@, SCHEMA_VERSION@);
    }
}

/// Bringing the schema up to date is done once: whatever version was recorded (or none), the
/// version recorded afterwards needs nothing more done.
pub proof fn lemma_schema_setup_settles(current: Option<Seq<char>>)
    ensures
        !text_lt(schema_version_after(current), SCHEMA_VERSION@),
        schema_plan_for(Some(schema_version_after(current))) == (SchemaPlan {
            migrate_glossary: false,
            record_version: false,
            record_creation: false,
        }),
{
    lemma_text_lt_irreflexive(SCHEMA_VERSION@);
    lemma_up_to_date_schema_is_final(schema_version_after(current));
}

} // verus!
