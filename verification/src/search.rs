//! How a dictionary search is put to the database: the normalised patterns, the
//! statement, and the label under which the search is timed.
use vstd::prelude::*;

use crate::normalize::{normalize_term, normalized_char, normalized_term};
use crate::numbers::{decimal, push_decimal};
use crate::text::{chars_equal, chars_of, push_str, string_from_chars};

verus! {

/// The characters that keep their meaning as `GLOB` wildcards in a term query.
pub open spec fn is_glob_special(c: char) -> bool {
    c == '*' || c == '?' || c == '[' || c == ']' || c == '\\'
}

/// A term query in normal form: each run of ordinary characters is normalised as a term,
/// and the wildcard characters stay where they are.
pub open spec fn glob_normalized(s: Seq<char>) -> Seq<char>
    decreases s.len(),
{
    if s.len() == 0 {
        seq![]
    } else {
        glob_normalized(s.drop_last()) + (if is_glob_special(s.last()) {
            seq![s.last()]
        } else {
            normalized_char(s.last())
        })
    }
}

/// Normalises a term query, keeping its `GLOB` wildcards.
pub fn normalize_glob_query(q: &str) -> (r: String)
    ensures
        r@ == glob_normalized(q@),
{
    let cs = chars_of(q);
    let mut out: Vec<char> = Vec::new();
    let mut segment: Vec<char> = Vec::new();
    let mut i: usize = 0;
    while i < cs.len()
        invariant
            i <= cs@.len(),
            cs@ == q@,
            glob_normalized(cs@.take(i as int)) == out@ + normalized_term(segment@),
        decreases cs@.len() - i,
    {
        let c = cs[i];
        assert(cs@.take(i as int + 1).drop_last() == cs@.take(i as int));
        if c == '*' || c == '?' || c == '[' || c == ']' || c == '\\' {
            let seg_text = string_from_chars(segment.as_slice());
            let norm = normalize_term(seg_text.as_str());
            push_str(&mut out, norm.as_str());
            out.push(c);
            segment = Vec::new();
            assert(normalized_term(segment@) == Seq::<char>::empty());
        } else {
            let ghost before = segment@;
            segment.push(c);
            assert(segment@.drop_last() == before);
        }
        i += 1;
    }
    assert(cs@.take(cs@.len() as int) == cs@);
    let seg_text = string_from_chars(segment.as_slice());
    let norm = normalize_term(seg_text.as_str());
    push_str(&mut out, norm.as_str());
    string_from_chars(out.as_slice())
}

/// A query without wildcards is searched under the same normal form under which terms are
/// stored.
pub proof fn lemma_glob_normalized_plain(s: Seq<char>)
    requires
        forall|i: int| 0 <= i < s.len() ==> !is_glob_special(#[trigger] s[i]),
    ensures
        glob_normalized(s) == normalized_term(s),
    decreases s.len(),
{
    if s.len() > 0 {
        assert(!is_glob_special(s[s.len() - 1]));
        lemma_glob_normalized_plain(s.drop_last());
    }
}

/// How a search is named in the timing log: the term, and the reading in brackets when it
/// differs.
pub open spec fn search_label(q_term: Seq<char>, q_reading: Seq<char>) -> Seq<char> {
    if q_term == q_reading {
        q_term
    } else {
        q_term + " ("@ + q_reading + ")"@
    }
}

/// The comparison a pattern is matched with: `GLOB`, or `=` for an empty pattern.
pub open spec fn comparison(pattern: Seq<char>) -> Seq<char> {
    if pattern.len() > 0 {
        "GLOB"@
    } else {
        "="@
    }
}

/// Term and reading must both match, unless they are the same query, which then matches
/// either.
pub open spec fn connective(q_term: Seq<char>, q_reading: Seq<char>) -> Seq<char> {
    if q_term == q_reading {
        "OR"@
    } else {
        "AND"@
    }
}

/// The statement of a search, its four parameters being the term pattern, the reading
/// pattern, the limit and the offset.
pub open spec fn search_sql(eq1: Seq<char>, and_or: Seq<char>, eq2: Seq<char>) -> Seq<char> {
    "\n            WITH s AS (\n                SELECT * FROM search.terms\n                WHERE term "@ + eq1 + " ?1 "@ + and_or + " reading "@ + eq2 + " ?2\n                "@ + "ORDER BY max_score DESC\n                LIMIT ?3 OFFSET ?4"@ + "\n            )\n            SELECT\n                t.term,\n                t.reading,\n                COALESCE(dt.tags,  '')  AS def_tags,\n                COALESCE(r.rules,  '')  AS rules,\n                t.score,\n                COALESCE(g.b, '[]')     AS glossary,\n                t.sequence,\n                COALESCE(tt.tags,  '')  AS term_tags,\n                d.title                 AS dict_title\n            FROM s\n            JOIN yomitan.terms              t  ON t.id  = s.id\n            LEFT JOIN yomitan.dictionaries  d  ON d.id  = t.dict_id\n            LEFT JOIN yomitan.def_tag_sets  dt ON dt.id = t.def_tags_id\n            LEFT JOIN yomitan.rule_sets     r  ON r.id  = t.rules_id\n            LEFT JOIN yomitan.term_tag_sets tt ON tt.id = t.term_tags_id\n            LEFT JOIN glossary.glossaries   g  ON g.id  = t.glossary_id\n        "@
}

/// Whether `t` occurs in `s`.
pub open spec fn occurs_in(t: Seq<char>, s: Seq<char>) -> bool {
    exists|i: int| 0 <= i && i + t.len() <= s.len() && #[trigger] s.subrange(i, i + t.len()) == t
}

/// A search ranks the matching terms by their best score, highest first, and only then takes
/// the page of them that the limit and the offset select.
pub proof fn lemma_search_ranks_by_score(eq1: Seq<char>, and_or: Seq<char>, eq2: Seq<char>)
    ensures
        occurs_in(
            "ORDER BY max_score DESC\n                LIMIT ?3 OFFSET ?4"@,
            search_sql(eq1, and_or, eq2),
        ),
{
    let t = "ORDER BY max_score DESC\n                LIMIT ?3 OFFSET ?4"@;
    let head = "\n            WITH s AS (\n                SELECT * FROM search.terms\n                WHERE term "@
        + eq1 + " ?1 "@ + and_or + " reading "@ + eq2 + " ?2\n                "@;
    let tail = "\n            )\n            SELECT\n                t.term,\n                t.reading,\n                COALESCE(dt.tags,  '')  AS def_tags,\n                COALESCE(r.rules,  '')  AS rules,\n                t.score,\n                COALESCE(g.b, '[]')     AS glossary,\n                t.sequence,\n                COALESCE(tt.tags,  '')  AS term_tags,\n                d.title                 AS dict_title\n            FROM s\n            JOIN yomitan.terms              t  ON t.id  = s.id\n            LEFT JOIN yomitan.dictionaries  d  ON d.id  = t.dict_id\n            LEFT JOIN yomitan.def_tag_sets  dt ON dt.id = t.def_tags_id\n            LEFT JOIN yomitan.rule_sets     r  ON r.id  = t.rules_id\n            LEFT JOIN yomitan.term_tag_sets tt ON tt.id = t.term_tags_id\n            LEFT JOIN glossary.glossaries   g  ON g.id  = t.glossary_id\n        "@;
    let sql = search_sql(eq1, and_or, eq2);
    assert(sql == head + t + tail);
    assert(sql.subrange(head.len() as int, head.len() + t.len() as int) =~= t);
}

/// What a search sends to the database and how it is logged.
pub struct YomitanSearch {
    /// The label of the search in the timing log.
    pub timer_label: String,
    /// The first parameter: the term query in normal form.
    pub term_pattern: String,
    /// The second parameter: the reading query as given.
    pub reading_pattern: String,
    /// The third parameter.
    pub limit: u32,
    /// The fourth parameter.
    pub offset: u32,
    /// The statement.
    pub sql: String,
}

/// Prepares a search for terms and readings: the term query is normalised around its
/// wildcards, the statement compares term and reading by `GLOB` (or `=` when a pattern is
/// empty), joined by `OR` when term and reading are the same query and by `AND` otherwise.
pub fn plan_yomitan_search(q_term: &str, q_reading: &str, limit: u32, offset: u32) -> (p:
    YomitanSearch)
    ensures
        p.term_pattern@ == glob_normalized(q_term@),
        p.reading_pattern@ == q_reading@,
        p.limit == limit,
        p.offset == offset,
        p.sql@ == search_sql(
            comparison(glob_normalized(q_term@)),
            connective(q_term@, q_reading@),
            comparison(q_reading@),
        ),
        p.timer_label@ == "search_yomitan: "@ + search_label(q_term@, q_reading@) + " offset="@
            + decimal(offset as nat) + " limit="@ + decimal(limit as nat),
        occurs_in("ORDER BY max_score DESC\n                LIMIT ?3 OFFSET ?4"@, p.sql@),
{
    proof {
        lemma_search_ranks_by_score(
            comparison(glob_normalized(q_term@)),
            connective(q_term@, q_reading@),
            comparison(q_reading@),
        );
    }
    let term_chars = chars_of(q_term);
    let reading_chars = chars_of(q_reading);
    let same = chars_equal(term_chars.as_slice(), reading_chars.as_slice());

    let mut label: Vec<char> = Vec::new();
    push_str(&mut label, "search_yomitan: ");
    push_str(&mut label, q_term);
    if !same {
        push_str(&mut label, " (");
        push_str(&mut label, q_reading);
        push_str(&mut label, ")");
    }
    push_str(&mut label, " offset=");
    push_decimal(&mut label, offset as u64);
    push_str(&mut label, " limit=");
    push_decimal(&mut label, limit as u64);

    let term_pattern = normalize_glob_query(q_term);
    let term_pattern_chars = chars_of(term_pattern.as_str());

    let mut sql: Vec<char> = Vec::new();
    push_str(&mut sql, "\n            WITH s AS (\n                SELECT * FROM search.terms\n                WHERE term ");
    if term_pattern_chars.len() > 0 {
        push_str(&mut sql, "GLOB");
    } else {
        push_str(&mut sql, "=");
    }
    push_str(&mut sql, " ?1 ");
    if same {
        push_str(&mut sql, "OR");
    } else {
        push_str(&mut sql, "AND");
    }
    push_str(&mut sql, " reading ");
    if reading_chars.len() > 0 {
        push_str(&mut sql, "GLOB");
    } else {
        push_str(&mut sql, "=");
    }
    push_str(&mut sql, " ?2\n                ");
    push_str(&mut sql, "ORDER BY max_score DESC\n                LIMIT ?3 OFFSET ?4");
    push_str(&mut sql, "\n            )\n            SELECT\n                t.term,\n                t.reading,\n                COALESCE(dt.tags,  '')  AS def_tags,\n                COALESCE(r.rules,  '')  AS rules,\n                t.score,\n                COALESCE(g.b, '[]')     AS glossary,\n                t.sequence,\n                COALESCE(tt.tags,  '')  AS term_tags,\n                d.title                 AS dict_title\n            FROM s\n            JOIN yomitan.terms              t  ON t.id  = s.id\n            LEFT JOIN yomitan.dictionaries  d  ON d.id  = t.dict_id\n            LEFT JOIN yomitan.def_tag_sets  dt ON dt.id = t.def_tags_id\n            LEFT JOIN yomitan.rule_sets     r  ON r.id  = t.rules_id\n            LEFT JOIN yomitan.term_tag_sets tt ON tt.id = t.term_tags_id\n            LEFT JOIN glossary.glossaries   g  ON g.id  = t.glossary_id\n        ");

    YomitanSearch {
        timer_label: string_from_chars(label.as_slice()),
        term_pattern,
        reading_pattern: string_from_chars(reading_chars.as_slice()),
        limit,
        offset,
        sql: string_from_chars(sql.as_slice()),
    }
}

} // verus!
