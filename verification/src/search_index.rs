//! What the search index holds for each dictionary term.
use vstd::prelude::*;

use crate::normalize::{hiragana_of, normalize_reading, normalize_term, normalized_term, sound_marks_paired};
use crate::tokenizer::{joined, search_words, split_on, tokens_of, JaTokenizer};

verus! {

/// A row of the search index: the term's id, its term and reading in normal form, its best
/// score, and the words under which full-text search finds it.
pub struct SearchIndexRow {
    pub id: i64,
    pub term: String,
    pub reading: String,
    pub max_score: Option<i64>,
    pub words: String,
}

/// The search index row of a dictionary term, for a reading that can be turned into hiragana
/// (`convertible_reading`) and a term that vibrato's worker tokenizes.
pub fn search_index_row(
    tokenizer: &JaTokenizer,
    id: i64,
    term: &str,
    reading: &str,
    max_score: Option<i64>,
) -> (r: SearchIndexRow)
    requires
        sound_marks_paired(reading@),
        tokenizer.tokenizes(term@),
    ensures
        r.id == id,
        r.term@ == normalized_term(term@),
        r.reading@ == hiragana_of(reading@),
        r.max_score == max_score,
        r.words@ == joined(
            search_words(
                tokens_of(tokenizer.dictionary(), term@).map_values(
                    |p: (Seq<char>, Seq<char>)| (p.0, split_on(p.1, ',')),
                ),
            ),
            " "@,
        ),
{
    SearchIndexRow {
        id,
        term: normalize_term(term),
        reading: normalize_reading(reading),
        max_score,
        words: tokenizer.search_text(term),
    }
}

} // verus!
