//! Japanese word segmentation with a vibrato dictionary, and the words under which a term is
//! indexed for full-text search.
use vstd::prelude::*;

use crate::error::CJDicError;
use crate::order::views;
use crate::text::{chars_equal, chars_of, copy_chars, push_str, string_from_chars};

verus! {

#[verifier::external_type_specification]
#[verifier::external_body]
pub struct ExVibratoTokenizer(vibrato::Tokenizer);

/// Whether `vibrato::Dictionary::read` accepts, as a dictionary, what a `zstd::Decoder`
/// streams out of the compressed `data`.
pub uninterp spec fn vibrato_reads(data: Seq<u8>) -> bool;

/// The tokens, as (surface, feature) pairs in order, into which a vibrato tokenizer over the
/// dictionary read from the compressed `dictionary` splits `text`; `None` where the worker
/// panics instead (as it does on a character at which no lattice node ends, which happens when
/// the dictionary's unknown-word table gives the character's category no entry).
pub uninterp spec fn vibrato_tokens(dictionary: Seq<u8>, text: Seq<char>) -> Option<Seq<(Seq<char>, Seq<char>)>>;

/// The tokens of `text` under the dictionary, where the worker gives them.
pub open spec fn tokens_of(dictionary: Seq<u8>, text: Seq<char>) -> Seq<(Seq<char>, Seq<char>)> {
    vibrato_tokens(dictionary, text).unwrap()
}

/// The surfaces of a sequence of tokens, one after another.
pub open spec fn surfaces_joined<D>(tokens: Seq<(Seq<char>, D)>) -> Seq<char>
    decreases tokens.len(),
{
    if tokens.len() == 0 {
        seq![]
    } else {
        surfaces_joined(tokens.drop_last()) + tokens.last().0
    }
}

/// Splitting each token's features leaves its surface, so the surfaces join as before.
proof fn lemma_surfaces_joined_split(tokens: Seq<(Seq<char>, Seq<char>)>)
    ensures
        surfaces_joined(tokens.map_values(|p: (Seq<char>, Seq<char>)| (p.0, split_on(p.1, ','))))
            == surfaces_joined(tokens),
    decreases tokens.len(),
{
    let f = |p: (Seq<char>, Seq<char>)| (p.0, split_on(p.1, ','));
    if tokens.len() > 0 {
        lemma_surfaces_joined_split(tokens.drop_last());
        assert(tokens.map_values(f).drop_last() =~= tokens.drop_last().map_values(f));
    }
}

/// One token: its surface and its features.
#[derive(Debug, Clone)]
pub struct TokenizeSegment {
    pub surface: String,
    /// 0	品詞	Part-of-speech
    /// 1	品詞細分類1	Part-of-speech subcategory 1
    /// 2	品詞細分類2	Part-of-speech subcategory 2
    /// 3	品詞細分類3	Part-of-speech subcategory 3
    /// 4	活用形	Conjugation form
    /// 5	活用型	Conjugation type
    /// 6	原形	Base form
    /// 7	読み	Reading
    /// 8	発音	Pronunciation
    /// @see https://lindera.github.io/lindera/dictionaries/ipadic.html
    pub details: Vec<String>,
}

pub open spec fn strings_view(v: Seq<String>) -> Seq<Seq<char>> {
    v.map_values(|s: String| s@)
}

pub open spec fn segment_view(t: TokenizeSegment) -> (Seq<char>, Seq<Seq<char>>) {
    (t.surface@, strings_view(t.details@))
}

pub open spec fn segments_view(v: Seq<TokenizeSegment>) -> Seq<(Seq<char>, Seq<Seq<char>>)> {
    v.map_values(|t: TokenizeSegment| segment_view(t))
}

/// The parts of `s` between the separators (`str::split` with a character pattern): one
/// more part than there are separators.
pub open spec fn split_on(s: Seq<char>, sep: char) -> Seq<Seq<char>>
    decreases s.len(),
{
    if s.len() == 0 {
        seq![seq![]]
    } else {
        let prev = split_on(s.drop_last(), sep);
        if s.last() == sep {
            prev.push(seq![])
        } else {
            prev.update(prev.len() - 1, prev.last().push(s.last()))
        }
    }
}

/// Splits `s` at every `sep`.
pub fn split_text(s: &str, sep: char) -> (r: Vec<String>)
    ensures
        strings_view(r@) == split_on(s@, sep),
{
    let cs = chars_of(s);
    let mut parts: Vec<Vec<char>> = Vec::new();
    let mut current: Vec<char> = Vec::new();
    let mut i: usize = 0;
    assert(cs@.take(0) =~= Seq::<char>::empty());
    assert(views(parts@).push(current@) =~= seq![Seq::<char>::empty()]);
    while i < cs.len()
        invariant
            i <= cs@.len(),
            cs@ == s@,
            split_on(cs@.take(i as int), sep) == views(parts@).push(current@),
        decreases cs@.len() - i,
    {
        let c = cs[i];
        let ghost prev = views(parts@).push(current@);
        assert(cs@.take(i as int + 1).drop_last() == cs@.take(i as int));
        assert(cs@.take(i as int + 1).last() == c);
        if c == sep {
            let done = copy_chars(current.as_slice());
            parts.push(done);
            current = Vec::new();
            assert(views(parts@).push(current@) =~= prev.push(seq![]));
        } else {
            current.push(c);
            assert(views(parts@).push(current@) =~= prev.update(prev.len() - 1, prev.last().push(c)));
        }
        i += 1;
    }
    assert(cs@.take(cs@.len() as int) == cs@);
    parts.push(current);
    let mut r: Vec<String> = Vec::new();
    let mut k: usize = 0;
    while k < parts.len()
        invariant
            k <= parts@.len(),
            strings_view(r@) == views(parts@).take(k as int),
        decreases parts@.len() - k,
    {
        r.push(string_from_chars(parts[k].as_slice()));
        assert(views(parts@).take(k as int + 1) == views(parts@).take(k as int).push(parts@[k as int]@));
        assert(strings_view(r@) =~= views(parts@).take(k as int + 1));
        k += 1;
    }
    assert(views(parts@).take(parts@.len() as int) == views(parts@));
    r
}

/// Parts of speech that are left out of the search index: particles, auxiliary verbs,
/// symbols and conjunctions.
pub open spec fn excluded_part_of_speech(p: Seq<char>) -> bool {
    p == "助詞"@ || p == "助動詞"@ || p == "記号"@ || p == "接続詞"@
}

/// The word under which a token is indexed: its base form (feature 6), or its surface when
/// it has none.
pub open spec fn segment_base(surface: Seq<char>, details: Seq<Seq<char>>) -> Seq<char> {
    if details.len() > 6 {
        details[6]
    } else {
        surface
    }
}

/// Whether a token is indexed: all but those whose part of speech (feature 0) is excluded.
pub open spec fn segment_indexed(details: Seq<Seq<char>>) -> bool {
    !(details.len() > 0 && excluded_part_of_speech(details[0]))
}

/// The words under which a sequence of tokens is indexed, in order.
pub open spec fn search_words(segs: Seq<(Seq<char>, Seq<Seq<char>>)>) -> Seq<Seq<char>>
    decreases segs.len(),
{
    if segs.len() == 0 {
        seq![]
    } else {
        let prev = search_words(segs.drop_last());
        let t = segs.last();
        if segment_indexed(t.1) {
            prev.push(segment_base(t.0, t.1))
        } else {
            prev
        }
    }
}

/// The words joined by `sep` (`[T]::join`).
pub open spec fn joined(words: Seq<Seq<char>>, sep: Seq<char>) -> Seq<char>
    decreases words.len(),
{
    if words.len() == 0 {
        seq![]
    } else if words.len() == 1 {
        words[0]
    } else {
        joined(words.drop_last(), sep) + sep + words.last()
    }
}

fn is_excluded_part_of_speech(p: &str) -> (r: bool)
    ensures
        r == excluded_part_of_speech(p@),
{
    let cp = chars_of(p);
    let a = chars_of("助詞");
    let b = chars_of("助動詞");
    let c = chars_of("記号");
    let d = chars_of("接続詞");
    chars_equal(cp.as_slice(), a.as_slice()) || chars_equal(cp.as_slice(), b.as_slice())
        || chars_equal(cp.as_slice(), c.as_slice()) || chars_equal(cp.as_slice(), d.as_slice())
}

/// The text under which a term is indexed for full-text search: the base forms of its
/// tokens, without particles, auxiliary verbs, symbols and conjunctions, separated by
/// spaces.
pub fn search_index_text(segments: &Vec<TokenizeSegment>) -> (r: String)
    ensures
        r@ == joined(search_words(segments_view(segments@)), " "@),
{
    let ghost sv = segments_view(segments@);
    let mut out: Vec<char> = Vec::new();
    let mut count: usize = 0;
    let mut i: usize = 0;
    while i < segments.len()
        invariant
            i <= segments@.len(),
            sv == segments_view(segments@),
            out@ == joined(search_words(sv.take(i as int)), " "@),
            count as nat == search_words(sv.take(i as int)).len(),
            count <= i,
        decreases segments@.len() - i,
    {
        let t = &segments[i];
        assert(sv.take(i as int + 1).drop_last() == sv.take(i as int));
        assert(sv.take(i as int + 1).last() == segment_view(*t));
        let indexed = !(t.details.len() > 0 && is_excluded_part_of_speech(t.details[0].as_str()));
        if indexed {
            let ghost words = search_words(sv.take(i as int));
            if count > 0 {
                push_str(&mut out, " ");
            }
            if t.details.len() > 6 {
                push_str(&mut out, t.details[6].as_str());
            } else {
                push_str(&mut out, t.surface.as_str());
            }
            let ghost now = words.push(segment_base(segment_view(*t).0, segment_view(*t).1));
            assert(now.drop_last() == words);
            count += 1;
        }
        i += 1;
    }
    assert(sv.take(segments@.len() as int) == sv);
    string_from_chars(out.as_slice())
}

/// A vibrato tokenizer, with the dictionary it was read from.
pub struct JaTokenizer {
    inner: vibrato::Tokenizer,
    dictionary: Ghost<Seq<u8>>,
}

/// Why a compressed dictionary could not be read: the zstd stream could not be set up (for
/// want of memory), or vibrato did not read a dictionary out of it.
enum ReadFailure {
    Stream(String),
    Dictionary(String),
}

impl JaTokenizer {
    /// Whether vibrato's worker tokenizes `text` under this dictionary rather than panicking.
    /// It panics where no lattice node ends at the end of the text, as on a character whose
    /// category the dictionary's unknown-word table gives no entry and that no word of the
    /// lexicon covers; vibrato offers no way to find this out short of running the worker.
    pub open spec fn tokenizes(&self, text: Seq<char>) -> bool {
        vibrato_tokens(self.dictionary(), text) is Some
    }

    /// The compressed dictionary the tokenizer was read from.
    pub closed spec fn dictionary(&self) -> Seq<u8> {
        self.dictionary@
    }

    /// `vibrato::Dictionary::read` over a `zstd::Decoder` streaming `data`, made into a
    /// `vibrato::Tokenizer`. Claimed here: it succeeds exactly where `vibrato_reads` holds, the
    /// tokenizer keeps the data it was read from, and (as the worker builds no lattice for an
    /// empty sentence) it splits the empty text into no tokens; where it fails, vibrato's read
    /// failed. `zstd::Decoder::new` reads nothing and fails only when zstd cannot allocate its
    /// decoding context, which, as with any allocation, is left aside; the text of the error
    /// is left unsaid.
    #[verifier::external_body]
    fn read_dictionary(data: &[u8]) -> (r: Result<JaTokenizer, ReadFailure>)
        ensures
            r is Ok <==> vibrato_reads(data@),
            r matches Ok(t) ==> t.dictionary() == data@,
            r matches Ok(t) ==> vibrato_tokens(t.dictionary(), seq![]) == Some(
                Seq::<(Seq<char>, Seq<char>)>::empty(),
            ),
            r matches Err(e) ==> e is Dictionary,
    {
        let reader = match zstd::Decoder::new(data) {
            Ok(reader) => reader,
            Err(e) => return Err(ReadFailure::Stream(e.to_string())),
        };
        match vibrato::Dictionary::read(reader) {
            Ok(d) => Ok(JaTokenizer { inner: vibrato::Tokenizer::new(d), dictionary: Ghost(data@) }),
            Err(e) => Err(ReadFailure::Dictionary(e.to_string())),
        }
    }

    /// A vibrato worker run over `text`, each token given as its surface and its feature
    /// string, on a text where the worker does not panic. Claimed here: the result is
    /// `vibrato_tokens` of the dictionary and the text; and, as the lattice that the worker
    /// walks runs from the start of the text to its end with every surface the slice of the
    /// text between a node's start and end, the surfaces in order make up the text.
    #[verifier::external_body]
    fn raw_tokens(&self, text: &str) -> (r: Vec<(String, String)>)
        requires
            vibrato_tokens(self.dictionary(), text@) is Some,
        ensures
            Some(r@.map_values(|p: (String, String)| (p.0@, p.1@))) == vibrato_tokens(self.dictionary(), text@),
            surfaces_joined(r@.map_values(|p: (String, String)| (p.0@, p.1@))) == text@,
    {
        let mut worker = self.inner.new_worker();
        worker.reset_sentence(text);
        worker.tokenize();
        worker.token_iter().map(|t| (t.surface().to_string(), t.feature().to_string())).collect()
    }

    /// A tokenizer over a zstd-compressed vibrato dictionary, read as a stream. It succeeds
    /// exactly where vibrato reads a dictionary out of the stream; other data (data that is
    /// not zstd, a stream that breaks off, or a dictionary vibrato refuses) is a
    /// `VibratoError`.
    pub fn from_compressed_dictionary(data: &[u8]) -> (r: Result<JaTokenizer, CJDicError>)
        ensures
            r is Ok <==> vibrato_reads(data@),
            r matches Ok(t) ==> t.dictionary() == data@,
            r matches Err(e) ==> e is VibratoError,
    {
        match JaTokenizer::read_dictionary(data) {
            Ok(t) => Ok(t),
            Err(ReadFailure::Dictionary(m)) => Err(CJDicError::VibratoError(m)),
            Err(ReadFailure::Stream(m)) => Err(CJDicError::IOError(m)),
        }
    }

    /// Splits `text` into tokens, each with its comma-separated features; the surfaces of the
    /// tokens, in order, make up the text. Defined where vibrato's worker tokenizes the text
    /// under this dictionary (on any other text it panics).
    pub fn tokenize(&self, text: String) -> (r: Vec<TokenizeSegment>)
        requires
            self.tokenizes(text@),
        ensures
            segments_view(r@) == tokens_of(self.dictionary(), text@).map_values(
                |p: (Seq<char>, Seq<char>)| (p.0, split_on(p.1, ',')),
            ),
            surfaces_joined(segments_view(r@)) == text@,
    {
        let raw = self.raw_tokens(text.as_str());
        let ghost expected = tokens_of(self.dictionary(), text@).map_values(
            |p: (Seq<char>, Seq<char>)| (p.0, split_on(p.1, ',')),
        );
        let mut out: Vec<TokenizeSegment> = Vec::new();
        let mut i: usize = 0;
        while i < raw.len()
            invariant
                i <= raw@.len(),
                raw@.map_values(|p: (String, String)| (p.0@, p.1@)) == tokens_of(self.dictionary(), text@),
                expected == tokens_of(self.dictionary(), text@).map_values(
                    |p: (Seq<char>, Seq<char>)| (p.0, split_on(p.1, ',')),
                ),
                segments_view(out@) == expected.take(i as int),
            decreases raw@.len() - i,
        {
            let surface = string_from_chars(chars_of(raw[i].0.as_str()).as_slice());
            let details = split_text(raw[i].1.as_str(), ',');
            let seg = TokenizeSegment { surface, details };
            assert(raw@.map_values(|p: (String, String)| (p.0@, p.1@))[i as int] == (raw@[i as int].0@, raw@[i as int].1@));
            out.push(seg);
            assert(expected.take(i as int + 1) == expected.take(i as int).push(expected[i as int]));
            assert(segments_view(out@) =~= expected.take(i as int + 1));
            i += 1;
        }
        assert(expected.take(raw@.len() as int) =~= expected);
        proof {
            lemma_surfaces_joined_split(tokens_of(self.dictionary(), text@));
        }
        out
    }

    /// The text under which `term` is indexed for full-text search, where vibrato's worker
    /// tokenizes the term.
    pub fn search_text(&self, term: &str) -> (r: String)
        requires
            self.tokenizes(term@),
        ensures
            r@ == joined(
                search_words(
                    tokens_of(self.dictionary(), term@).map_values(
                        |p: (Seq<char>, Seq<char>)| (p.0, split_on(p.1, ',')),
                    ),
                ),
                " "@,
            ),
    {
        let owned = string_from_chars(chars_of(term).as_slice());
        let segs = self.tokenize(owned);
        search_index_text(&segs)
    }
}

} // verus!
