//! Normal forms under which terms and readings are stored and searched.
use vstd::prelude::*;

use crate::text::{append_chars, chars_of, string_from_chars};

verus! {

/// Whether `c` has Unicode's Alphabetic property, as `char::is_alphabetic` reports it.
pub uninterp spec fn alphabetic(c: char) -> bool;

/// The characters that `char::to_lowercase` yields for `c`.
pub uninterp spec fn lowercase(c: char) -> Seq<char>;

/// The result of `wana_kana::utils::katakana_to_hiragana` on a text.
pub uninterp spec fn hiragana_of(s: Seq<char>) -> Seq<char>;

pub open spec fn is_ascii_letter(c: char) -> bool {
    ('a' <= c && c <= 'z') || ('A' <= c && c <= 'Z')
}

pub open spec fn is_ascii_upper(c: char) -> bool {
    'A' <= c && c <= 'Z'
}

/// `std`'s `char::is_alphabetic`: Unicode's Alphabetic property. Claimed here: the result
/// is `alphabetic(c)`, and among ASCII characters exactly the letters have the property
/// (the Unicode Character Database that the documentation points to says so).
#[verifier::external_body]
fn char_is_alphabetic(c: char) -> (b: bool)
    ensures
        b == alphabetic(c),
        (c as u32) < 128 ==> (b <==> is_ascii_letter(c)),
{
    c.is_alphabetic()
}

/// `std`'s `char::to_lowercase`, collected. Claimed here: the result is `lowercase(c)`; an
/// ASCII capital maps to the letter 32 code points above it, and any other ASCII character
/// (which has no lowercase mapping) maps to itself, as the documentation says.
#[verifier::external_body]
fn char_to_lowercase(c: char) -> (v: Vec<char>)
    ensures
        v@ == lowercase(c),
        is_ascii_upper(c) ==> v@ == seq![((c as u32) + 32) as char],
        ((c as u32) < 128 && !is_ascii_upper(c)) ==> v@ == seq![c],
{
    c.to_lowercase().collect()
}

/// What one character of a term contributes to its normal form.
pub open spec fn normalized_char(c: char) -> Seq<char> {
    if alphabetic(c) {
        lowercase(c)
    } else {
        seq![]
    }
}

/// A term's normal form: its alphabetic characters, lowercased; everything else dropped.
pub open spec fn normalized_term(s: Seq<char>) -> Seq<char>
    decreases s.len(),
{
    if s.len() == 0 {
        seq![]
    } else {
        normalized_term(s.drop_last()) + normalized_char(s.last())
    }
}

pub open spec fn ascii_text(s: Seq<char>) -> bool {
    forall|i: int| 0 <= i < s.len() ==> (#[trigger] s[i] as u32) < 128
}

/// An ASCII letter in lower case.
pub open spec fn ascii_lower(c: char) -> char {
    if is_ascii_upper(c) {
        ((c as u32) + 32) as char
    } else {
        c
    }
}

/// The normal form of an ASCII term: its letters, in lower case.
pub open spec fn ascii_normalized(s: Seq<char>) -> Seq<char>
    decreases s.len(),
{
    if s.len() == 0 {
        seq![]
    } else {
        ascii_normalized(s.drop_last()) + (if is_ascii_letter(s.last()) {
            seq![ascii_lower(s.last())]
        } else {
            seq![]
        })
    }
}

/// The normal form of a term, under which terms are indexed and searched; for an ASCII term,
/// its letters in lower case.
pub fn normalize_term(s: &str) -> (r: String)
    ensures
        r@ == normalized_term(s@),
        ascii_text(s@) ==> r@ == ascii_normalized(s@),
        forall|k: int| 0 <= k < r@.len() ==> from_lowercased_letter(s@, #[trigger] r@[k]),
{
    proof {
        lemma_normalized_term_from_letters(s@);
    }
    let cs = chars_of(s);
    let mut out: Vec<char> = Vec::new();
    let mut i: usize = 0;
    while i < cs.len()
        invariant
            i <= cs@.len(),
            cs@ == s@,
            out@ == normalized_term(cs@.take(i as int)),
            ascii_text(s@) ==> out@ == ascii_normalized(cs@.take(i as int)),
        decreases cs@.len() - i,
    {
        let c = cs[i];
        assert(ascii_text(s@) ==> (c as u32) < 128) by {
            if ascii_text(s@) {
                assert((cs@[i as int] as u32) < 128);
            }
        }
        if char_is_alphabetic(c) {
            let low = char_to_lowercase(c);
            append_chars(&mut out, low.as_slice());
        }
        assert(cs@.take(i as int + 1).drop_last() == cs@.take(i as int));
        assert(cs@.take(i as int + 1).last() == c);
        i += 1;
    }
    assert(cs@.take(cs@.len() as int) == cs@);
    string_from_chars(out.as_slice())
}

/// Normalising a concatenation normalises each part: the normal form is computed character
/// by character.
pub proof fn lemma_normalized_term_concat(a: Seq<char>, b: Seq<char>)
    ensures
        normalized_term(a + b) == normalized_term(a) + normalized_term(b),
    decreases b.len(),
{
    if b.len() == 0 {
        assert(a + b == a);
        assert(normalized_term(b) == Seq::<char>::empty());
    } else {
        assert((a + b).drop_last() == a + b.drop_last());
        assert((a + b).last() == b.last());
        lemma_normalized_term_concat(a, b.drop_last());
    }
}

/// A term with no alphabetic character normalises to nothing: every other character (marks,
/// digits, punctuation, white space, in any script) is dropped.
pub proof fn lemma_normalized_term_without_letters(s: Seq<char>)
    requires
        forall|i: int| 0 <= i < s.len() ==> !alphabetic(#[trigger] s[i]),
    ensures
        normalized_term(s) == Seq::<char>::empty(),
    decreases s.len(),
{
    if s.len() > 0 {
        assert(!alphabetic(s[s.len() - 1]));
        lemma_normalized_term_without_letters(s.drop_last());
    }
}

/// Whether `ch` is character `j` of the lowercase of character `i` of `s`, an alphabetic one.
pub open spec fn lowercased_letter_of(s: Seq<char>, i: int, j: int, ch: char) -> bool {
    &&& 0 <= i < s.len()
    &&& alphabetic(s[i])
    &&& 0 <= j < lowercase(s[i]).len()
    &&& lowercase(s[i])[j] == ch
}

proof fn lemma_normalized_char_source(s: Seq<char>, k: int) -> (w: (int, int))
    requires
        0 <= k < normalized_term(s).len(),
    ensures
        lowercased_letter_of(s, w.0, w.1, normalized_term(s)[k]),
    decreases s.len(),
{
    let init = s.drop_last();
    let c = s.last();
    let prev = normalized_term(init);
    let n = normalized_term(s);
    assert(n == prev + normalized_char(c));
    if k < prev.len() {
        let (i, j) = lemma_normalized_char_source(init, k);
        assert(n[k] == prev[k]);
        assert(s[i] == init[i]);
        (i, j)
    } else {
        assert(alphabetic(c));
        assert(n[k] == lowercase(c)[k - prev.len()]);
        assert(s[s.len() - 1] == c);
        (s.len() - 1, k - prev.len())
    }
}

/// Whether `ch` is a character of the lowercase of some alphabetic character of `s`.
pub open spec fn from_lowercased_letter(s: Seq<char>, ch: char) -> bool {
    exists|i: int, j: int| #[trigger] lowercased_letter_of(s, i, j, ch)
}

/// Each character of a normal form comes from lowercasing an alphabetic character of the
/// term; so where the lowercase of every alphabetic character is alphabetic, the normal form
/// holds alphabetic characters only.
pub proof fn lemma_normalized_term_from_letters(s: Seq<char>)
    ensures
        forall|k: int|
            0 <= k < normalized_term(s).len() ==> from_lowercased_letter(
                s,
                #[trigger] normalized_term(s)[k],
            ),
        (forall|i: int| 0 <= i < s.len() ==> lowercase_settled(#[trigger] s[i])) ==> forall|k: int|
            0 <= k < normalized_term(s).len() ==> alphabetic(#[trigger] normalized_term(s)[k]),
{
    assert forall|k: int| 0 <= k < normalized_term(s).len() implies from_lowercased_letter(
        s,
        #[trigger] normalized_term(s)[k],
    ) by {
        let w = lemma_normalized_char_source(s, k);
        assert(lowercased_letter_of(s, w.0, w.1, normalized_term(s)[k]));
    }
    if forall|i: int| 0 <= i < s.len() ==> lowercase_settled(#[trigger] s[i]) {
        assert forall|k: int| 0 <= k < normalized_term(s).len() implies alphabetic(
            #[trigger] normalized_term(s)[k],
        ) by {
            let w = lemma_normalized_char_source(s, k);
            assert(lowercase_settled(s[w.0]));
        }
    }
}

proof fn lemma_ascii_normalized_letters(s: Seq<char>)
    ensures
        forall|i: int|
            0 <= i < ascii_normalized(s).len() ==> 'a' <= #[trigger] ascii_normalized(s)[i] <= 'z',
    decreases s.len(),
{
    if s.len() > 0 {
        lemma_ascii_normalized_letters(s.drop_last());
        let prev = ascii_normalized(s.drop_last());
        let c = s.last();
        if is_ascii_letter(c) {
            assert('a' <= ascii_lower(c) <= 'z');
            assert forall|i: int| 0 <= i < ascii_normalized(s).len() implies 'a' <= #[trigger] ascii_normalized(s)[i] <= 'z' by {
                if i < prev.len() {
                    assert(ascii_normalized(s)[i] == prev[i]);
                }
            }
        } else {
            assert(ascii_normalized(s) =~= prev);
        }
    }
}

proof fn lemma_ascii_normalized_of_lower(s: Seq<char>)
    requires
        forall|i: int| 0 <= i < s.len() ==> 'a' <= #[trigger] s[i] <= 'z',
    ensures
        ascii_normalized(s) == s,
    decreases s.len(),
{
    if s.len() > 0 {
        lemma_ascii_normalized_of_lower(s.drop_last());
        assert(s.drop_last().push(s.last()) =~= s);
    } else {
        assert(s =~= Seq::<char>::empty());
    }
}

/// The normal form of an ASCII term is in normal form already: normalising twice is
/// normalising once.
pub proof fn lemma_ascii_normalized_idempotent(s: Seq<char>)
    ensures
        ascii_text(ascii_normalized(s)),
        ascii_normalized(ascii_normalized(s)) == ascii_normalized(s),
{
    lemma_ascii_normalized_letters(s);
    lemma_ascii_normalized_of_lower(ascii_normalized(s));
}

/// Whether the lowercase of `c`, where `c` is alphabetic, is settled: each of its characters
/// is alphabetic and is its own lowercase.
pub open spec fn lowercase_settled(c: char) -> bool {
    alphabetic(c) ==> forall|j: int|
        0 <= j < lowercase(c).len() ==> alphabetic(#[trigger] lowercase(c)[j]) && lowercase(
            lowercase(c)[j],
        ) == seq![lowercase(c)[j]]
}

proof fn lemma_normalized_of_settled(l: Seq<char>)
    requires
        forall|j: int| 0 <= j < l.len() ==> alphabetic(#[trigger] l[j]) && lowercase(l[j]) == seq![l[j]],
    ensures
        normalized_term(l) == l,
    decreases l.len(),
{
    if l.len() > 0 {
        lemma_normalized_of_settled(l.drop_last());
        assert(alphabetic(l[l.len() - 1]));
        assert(l.drop_last().push(l.last()) =~= l);
    } else {
        assert(l =~= Seq::<char>::empty());
    }
}

/// Normalising twice is normalising once, for a term each of whose alphabetic characters
/// lowercases to characters that are alphabetic and their own lowercase (not so, for one,
/// of 'İ', whose lowercase ends in a combining dot that is no letter).
pub proof fn lemma_normalized_term_idempotent(s: Seq<char>)
    requires
        forall|i: int| 0 <= i < s.len() ==> lowercase_settled(#[trigger] s[i]),
    ensures
        normalized_term(normalized_term(s)) == normalized_term(s),
    decreases s.len(),
{
    if s.len() > 0 {
        let c = s.last();
        assert(lowercase_settled(s[s.len() - 1]));
        lemma_normalized_term_idempotent(s.drop_last());
        lemma_normalized_term_concat(normalized_term(s.drop_last()), normalized_char(c));
        if alphabetic(c) {
            lemma_normalized_of_settled(lowercase(c));
        } else {
            assert(normalized_term(normalized_char(c)) == Seq::<char>::empty());
        }
    }
}

/// Whether `c` is one that `katakana_to_hiragana` leaves alone and that ends a run of kana:
/// outside the katakana block U+30A1..=U+30FC and the halfwidth block U+FF61..=U+FF9F.
pub open spec fn passes_through_kana_conversion(c: char) -> bool {
    !(0x30A1 <= (c as u32) && (c as u32) <= 0x30FC) && !(0xFF61 <= (c as u32) && (c as u32)
        <= 0xFF9F)
}

/// The hiragana that `katakana_to_hiragana` gives one katakana character when no prolonged
/// sound mark is involved.
pub open spec fn kana_char_to_hiragana(c: char) -> char {
    let code = c as u32;
    if code < 0x30A1 || code > 0x30FC || code == 0x30FB || code == 0x30FC || code == 0x30F5
        || code == 0x30F6 {
        c
    } else if code == 0x30F7 {
        'わ'
    } else if code == 0x30F8 {
        'ゐ'
    } else if code == 0x30F9 {
        'ゑ'
    } else if code == 0x30FA {
        'を'
    } else {
        (code - 0x60) as char
    }
}

/// Whether `c` is a halfwidth sound mark: the voiced mark U+FF9E or the semi-voiced mark
/// U+FF9F.
pub open spec fn is_halfwidth_sound_mark(c: char) -> bool {
    c as u32 == 0xFF9E || c as u32 == 0xFF9F
}

/// Whether the halfwidth katakana `prev` takes the sound mark `mark` (as in ｶﾞ or ﾊﾟ): the
/// voiced mark after ｳ, ｶ to ﾄ and ﾊ to ﾎ; the semi-voiced mark after ﾊ to ﾎ.
pub open spec fn takes_sound_mark(prev: char, mark: char) -> bool {
    let p = prev as u32;
    if mark as u32 == 0xFF9E {
        p == 0xFF73 || (0xFF76 <= p && p <= 0xFF84) || (0xFF8A <= p && p <= 0xFF8E)
    } else if mark as u32 == 0xFF9F {
        0xFF8A <= p && p <= 0xFF8E
    } else {
        false
    }
}

/// Whether every halfwidth sound mark of `s` follows a halfwidth katakana that takes it.
/// `katakana_to_hiragana` cannot go past a sound mark that does not: its count of consumed
/// characters drops below zero there, which panics (or, unchecked, never ends).
pub open spec fn sound_marks_paired(s: Seq<char>) -> bool {
    forall|i: int|
        0 <= i < s.len() && is_halfwidth_sound_mark(#[trigger] s[i]) ==> i > 0 && takes_sound_mark(
            s[i - 1],
            s[i],
        )
}

/// Whether `s` can be turned into hiragana: every halfwidth sound mark in it follows a
/// halfwidth katakana that takes it.
pub fn convertible_reading(s: &str) -> (b: bool)
    ensures
        b == sound_marks_paired(s@),
{
    let cs = chars_of(s);
    let mut i: usize = 0;
    while i < cs.len()
        invariant
            i <= cs@.len(),
            cs@ == s@,
            forall|j: int|
                0 <= j < i && is_halfwidth_sound_mark(#[trigger] cs@[j]) ==> j > 0
                    && takes_sound_mark(cs@[j - 1], cs@[j]),
        decreases cs@.len() - i,
    {
        let c = cs[i] as u32;
        if c == 0xFF9E || c == 0xFF9F {
            if i == 0 {
                return false;
            }
            let p = cs[i - 1] as u32;
            let takes = if c == 0xFF9E {
                p == 0xFF73 || (0xFF76 <= p && p <= 0xFF84) || (0xFF8A <= p && p <= 0xFF8E)
            } else {
                0xFF8A <= p && p <= 0xFF8E
            };
            if !takes {
                return false;
            }
        }
        i += 1;
    }
    true
}

/// `wana_kana::utils::katakana_to_hiragana`, on a text whose halfwidth sound marks each follow
/// a halfwidth katakana that takes them (on any other it panics). Claimed here: the result is
/// `hiragana_of(s@)`; as its source shows, a text none of whose characters lies in the
/// katakana or halfwidth katakana blocks passes through unchanged, and a text without
/// halfwidth katakana and without the prolonged sound mark U+30FC is converted character by
/// character. What it does with prolonged sound marks and halfwidth katakana is left unsaid.
#[verifier::external_body]
fn katakana_to_hiragana(s: &str) -> (r: String)
    requires
        sound_marks_paired(s@),
    ensures
        r@ == hiragana_of(s@),
        (forall|i: int| 0 <= i < s@.len() ==> passes_through_kana_conversion(#[trigger] s@[i]))
            ==> r@ == s@,
        (forall|i: int|
            0 <= i < s@.len() ==> !(0xFF61 <= (#[trigger] s@[i] as u32) && (s@[i] as u32)
                <= 0xFF9F) && (s@[i] as u32) != 0x30FC) ==> r@ == s@.map_values(
            |c: char| kana_char_to_hiragana(c),
        ),
{
    wana_kana::utils::katakana_to_hiragana(s)
}

/// The normal form of a reading: katakana turned into hiragana. Defined on readings whose
/// halfwidth sound marks each follow a halfwidth katakana that takes them
/// (`convertible_reading` tells).
pub fn normalize_reading(s: &str) -> (r: String)
    requires
        sound_marks_paired(s@),
    ensures
        r@ == hiragana_of(s@),
        (forall|i: int| 0 <= i < s@.len() ==> passes_through_kana_conversion(#[trigger] s@[i]))
            ==> r@ == s@,
        (forall|i: int|
            0 <= i < s@.len() ==> !(0xFF61 <= (#[trigger] s@[i] as u32) && (s@[i] as u32)
                <= 0xFF9F) && (s@[i] as u32) != 0x30FC) ==> r@ == s@.map_values(
            |c: char| kana_char_to_hiragana(c),
        ),
{
    katakana_to_hiragana(s)
}

} // verus!
