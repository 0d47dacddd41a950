//! The order of texts (`str`'s `Ord`: code point by code point, a prefix first) and sorting
//! by it.
use vstd::prelude::*;

verus! {

/// `a` sorts strictly before `b`.
pub open spec fn text_lt(a: Seq<char>, b: Seq<char>) -> bool
    decreases a.len(),
{
    if a.len() == 0 {
        b.len() > 0
    } else if b.len() == 0 {
        false
    } else if a[0] != b[0] {
        a[0] < b[0]
    } else {
        text_lt(a.drop_first(), b.drop_first())
    }
}

/// Texts are ordered by their first differing character, whatever their lengths: a text whose
/// first character is smaller sorts first.
pub proof fn lemma_text_lt_first_char(c1: char, x: Seq<char>, c2: char, y: Seq<char>)
    requires
        c1 < c2,
    ensures
        text_lt(seq![c1] + x, seq![c2] + y),
        !text_lt(seq![c2] + y, seq![c1] + x),
{
    let a = seq![c1] + x;
    let b = seq![c2] + y;
    assert(a[0] == c1 && b[0] == c2);
}

/// Texts that begin alike are ordered by what follows.
pub proof fn lemma_text_lt_same_first_char(c: char, x: Seq<char>, y: Seq<char>)
    ensures
        text_lt(seq![c] + x, seq![c] + y) == text_lt(x, y),
{
    let a = seq![c] + x;
    let b = seq![c] + y;
    assert(a[0] == c && b[0] == c);
    assert(a.drop_first() =~= x);
    assert(b.drop_first() =~= y);
}

/// A proper prefix sorts before the texts it begins, and never after.
pub proof fn lemma_text_lt_prefix(a: Seq<char>, b: Seq<char>)
    requires
        b.len() > 0,
    ensures
        text_lt(a, a + b),
        !text_lt(a + b, a),
    decreases a.len(),
{
    if a.len() > 0 {
        lemma_text_lt_prefix(a.drop_first(), b);
        assert((a + b).drop_first() =~= a.drop_first() + b);
        assert((a + b)[0] == a[0]);
    }
}

/// `a` sorts before `b` or equals it.
pub open spec fn text_le(a: Seq<char>, b: Seq<char>) -> bool {
    a == b || text_lt(a, b)
}

pub proof fn lemma_text_lt_irreflexive(a: Seq<char>)
    ensures
        !text_lt(a, a),
    decreases a.len(),
{
    if a.len() > 0 {
        lemma_text_lt_irreflexive(a.drop_first());
    }
}

pub proof fn lemma_text_lt_transitive(a: Seq<char>, b: Seq<char>, c: Seq<char>)
    requires
        text_lt(a, b),
        text_lt(b, c),
    ensures
        text_lt(a, c),
    decreases a.len(),
{
    if a.len() > 0 && b.len() > 0 && c.len() > 0 {
        if a[0] == b[0] && b[0] == c[0] {
            lemma_text_lt_transitive(a.drop_first(), b.drop_first(), c.drop_first());
        }
    }
}

pub proof fn lemma_text_lt_total(a: Seq<char>, b: Seq<char>)
    ensures
        a == b || text_lt(a, b) || text_lt(b, a),
    decreases a.len(),
{
    if a.len() > 0 && b.len() > 0 {
        if a[0] == b[0] {
            lemma_text_lt_total(a.drop_first(), b.drop_first());
            if a.drop_first() == b.drop_first() {
                assert(a =~= seq![a[0]] + a.drop_first());
                assert(b =~= seq![b[0]] + b.drop_first());
            }
        }
    } else if a.len() == 0 && b.len() == 0 {
        assert(a =~= b);
    }
}

pub proof fn lemma_text_lt_asymmetric(a: Seq<char>, b: Seq<char>)
    requires
        text_lt(a, b),
    ensures
        !text_lt(b, a),
{
    if text_lt(b, a) {
        lemma_text_lt_transitive(a, b, a);
        lemma_text_lt_irreflexive(a);
    }
}

pub proof fn lemma_text_le_transitive(a: Seq<char>, b: Seq<char>, c: Seq<char>)
    requires
        text_le(a, b),
        text_le(b, c),
    ensures
        text_le(a, c),
{
    if a != b && b != c {
        lemma_text_lt_transitive(a, b, c);
    }
}

/// Whether `a` sorts strictly before `b`.
pub fn text_less(a: &[char], b: &[char]) -> (r: bool)
    ensures
        r == text_lt(a@, b@),
        (a@.len() > 0 && b@.len() > 0 && a@[0] < b@[0]) ==> r,
        (a@.len() < b@.len() && a@ == b@.take(a@.len() as int)) ==> r,
{
    proof {
        if a@.len() > 0 && b@.len() > 0 && a@[0] < b@[0] {
            assert(a@ =~= seq![a@[0]] + a@.drop_first());
            assert(b@ =~= seq![b@[0]] + b@.drop_first());
            lemma_text_lt_first_char(a@[0], a@.drop_first(), b@[0], b@.drop_first());
        }
        if a@.len() < b@.len() && a@ == b@.take(a@.len() as int) {
            assert(b@ =~= a@ + b@.skip(a@.len() as int));
            lemma_text_lt_prefix(a@, b@.skip(a@.len() as int));
        }
    }
    let mut i: usize = 0;
    assert(a@.skip(0) == a@);
    assert(b@.skip(0) == b@);
    while i < a.len() && i < b.len() && a[i] == b[i]
        invariant
            i <= a@.len(),
            i <= b@.len(),
            text_lt(a@, b@) == text_lt(a@.skip(i as int), b@.skip(i as int)),
        decreases a@.len() - i,
    {
        assert(a@.skip(i as int).drop_first() == a@.skip(i as int + 1));
        assert(b@.skip(i as int).drop_first() == b@.skip(i as int + 1));
        i += 1;
    }
    if i == a.len() {
        i < b.len()
    } else if i == b.len() {
        false
    } else {
        a[i] < b[i]
    }
}

/// `items` are sorted by `key_of`.
pub open spec fn sorted_by(items: Seq<Seq<char>>, key_of: spec_fn(Seq<char>) -> Seq<char>) -> bool {
    forall|i: int, j: int|
        0 <= i < j < items.len() ==> text_le(key_of(#[trigger] items[i]), key_of(#[trigger] items[j]))
}

pub open spec fn views(v: Seq<Vec<char>>) -> Seq<Seq<char>> {
    v.map_values(|x: Vec<char>| x@)
}

/// Sorts texts by their keys; `keys[i]` is the key of `items[i]`.
pub fn sort_by_keys(
    items: Vec<Vec<char>>,
    keys: Vec<Vec<char>>,
    Ghost(key_of): Ghost<spec_fn(Seq<char>) -> Seq<char>>,
) -> (r: Vec<Vec<char>>)
    requires
        items.len() == keys.len(),
        forall|i: int| 0 <= i < items.len() ==> (#[trigger] keys@[i])@ == key_of(items@[i]@),
    ensures
        r.len() == items.len(),
        views(r@).to_multiset() == views(items@).to_multiset(),
        sorted_by(views(r@), key_of),
{
    let mut out: Vec<Vec<char>> = Vec::new();
    let mut out_keys: Vec<Vec<char>> = Vec::new();
    let mut n: usize = 0;
    assert(views(out@) =~= views(items@.take(0)));
    while n < items.len()
        invariant
            n <= items@.len(),
            items.len() == keys.len(),
            forall|i: int| 0 <= i < items.len() ==> (#[trigger] keys@[i])@ == key_of(items@[i]@),
            out.len() == n,
            out_keys.len() == n,
            forall|i: int| 0 <= i < n ==> (#[trigger] out_keys@[i])@ == key_of(out@[i]@),
            views(out@).to_multiset() == views(items@.take(n as int)).to_multiset(),
            sorted_by(views(out@), key_of),
        decreases items@.len() - n,
    {
        let item = items[n].clone();
        let key = keys[n].clone();
        assert(item@ == items@[n as int]@);
        assert(key@ == key_of(item@));
        let mut pos: usize = out.len();
        while pos > 0 && text_less(key.as_slice(), out_keys[pos - 1].as_slice())
            invariant
                pos <= out.len(),
                out.len() == out_keys.len(),
                forall|i: int| 0 <= i < out.len() ==> (#[trigger] out_keys@[i])@ == key_of(out@[i]@),
                key@ == key_of(item@),
                forall|i: int| pos <= i < out.len() ==> text_lt(key@, key_of(#[trigger] views(out@)[i])),
            decreases pos,
        {
            pos -= 1;
        }
        proof {
            if pos > 0 {
                lemma_text_lt_total(key@, key_of(views(out@)[pos - 1]));
            }
        }
        let ghost old_out = out@;
        let ghost old_views = views(out@);
        out.insert(pos, item);
        out_keys.insert(pos, key);
        proof {
            let v = views(out@);
            assert(v =~= old_views.insert(pos as int, item@));
            assert forall|i: int, j: int| 0 <= i < j < v.len() implies text_le(
                key_of(#[trigger] v[i]),
                key_of(#[trigger] v[j]),
            ) by {
                if i < pos && j < pos {
                    assert(v[i] == old_views[i] && v[j] == old_views[j]);
                } else if i < pos && j == pos {
                    assert(v[i] == old_views[i]);
                    if i < pos - 1 {
                        lemma_text_le_transitive(key_of(old_views[i]), key_of(old_views[pos - 1]), key@);
                    }
                } else if i < pos {
                    assert(v[i] == old_views[i] && v[j] == old_views[j - 1]);
                } else if i == pos {
                    assert(v[j] == old_views[j - 1]);
                } else {
                    assert(v[i] == old_views[i - 1] && v[j] == old_views[j - 1]);
                }
            }
            assert(items@.take(n as int + 1) == items@.take(n as int).push(items@[n as int]));
            assert(views(items@.take(n as int + 1)) == views(items@.take(n as int)).push(item@));
            vstd::seq_lib::to_multiset_insert(old_views, pos as int, item@);
            vstd::seq_lib::to_multiset_build(views(items@.take(n as int)), item@);
        }
        n += 1;
    }
    assert(items@.take(items@.len() as int) == items@);
    out
}

} // verus!
