//! Bringing the installed dictionaries in line with a directory of dictionary archives.
use vstd::prelude::*;

use crate::order::{sort_by_keys, sorted_by, views};
use crate::text::{
    chars_equal, chars_of, copy_chars, find_char, find_char_index, lemma_find_char, skip_chars, string_from_chars,
    trim_start_chars, trimmed_start,
};

verus! {

/// What a directory of dictionary archives asks for: the archives to import, in import order,
/// and the installed bundles to remove, in name order.
pub struct LoadYomitanZipDirResult {
    pub new_dicts: Vec<String>,
    pub to_be_removed_dicts: Vec<String>,
}

pub open spec fn string_views(v: Seq<String>) -> Seq<Seq<char>> {
    v.map_values(|s: String| s@)
}

/// The key by which archives are imported: a leading `[...]` tag, and the white space after
/// it, do not count.
pub open spec fn import_key(name: Seq<char>) -> Seq<char> {
    if name.len() > 0 && name[0] == '[' && find_char(name, ']') is Some {
        trimmed_start(name.skip(find_char(name, ']')->0 + 1))
    } else {
        name
    }
}

/// The import key drops only the leading tag: everything up to the first `]` of a name that
/// begins with `[`, and the white space after it. A name that does not begin with `[`, or has
/// no `]`, is its own key.
pub proof fn lemma_import_key_drops_leading_tag(tag: Seq<char>, rest: Seq<char>)
    requires
        forall|i: int| 0 <= i < tag.len() ==> tag[i] != ']',
    ensures
        import_key(seq!['['] + tag + seq![']'] + rest) == trimmed_start(rest),
{
    let name = seq!['['] + tag + seq![']'] + rest;
    let p: int = tag.len() as int + 1;
    assert forall|j: int| 0 <= j < p implies name[j] != ']' by {
        if j > 0 {
            assert(name[j] == tag[j - 1]);
        }
    }
    assert(name[p] == ']');
    lemma_find_char(name, ']', p);
    assert(name.skip(p + 1) =~= rest);
}

/// A name that does not begin with `[`, or that has no `]`, is its own import key.
pub proof fn lemma_import_key_untagged(name: Seq<char>)
    requires
        name.len() == 0 || name[0] != '[' || (forall|i: int| 0 <= i < name.len() ==> name[i] != ']'),
    ensures
        import_key(name) == name,
{
    if name.len() > 0 && name[0] == '[' {
        lemma_find_char(name, ']', name.len() as int);
    }
}

/// The order of removal: a bundle's own name.
pub open spec fn own_name(name: Seq<char>) -> Seq<char> {
    name
}

/// The bundles in the directory that are not installed.
pub open spec fn dicts_to_add(dir: Seq<Seq<char>>, installed: Seq<Seq<char>>) -> Set<Seq<char>> {
    dir.to_set().difference(installed.to_set())
}

/// The installed bundles that are not in the directory.
pub open spec fn dicts_to_remove(dir: Seq<Seq<char>>, installed: Seq<Seq<char>>) -> Set<
    Seq<char>,
> {
    installed.to_set().difference(dir.to_set())
}

/// The key by which an archive named `name` is imported.
pub fn import_key_of(name: &[char]) -> (r: Vec<char>)
    ensures
        r@ == import_key(name@),
{
    if name.len() > 0 && name[0] == '[' {
        match find_char_index(name, ']') {
            Some(end) => {
                let rest = skip_chars(name, end + 1);
                return trim_start_chars(rest.as_slice());
            },
            None => {},
        }
    }
    let mut r: Vec<char> = Vec::new();
    let mut i: usize = 0;
    while i < name.len()
        invariant
            i <= name@.len(),
            r@ == name@.take(i as int),
        decreases name@.len() - i,
    {
        r.push(name[i]);
        assert(name@.take(i as int + 1) == name@.take(i as int).push(name@[i as int]));
        i += 1;
    }
    assert(name@.take(name@.len() as int) == name@);
    r
}

fn contains_text(list: &Vec<Vec<char>>, x: &[char]) -> (r: bool)
    ensures
        r == views(list@).contains(x@),
{
    let mut i: usize = 0;
    while i < list.len()
        invariant
            i <= list@.len(),
            forall|j: int| 0 <= j < i ==> views(list@)[j] != x@,
        decreases list@.len() - i,
    {
        if chars_equal(list[i].as_slice(), x) {
            assert(views(list@)[i as int] == x@);
            return true;
        }
        i += 1;
    }
    false
}

fn texts_of(v: &Vec<String>) -> (r: Vec<Vec<char>>)
    ensures
        views(r@) == string_views(v@),
{
    let mut r: Vec<Vec<char>> = Vec::new();
    let mut i: usize = 0;
    while i < v.len()
        invariant
            i <= v@.len(),
            views(r@) == string_views(v@).take(i as int),
        decreases v@.len() - i,
    {
        r.push(chars_of(v[i].as_str()));
        assert(string_views(v@).take(i as int + 1) == string_views(v@).take(i as int).push(
            v@[i as int]@,
        ));
        assert(views(r@) =~= string_views(v@).take(i as int + 1));
        i += 1;
    }
    assert(string_views(v@).take(v@.len() as int) == string_views(v@));
    r
}

fn strings_of(v: &Vec<Vec<char>>) -> (r: Vec<String>)
    ensures
        string_views(r@) == views(v@),
{
    let mut r: Vec<String> = Vec::new();
    let mut i: usize = 0;
    while i < v.len()
        invariant
            i <= v@.len(),
            string_views(r@) == views(v@).take(i as int),
        decreases v@.len() - i,
    {
        r.push(string_from_chars(v[i].as_slice()));
        assert(views(v@).take(i as int + 1) == views(v@).take(i as int).push(v@[i as int]@));
        assert(string_views(r@) =~= views(v@).take(i as int + 1));
        i += 1;
    }
    assert(views(v@).take(v@.len() as int) == views(v@));
    r
}

/// The texts of `from` that are not in `other`, each once, in order of first appearance.
fn distinct_missing(from: &Vec<Vec<char>>, other: &Vec<Vec<char>>) -> (r: Vec<Vec<char>>)
    ensures
        views(r@).to_set() == views(from@).to_set().difference(views(other@).to_set()),
        views(r@).no_duplicates(),
{
    let mut r: Vec<Vec<char>> = Vec::new();
    let mut i: usize = 0;
    while i < from.len()
        invariant
            i <= from@.len(),
            views(r@).to_set() == views(from@).take(i as int).to_set().difference(
                views(other@).to_set(),
            ),
            views(r@).no_duplicates(),
        decreases from@.len() - i,
    {
        let x = &from[i];
        let ghost before = views(r@);
        assert(views(from@).take(i as int + 1) == views(from@).take(i as int).push(x@));
        proof {
            views(from@).take(i as int).lemma_push_to_set_commute(x@);
        }
        if !contains_text(other, x.as_slice()) && !contains_text(&r, x.as_slice()) {
            r.push(copy_chars(x.as_slice()));
            assert(views(r@) =~= before.push(x@));
            proof {
                before.lemma_push_to_set_commute(x@);
                assert forall|a: int, b: int|
                    0 <= a < b < views(r@).len() implies views(r@)[a] != views(r@)[b] by {
                    if b == views(r@).len() - 1 {
                        assert(views(r@)[a] == before[a]);
                    }
                }
            }
        }
        proof {
            assert(views(r@).to_set() =~= views(from@).take(i as int + 1).to_set().difference(
                views(other@).to_set(),
            ));
        }
        i += 1;
    }
    assert(views(from@).take(from@.len() as int) == views(from@));
    r
}

proof fn lemma_same_multiset(a: Seq<Seq<char>>, b: Seq<Seq<char>>)
    requires
        a.to_multiset() == b.to_multiset(),
        a.no_duplicates(),
    ensures
        a.to_set() == b.to_set(),
        b.no_duplicates(),
{
    broadcast use vstd::seq_lib::group_seq_properties;

    a.lemma_multiset_has_no_duplicates();
    b.lemma_multiset_has_no_duplicates_conv();
    a.to_multiset_ensures();
    b.to_multiset_ensures();
    assert forall|x: Seq<char>| a.contains(x) <==> b.contains(x) by {
        assert(a.contains(x) <==> a.to_multiset().count(x) > 0);
        assert(b.contains(x) <==> b.to_multiset().count(x) > 0);
    }
    assert(a.to_set() =~= b.to_set());
}

/// Compares the archives in a directory (by file name; of two archives of one name the later
/// one counts) with the bundles installed for a language: the archives not yet installed are
/// to be imported, ordered by their names without a leading `[...]` tag; the installed
/// bundles without an archive are to be removed, ordered by name.
pub fn plan_dictionary_sync(dir_names: &Vec<String>, installed: &Vec<String>) -> (r:
    LoadYomitanZipDirResult)
    ensures
        string_views(r.new_dicts@).to_set() == dicts_to_add(
            string_views(dir_names@),
            string_views(installed@),
        ),
        string_views(r.new_dicts@).no_duplicates(),
        sorted_by(string_views(r.new_dicts@), |s: Seq<char>| import_key(s)),
        string_views(r.to_be_removed_dicts@).to_set() == dicts_to_remove(
            string_views(dir_names@),
            string_views(installed@),
        ),
        string_views(r.to_be_removed_dicts@).no_duplicates(),
        sorted_by(string_views(r.to_be_removed_dicts@), |s: Seq<char>| own_name(s)),
{
    let dir = texts_of(dir_names);
    let inst = texts_of(installed);

    let added = distinct_missing(&dir, &inst);
    let mut add_keys: Vec<Vec<char>> = Vec::new();
    let mut i: usize = 0;
    while i < added.len()
        invariant
            i <= added@.len(),
            add_keys@.len() == i,
            forall|j: int| 0 <= j < i ==> (#[trigger] add_keys@[j])@ == import_key(added@[j]@),
        decreases added@.len() - i,
    {
        add_keys.push(import_key_of(added[i].as_slice()));
        i += 1;
    }
    let ghost added_v = views(added@);
    let added_sorted = sort_by_keys(added, add_keys, Ghost(|s: Seq<char>| import_key(s)));
    proof {
        lemma_same_multiset(added_v, views(added_sorted@));
    }

    let removed = distinct_missing(&inst, &dir);
    let mut rem_keys: Vec<Vec<char>> = Vec::new();
    let mut k: usize = 0;
    while k < removed.len()
        invariant
            k <= removed@.len(),
            rem_keys@.len() == k,
            forall|j: int| 0 <= j < k ==> (#[trigger] rem_keys@[j])@ == own_name(removed@[j]@),
        decreases removed@.len() - k,
    {
        rem_keys.push(copy_chars(removed[k].as_slice()));
        k += 1;
    }
    let ghost removed_v = views(removed@);
    let removed_sorted = sort_by_keys(removed, rem_keys, Ghost(|s: Seq<char>| own_name(s)));
    proof {
        lemma_same_multiset(removed_v, views(removed_sorted@));
    }

    LoadYomitanZipDirResult {
        new_dicts: strings_of(&added_sorted),
        to_be_removed_dicts: strings_of(&removed_sorted),
    }
}

/// Which of the archives of a directory a bundle is imported from: of those whose file name
/// is `name`, the last.
pub fn archive_index_for(dir_names: &Vec<String>, name: &str) -> (r: Option<usize>)
    ensures
        r matches Some(i) ==> i < dir_names@.len() && dir_names@[i as int]@ == name@ && forall|
            j: int,
        | i < j < dir_names@.len() ==> dir_names@[j]@ != name@,
        r is None ==> forall|j: int| 0 <= j < dir_names@.len() ==> dir_names@[j]@ != name@,
{
    let target = chars_of(name);
    let mut n: usize = dir_names.len();
    while n > 0
        invariant
            n <= dir_names@.len(),
            target@ == name@,
            forall|j: int| n <= j < dir_names@.len() ==> dir_names@[j]@ != name@,
        decreases n,
    {
        let candidate = chars_of(dir_names[n - 1].as_str());
        if chars_equal(candidate.as_slice(), target.as_slice()) {
            return Some(n - 1);
        }
        n -= 1;
    }
    None
}

/// After the sync, what is installed is what the directory holds: removing the bundles to
/// remove and adding the bundles to add turns the installed set into the directory's set,
/// and no bundle is both added and removed.
pub proof fn lemma_sync_matches_directory(dir: Seq<Seq<char>>, installed: Seq<Seq<char>>)
    ensures
        installed.to_set().difference(dicts_to_remove(dir, installed)).union(
            dicts_to_add(dir, installed),
        ) == dir.to_set(),
        dicts_to_add(dir, installed).disjoint(dicts_to_remove(dir, installed)),
{
    assert(installed.to_set().difference(dicts_to_remove(dir, installed)).union(
        dicts_to_add(dir, installed),
    ) =~= dir.to_set());
}

/// Every bundle to add has an archive in the directory to be imported from.
pub proof fn lemma_added_dicts_have_archives(dir: Seq<Seq<char>>, installed: Seq<Seq<char>>)
    ensures
        forall|n: Seq<char>| #[trigger] dicts_to_add(dir, installed).contains(n) ==> dir.contains(n),
{
}

/// A second sync right after the first has nothing to do: once what is installed is what
/// the directory holds, nothing is added and nothing removed.
pub proof fn lemma_sync_settles(dir: Seq<Seq<char>>, installed: Seq<Seq<char>>)
    requires
        installed.to_set() == dir.to_set(),
    ensures
        dicts_to_add(dir, installed) == Set::<Seq<char>>::empty(),
        dicts_to_remove(dir, installed) == Set::<Seq<char>>::empty(),
{
    assert(dicts_to_add(dir, installed) =~= Set::<Seq<char>>::empty());
    assert(dicts_to_remove(dir, installed) =~= Set::<Seq<char>>::empty());
}

} // verus!
