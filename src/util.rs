//! Small helpers around the compressor: a path's file name, and joining a set
//! of strings.

use std::collections::{BTreeSet, HashMap};
use vstd::prelude::*;
use vstd::std_specs::hash::obeys_key_model;

verus! {

/// The file name that `std::path::Path` finds in `path`: its last normal
/// component, if there is one.
pub uninterp spec fn path_file_name_of(path: Seq<char>) -> Option<Seq<char>>;

/// Relies on `std::path::Path::file_name`, the name read back as text
/// (lossless here, since the path came from a `str`).
#[verifier::external_body]
fn path_file_name(path: &str) -> (r: Option<String>)
    ensures
        r is None <==> path_file_name_of(path@) is None,
        r matches Some(name) ==> path_file_name_of(path@) == Some(name@),
{
    std::path::Path::new(path).file_name().map(|name| name.to_string_lossy().into_owned())
}

/// The file name of `path`, or `None` where the path has none (it is empty,
/// a root, or ends in `..`).
pub fn try_fname_from_path(path: &str) -> (r: Option<String>)
    ensures
        r is None <==> path_file_name_of(path@) is None,
        r matches Some(name) ==> path_file_name_of(path@) == Some(name@),
{
    if path_file_name(path).is_some() {
        Some(fname_from_path(path))
    } else {
        None
    }
}

/// The file name of `path`. The last component is returned even where it
/// looks like a directory: "/some/dir/" gives "dir".
pub fn fname_from_path(path: &str) -> (r: String)
    requires
        path_file_name_of(path@) is Some,
    ensures
        path_file_name_of(path@) == Some(r@),
{
    path_file_name(path).unwrap()
}

/// The texts of a sequence of strings.
pub open spec fn texts(items: Seq<String>) -> Seq<Seq<char>> {
    items.map_values(|s: String| s@)
}

/// `items` joined, with `sep` between each two neighbours.
pub open spec fn join_spec(items: Seq<Seq<char>>, sep: Seq<char>) -> Seq<char>
    decreases items.len(),
{
    if items.len() == 0 {
        Seq::empty()
    } else if items.len() == 1 {
        items[0]
    } else {
        join_spec(items.drop_last(), sep) + sep + items.last()
    }
}

/// Joins `items` in order, with `sep` between each two neighbours.
pub fn join_strs(items: &[String], sep: &str) -> (r: String)
    ensures
        r@ == join_spec(texts(items@), sep@),
{
    let mut r = String::new();
    let mut i: usize = 0;
    while i < items.len()
        invariant
            0 <= i <= items@.len(),
            r@ == join_spec(texts(items@.take(i as int)), sep@),
        decreases items@.len() - i,
    {
        let ghost before = items@.take(i as int);
        if i > 0 {
            r.append(sep);
        }
        r.append(items[i].as_str());
        proof {
            let after = items@.take(i + 1);
            assert(texts(after).drop_last() =~= texts(before));
            assert(texts(after).last() == items@[i as int]@);
            if i == 0 {
                assert(r@ =~= join_spec(texts(after), sep@));
            }
        }
        i = i + 1;
    }
    assert(items@.take(items@.len() as int) =~= items@);
    r
}

/// `v` lists each element of `s` exactly once.
pub open spec fn is_listing(v: Seq<String>, s: Set<String>) -> bool {
    &&& v.len() == s.len()
    &&& v.no_duplicates()
    &&& forall|i: int| 0 <= i < v.len() ==> s.contains(#[trigger] v[i])
}

/// `a` comes before `b` in the order of `String`: lexicographic by character
/// (for UTF-8 text the same order as by bytes).
pub open spec fn text_lt(a: Seq<char>, b: Seq<char>) -> bool
    decreases a.len(),
{
    if a.len() == 0 {
        b.len() > 0
    } else if b.len() == 0 {
        false
    } else if a[0] != b[0] {
        (a[0] as u32) < (b[0] as u32)
    } else {
        text_lt(a.drop_first(), b.drop_first())
    }
}

/// `v` is in strictly ascending order.
pub open spec fn is_ascending(v: Seq<String>) -> bool {
    forall|i: int, j: int| 0 <= i < j < v.len() ==> text_lt(#[trigger] v[i]@, #[trigger] v[j]@)
}

/// Relies on `BTreeSet::iter`: it visits each element once, in ascending
/// order (`String` orders lexicographically); the elements are cloned into a
/// vector.
#[verifier::external_body]
fn set_items(set: &BTreeSet<String>) -> (r: Vec<String>)
    ensures
        is_listing(r@, set@),
        is_ascending(r@),
{
    set.iter().cloned().collect()
}

/// Joining the items of a collection into one string.
pub trait MyJoin {
    /// Whether `r` is the items joined by `sep`, in the collection's order.
    spec fn joins_to(&self, sep: Seq<char>, r: Seq<char>) -> bool;

    fn join(&self, sep: &str) -> (r: String)
        ensures
            self.joins_to(sep@, r@),
    ;
}

impl MyJoin for BTreeSet<String> {
    open spec fn joins_to(&self, sep: Seq<char>, r: Seq<char>) -> bool {
        exists|v: Seq<String>|
            is_listing(v, self@) && is_ascending(v) && r == join_spec(texts(v), sep)
    }

    /// The set's items, in ascending order, joined by `sep`.
    fn join(&self, sep: &str) -> (r: String) {
        let items = set_items(self);
        let r = join_strs(items.as_slice(), sep);
        assert(is_listing(items@, self@) && is_ascending(items@) && r@ == join_spec(
            texts(items@),
            sep@,
        ));
        r
    }
}

/// The map that inserting `pairs` one after another into an empty map gives:
/// a later pair replaces an earlier one with the same key.
pub open spec fn map_of_pairs<K, V>(pairs: Seq<(K, V)>) -> Map<K, V>
    decreases pairs.len(),
{
    if pairs.len() == 0 {
        Map::empty()
    } else {
        map_of_pairs(pairs.drop_last()).insert(pairs.last().0, pairs.last().1)
    }
}

/// A hash map built from one or more key/value pairs in a single call.
pub fn hash_map_of<K: std::hash::Hash + Eq, V>(pairs: Vec<(K, V)>) -> (r: HashMap<K, V>)
    ensures
        obeys_key_model::<K>() ==> r@ == map_of_pairs(pairs@),
{
    broadcast use vstd::std_specs::hash::group_hash_axioms;

    let ghost all = pairs@;
    let n: usize = pairs.len();
    let mut rest = pairs;
    let mut m: HashMap<K, V> = HashMap::new();
    let mut i: usize = 0;
    while rest.len() > 0
        invariant
            0 <= i <= all.len(),
            all.len() == n,
            rest@ == all.skip(i as int),
            obeys_key_model::<K>() ==> m@ == map_of_pairs(all.take(i as int)),
        decreases rest@.len(),
    {
        let (k, v) = rest.remove(0);
        m.insert(k, v);
        proof {
            assert(all.take(i + 1).drop_last() =~= all.take(i as int));
            assert(all.skip(i + 1) =~= all.skip(i as int).remove(0));
        }
        i = i + 1;
    }
    assert(all.take(i as int) =~= all);
    m
}

} // verus!
