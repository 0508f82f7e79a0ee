use std::collections::BTreeSet;

use deb_compress::util::{hash_map_of, join_strs, try_fname_from_path};
use deb_compress::{fname_from_path, MyJoin};

#[test]
fn fname_from_path_returns_file_name_even_if_file_does_not_exist() {
    assert_eq!("some_name", fname_from_path("some_name"));
    assert_eq!("some_name", fname_from_path("/some_name"));
    assert_eq!("some_name", fname_from_path("/a/b/some_name"));
}

#[test]
fn fname_from_path_returns_file_name_even_if_it_looks_like_a_directory() {
    assert_eq!("some_name", fname_from_path("some_name/"));
}

#[test]
#[should_panic]
fn fname_from_path_panics_when_path_is_empty() {
    assert_eq!("", fname_from_path(""));
}

#[test]
#[should_panic]
fn fname_from_path_panics_when_path_has_no_filename() {
    assert_eq!("", fname_from_path("/a/"));
}

#[test]
fn try_fname_from_path_reports_missing_names() {
    assert_eq!(try_fname_from_path(""), None);
    assert_eq!(try_fname_from_path("/"), None);
    assert_eq!(try_fname_from_path("/a/.."), None);
    assert_eq!(try_fname_from_path("/a/b.deb"), Some("b.deb".to_string()));
}

#[test]
fn btreeset_join() {
    let empty: BTreeSet<String> = vec![].into_iter().collect();
    assert_eq!("", empty.join(""));
    assert_eq!("", empty.join(","));

    let one: BTreeSet<String> = vec!["a"].into_iter().map(|s| s.to_owned()).collect();
    assert_eq!("a", one.join(""));
    assert_eq!("a", one.join(","));

    let two: BTreeSet<String> = vec!["a", "b"].into_iter().map(|s| s.to_owned()).collect();
    assert_eq!("ab", two.join(""));
    assert_eq!("a,b", two.join(","));
}

#[test]
fn join_strs_keeps_order() {
    let items = vec!["b".to_string(), "a".to_string(), "c".to_string()];
    assert_eq!(join_strs(&items, ", "), "b, a, c");
    assert_eq!(join_strs(&[], "-"), "");
}

#[test]
fn map_macro() {
    let mut one = std::collections::HashMap::new();
    one.insert(1, 'a');
    assert_eq!(one, hash_map_of(vec![(1, 'a')]));

    let mut two = std::collections::HashMap::new();
    two.insert("a", 1);
    two.insert("b", 2);
    assert_eq!(two, hash_map_of(vec![("a", 1), ("b", 2)]));
}

#[test]
fn hash_map_of_later_pair_wins() {
    let m = hash_map_of(vec![("k", 1), ("j", 2), ("k", 3)]);
    assert_eq!(m.len(), 2);
    assert_eq!(m["k"], 3);
    assert_eq!(m["j"], 2);
}

#[test]
fn join_follows_ascending_order() {
    let set: BTreeSet<String> = vec!["pear", "apple", "fig", "Zebra"].into_iter().map(|s| s.to_owned()).collect();
    assert_eq!(set.join(" "), "Zebra apple fig pear");
}
