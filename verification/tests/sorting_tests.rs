use rust_helper::casing::chars_less;
use rust_helper::groups::{distinct_texts, group_pairs};
use rust_helper::licenses::sort_unique;
use rust_helper::sorting::sort_stable;
use rust_helper::text::chars_of;
use rust_helper::toolchains::ToolchainGroup;

#[test]
fn strings_sort_as_the_standard_library_sorts_them() {
    let words = ["b", "", "a", "ab", "B", "\u{e9}", "a", "z", "aa", "\u{10000}", "\u{ffff}"];
    let mut mine: Vec<String> = words.iter().map(|s| s.to_string()).collect();
    let mut theirs = mine.clone();
    sort_stable(&mut mine);
    theirs.sort();
    assert_eq!(mine, theirs);
    for a in words {
        for b in words {
            assert_eq!(chars_less(&chars_of(a), &chars_of(b)), a < b);
        }
    }
}

#[test]
fn sorting_is_stable() {
    let group = |v: &str, n: usize| ToolchainGroup {
        version: v.to_string(),
        projects: vec!["p".to_string(); n],
    };
    let mut groups = vec![group("a", 1), group("b", 2), group("c", 1), group("d", 2)];
    sort_stable(&mut groups);
    let order: Vec<&str> = groups.iter().map(|g| g.version.as_str()).collect();
    assert_eq!(order, vec!["b", "d", "a", "c"]);
}

#[test]
fn groups_keep_the_order_of_first_occurrence() {
    let pair = |k: &str, v: &str| (k.to_string(), v.to_string());
    let groups = group_pairs(&vec![
        pair("x", "1"),
        pair("y", "2"),
        pair("x", "3"),
        pair("x", "1"),
    ]);
    assert_eq!(groups.len(), 2);
    assert_eq!(groups[0].key, "x");
    assert_eq!(groups[0].members, vec!["1", "3", "1"]);
    assert_eq!(groups[1].members, vec!["2"]);
    let list: Vec<String> = ["b", "a", "b", "c", "a"].iter().map(|s| s.to_string()).collect();
    assert_eq!(distinct_texts(&list), vec!["b", "a", "c"]);
    assert_eq!(sort_unique(&list), vec!["a", "b", "c"]);
}
