use rust_helper::edit::{replace_all, strip_prefix, trim, trim_end, trim_end_matches};
use rust_helper::split::{split_lines, split_words};
use rust_helper::text::{
    begins_with, char_is_space, chars_of, find_first, finishes_with, has_within, same_text,
    string_of,
};

fn cv(s: &str) -> Vec<char> {
    chars_of(s)
}

#[test]
fn replace_all_replaces_left_to_right() {
    let r = replace_all(&cv("aaa"), &cv("aa"), &cv("b"));
    assert_eq!(string_of(&r), "ba");
    assert_eq!(string_of(&r), "aaa".replace("aa", "b"));
}

#[test]
fn trim_cuts_unicode_white_space() {
    let s = "\u{2003} x y\t\n";
    assert_eq!(string_of(&trim(&cv(s))), s.trim());
}

#[test]
fn split_lines_follows_line_endings() {
    for s in ["", "a", "a\n", "a\r\nb", "a\n\nb\r", "\n", "a\rb\n"] {
        let got: Vec<String> = split_lines(&cv(s)).iter().map(string_of).collect();
        let want: Vec<String> = s.lines().map(String::from).collect();
        assert_eq!(got, want);
    }
}

#[test]
fn split_words_skips_runs_of_space() {
    for s in ["", "  ", "rustc 1.82.0 (f6e511eec 2024-10-15)", " a\t b  "] {
        let got: Vec<String> = split_words(&cv(s)).iter().map(string_of).collect();
        let want: Vec<String> = s.split_whitespace().map(String::from).collect();
        assert_eq!(got, want);
    }
}

#[test]
fn white_space_is_what_the_standard_library_takes_for_it() {
    let mut c = '\0';
    loop {
        assert_eq!(char_is_space(c), c.is_whitespace(), "{:?}", c);
        if c == char::MAX {
            break;
        }
        c = char::from_u32(c as u32 + 1)
            .or_else(|| char::from_u32(0xE000))
            .unwrap();
    }
}

#[test]
fn text_functions_agree_with_the_standard_library() {
    let samples = [
        "", " ", "a", "ab", "aba", "abab", "ababab", "\t a b \u{a0}", "x.git.git", ".git",
        "git", "a\u{e9}b\u{1F600}c", "\u{3000}wide\u{2009}",
    ];
    let patterns = ["a", "ab", "ba", "b", ".git", "\u{e9}", "x", " ", ""];
    for s in samples {
        let cs = cv(s);
        assert_eq!(string_of(&trim(&cs)), s.trim());
        assert_eq!(string_of(&trim_end(&cs)), s.trim_end());
        assert!(same_text(s, s));
        for p in patterns {
            let cp = cv(p);
            assert_eq!(has_within(&cs, &cp), s.contains(p), "{:?} in {:?}", p, s);
            assert_eq!(begins_with(&cs, &cp), s.starts_with(p));
            assert_eq!(finishes_with(&cs, &cp), s.ends_with(p));
            assert_eq!(
                find_first(&cs, &cp, 0),
                s.find(p).map(|byte| s[..byte].chars().count())
            );
            assert_eq!(
                strip_prefix(&cs, &cp).map(|r| string_of(&r)),
                s.strip_prefix(p).map(String::from)
            );
            assert_eq!(string_of(&trim_end_matches(&cs, &cp)), s.trim_end_matches(p));
            for to in ["", "z", "ab", "aa"] {
                assert_eq!(
                    string_of(&replace_all(&cs, &cp, &cv(to))),
                    s.replace(p, to),
                    "{:?} -> {:?} in {:?}",
                    p,
                    to,
                    s
                );
            }
            assert_eq!(same_text(s, p), s == p);
        }
    }
}
