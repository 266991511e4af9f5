use self_update::text::chars_of;
use self_update::text::contains;
use self_update::text::ends_with;
use self_update::text::is_text_less;
use self_update::text::matches_at;
use self_update::text::same_str;
use self_update::text::same_text;
use self_update::text::starts_with;
use self_update::time::Timestamp;

fn chars(text: &str) -> Vec<char> {
    text.chars().collect()
}

#[test]
fn characters_come_in_their_order() {
    assert_eq!(chars_of("héllo"), vec!['h', 'é', 'l', 'l', 'o']);
    assert_eq!(chars_of(""), Vec::<char>::new());
}

#[test]
fn a_pattern_is_found_where_it_stands() {
    let text = chars("codex-x86_64-unknown-linux-musl.zst");
    assert!(contains(&text, &chars("linux")));
    assert!(contains(&text, &chars("codex")));
    assert!(contains(&text, &chars(".zst")));
    assert!(contains(&text, &chars("")));
    assert!(contains(&text, &text));
    assert!(!contains(&text, &chars("windows")));
    assert!(!contains(&text, &chars("codex-x86_64-unknown-linux-musl.zstd")));
    assert!(contains(&chars(""), &chars("")));
    assert!(!contains(&chars(""), &chars("a")));
    assert!(matches_at(&text, &chars("x86"), 6));
    assert!(!matches_at(&text, &chars("x86"), 5));
    assert!(!matches_at(&text, &chars("zst"), 33));
    assert!(matches_at(&text, &chars(""), 35));
    assert!(!matches_at(&text, &chars(""), 36));
}

#[test]
fn prefixes_and_suffixes() {
    let text = chars("codex.tar.gz");
    assert!(starts_with(&text, &chars("codex")));
    assert!(starts_with(&text, &chars("")));
    assert!(!starts_with(&text, &chars("odex")));
    assert!(!starts_with(&chars("co"), &chars("codex")));
    assert!(ends_with(&text, &chars(".tar.gz")));
    assert!(ends_with(&text, &chars("")));
    assert!(!ends_with(&text, &chars(".tar")));
    assert!(!ends_with(&chars("gz"), &chars(".tar.gz")));
}

#[test]
fn equal_texts() {
    assert!(same_text(&chars("abc"), &chars("abc")));
    assert!(!same_text(&chars("abc"), &chars("abd")));
    assert!(!same_text(&chars("abc"), &chars("ab")));
    assert!(same_text(&chars(""), &chars("")));
    assert!(same_str("linux", "linux"));
    assert!(!same_str("linux", "Linux"));
    assert!(!same_str("linux", "linux "));
}

#[test]
fn the_lexical_order_is_that_of_strings() {
    let samples = ["", "a", "ab", "abc", "b", "B", "é", "z", "0.10.0", "0.9.0", "日本", "~"];
    for a in samples {
        for b in samples {
            assert_eq!(is_text_less(&chars(a), &chars(b)), a < b, "{a:?} < {b:?}");
        }
    }
}

#[test]
fn going_back_by_days() {
    let now = Timestamp { secs: 1_000_000, nanos: 7 };
    assert_eq!(now.days_earlier(0), now);
    assert_eq!(now.days_earlier(1), Timestamp { secs: 913_600, nanos: 7 });
    assert_eq!(now.days_earlier(20), Timestamp { secs: -728_000, nanos: 7 });
}

#[test]
fn searches_agree_with_those_of_strings() {
    let samples = [
        "", "a", "aa", "aaa", "ab", "ba", "aab", "aba", "abab", "x86_64", "linux", "windows",
        "codex-x86_64-pc-windows-msvc.exe.zip", ".zip", ".exe.zip", "é", "éé", "aé", "-",
    ];
    for text in samples {
        for pattern in samples {
            let (t, p) = (chars(text), chars(pattern));
            assert_eq!(contains(&t, &p), text.contains(pattern), "{text:?} {pattern:?}");
            assert_eq!(starts_with(&t, &p), text.starts_with(pattern), "{text:?} {pattern:?}");
            assert_eq!(ends_with(&t, &p), text.ends_with(pattern), "{text:?} {pattern:?}");
            assert_eq!(same_text(&t, &p), text == pattern, "{text:?} {pattern:?}");
        }
    }
}
