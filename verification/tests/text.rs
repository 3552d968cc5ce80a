use son_of_anton::text::{push_decimal, replace_all_str, str_contains, str_eq};

#[test]
fn contains_matches_std() {
    let cases = [
        ("Majorstuen", "Major"),
        ("Majorstuen", "stuen"),
        ("Majorstuen", "tuen "),
        ("", ""),
        ("abc", ""),
        ("", "a"),
        ("Ljabru via Jernbanetorget", "Jernbane"),
        ("æøå Ås", "Ås"),
        ("aaab", "aab"),
    ];
    for (hay, needle) in cases {
        assert_eq!(str_contains(hay, needle), hay.contains(needle), "{hay} / {needle}");
    }
}

#[test]
fn eq_matches_std() {
    let cases = [("a", "a"), ("a", "b"), ("", ""), ("ab", "a"), ("øl", "øl")];
    for (a, b) in cases {
        assert_eq!(str_eq(a, b), a == b);
    }
}

#[test]
fn replace_all_matches_std() {
    let cases = [
        ("https://example.ngrok.app", "https://", ""),
        ("http://x", "https://", ""),
        ("aaaa", "aa", "b"),
        ("abcabc", "bc", "XY"),
        ("nothing here", "zz", "q"),
        ("", "a", "b"),
        ("ååå", "å", "a"),
    ];
    for (s, pat, rep) in cases {
        assert_eq!(replace_all_str(s, pat, rep), s.replace(pat, rep), "{s} {pat} {rep}");
    }
}

#[test]
fn decimal_matches_std() {
    for n in [0u16, 7, 9, 10, 42, 99, 100, 127, 254, 352, 454, 1000, 65535] {
        let mut out = String::from("x=");
        push_decimal(&mut out, n);
        assert_eq!(out, format!("x={}", n));
    }
}
