use chat_relay::numeral::{push_decimal, push_signed_decimal, push_superscript};
use chat_relay::text::{
    append_chars, append_str, chars_of, matches_at, replace_all, same_chars, string_of,
};

fn chars(s: &str) -> Vec<char> {
    s.chars().collect()
}

fn replaced(text: &str, pattern: &str, replacement: &str) -> String {
    replace_all(&chars(text), &chars(pattern), &chars(replacement)).into_iter().collect()
}

#[test]
fn strings_and_their_characters() {
    assert_eq!(chars_of("a•¹"), vec!['a', '•', '¹']);
    assert_eq!(chars_of(""), Vec::<char>::new());
    assert_eq!(string_of(&vec!['a', '•', '¹']), "a•¹");
    assert_eq!(string_of(&Vec::new()), "");
}

#[test]
fn appending_characters() {
    let mut out = vec!['a'];
    append_chars(&mut out, &vec!['b', 'c']);
    append_str(&mut out, "dé");
    append_str(&mut out, "");
    assert_eq!(out, vec!['a', 'b', 'c', 'd', 'é']);
}

#[test]
fn comparing_characters() {
    assert!(same_chars(&chars("abc"), &chars("abc")));
    assert!(same_chars(&chars(""), &chars("")));
    assert!(!same_chars(&chars("abc"), &chars("abd")));
    assert!(!same_chars(&chars("abc"), &chars("ab")));
}

#[test]
fn finding_a_pattern_at_a_position() {
    let text = chars("abcabc");
    assert!(matches_at(&text, 0, &chars("abc")));
    assert!(matches_at(&text, 3, &chars("abc")));
    assert!(!matches_at(&text, 1, &chars("abc")));
    assert!(!matches_at(&text, 4, &chars("abc")));
    assert!(matches_at(&text, 6, &chars("")));
    assert!(!matches_at(&text, 6, &chars("a")));
}

#[test]
fn replacing_goes_from_left_to_right_without_overlap() {
    assert_eq!(replaced("aaa", "aa", "b"), "ba");
    assert_eq!(replaced("aaaa", "aa", "b"), "bb");
    assert_eq!(replaced("abab", "ab", "abab"), "abababab");
    assert_eq!(replaced("xyz", "y", ""), "xz");
    assert_eq!(replaced("xyz", "q", "r"), "xyz");
    assert_eq!(replaced("", "q", "r"), "");
    assert_eq!(replaced("ab", "abc", "r"), "ab");
}

#[test]
fn replacing_an_empty_pattern_changes_nothing() {
    assert_eq!(replaced("abc", "", "x"), "abc");
}

#[test]
fn decimal_numerals() {
    let mut out = Vec::new();
    push_decimal(0, &mut out);
    out.push(' ');
    push_decimal(7, &mut out);
    out.push(' ');
    push_decimal(10, &mut out);
    out.push(' ');
    push_decimal(u64::MAX, &mut out);
    assert_eq!(string_of(&out), "0 7 10 18446744073709551615");
}

#[test]
fn signed_decimal_numerals() {
    let mut out = Vec::new();
    push_signed_decimal(0, &mut out);
    out.push(' ');
    push_signed_decimal(-1, &mut out);
    out.push(' ');
    push_signed_decimal(i64::MAX, &mut out);
    out.push(' ');
    push_signed_decimal(i64::MIN, &mut out);
    assert_eq!(string_of(&out), "0 -1 9223372036854775807 -9223372036854775808");
}

#[test]
fn superscript_numerals_are_appended() {
    let mut out = vec!['x'];
    push_superscript(405, &mut out);
    assert_eq!(string_of(&out), "x⁴⁰⁵");
}

fn words(alphabet: &[char], longest: usize) -> Vec<String> {
    let mut all = vec![String::new()];
    let mut last = vec![String::new()];
    for _ in 0..longest {
        let mut next = Vec::new();
        for word in &last {
            for c in alphabet {
                let mut longer = word.clone();
                longer.push(*c);
                next.push(longer);
            }
        }
        all.extend(next.iter().cloned());
        last = next;
    }
    all
}

#[test]
fn replacing_agrees_with_the_standard_library() {
    let texts = words(&['a', 'b'], 7);
    let patterns = words(&['a', 'b'], 3);
    for text in &texts {
        for pattern in patterns.iter().filter(|p| !p.is_empty()) {
            for replacement in ["", "x", "ab"] {
                assert_eq!(
                    replaced(text, pattern, replacement),
                    text.replace(pattern.as_str(), replacement)
                );
            }
        }
    }
}
