use val_test::number::{is_alike, is_below};
use val_test::text::{decimal_text, listed, remove_char, replace_text, same_text};

fn bits(x: f64) -> Option<u64> {
    Some(x.to_bits())
}

#[test]
fn remove_char_keeps_the_rest_in_order() {
    assert_eq!(remove_char("\"a\"b\"\"c", '"'), "abc");
    assert_eq!(remove_char("", '"'), "");
    assert_eq!(remove_char("\"\"", '"'), "");
    assert_eq!(remove_char("héllo", 'l'), "héo");
}

#[test]
fn same_text_compares_characters() {
    assert!(same_text("", ""));
    assert!(same_text("añb", "añb"));
    assert!(!same_text("ab", "abc"));
    assert!(!same_text("abc", "abd"));
}

#[test]
fn listed_cuts_at_every_separator() {
    assert!(listed("a,b,c", ',', "a"));
    assert!(listed("a,b,c", ',', "b"));
    assert!(listed("a,b,c", ',', "c"));
    assert!(!listed("a,b,c", ',', "a,b"));
    assert!(!listed("a,b,c", ',', ""));
    assert!(listed("", ',', ""));
    assert!(listed(",a", ',', ""));
    assert!(listed("a,", ',', ""));
    assert!(listed("a,,b", ',', ""));
    assert!(!listed("ab", ',', "a"));
    assert!(listed("a;b", ';', "b"));
}

#[test]
fn replace_text_goes_left_to_right_without_overlap() {
    assert_eq!(replace_text("aaa", "aa", "b"), "ba");
    assert_eq!(replace_text("abcabc", "bc", ""), "aa");
    assert_eq!(replace_text("abc", "", "x"), "abc");
    assert_eq!(replace_text("abc", "abcd", "x"), "abc");
    assert_eq!(replace_text("abc", "abc", "xyz"), "xyz");
    assert_eq!(replace_text("", "a", "x"), "");
    assert_eq!(replace_text("xax", "a", "aa"), "xaax");
}

#[test]
fn decimal_text_writes_sign_and_digits() {
    assert_eq!(decimal_text(0), "0");
    assert_eq!(decimal_text(7), "7");
    assert_eq!(decimal_text(10), "10");
    assert_eq!(decimal_text(-1), "-1");
    assert_eq!(decimal_text(1234567890), "1234567890");
    assert_eq!(decimal_text(i64::MAX), "9223372036854775807");
    assert_eq!(decimal_text(i64::MIN), "-9223372036854775808");
    for v in [-1000i64, -999, -10, -9, 9, 99, 100, 101, 65536] {
        assert_eq!(decimal_text(v), v.to_string());
    }
}

#[test]
fn order_of_bit_patterns_is_the_order_of_doubles() {
    let samples = [
        f64::NEG_INFINITY,
        -1.0e300,
        -2.5,
        -1.0,
        -f64::MIN_POSITIVE,
        -0.0,
        0.0,
        f64::MIN_POSITIVE,
        1.0,
        2.5,
        1.0e300,
        f64::INFINITY,
        f64::NAN,
    ];
    for a in samples {
        for b in samples {
            assert_eq!(is_below(bits(a), bits(b)), Some(a) < Some(b));
            assert_eq!(is_alike(bits(a), bits(b)), Some(a) == Some(b));
        }
    }
}

#[test]
fn missing_number_is_below_every_number() {
    assert!(is_below(None, bits(-1.0e300)));
    assert!(is_below(None, bits(f64::NAN)));
    assert!(!is_below(bits(0.0), None));
    assert!(!is_below(None, None));
    assert!(is_alike(None, None));
    assert!(!is_alike(None, bits(0.0)));
    assert!(!is_alike(bits(0.0), None));
}
