use core::cmp::Ordering;
use str_array::lex::{compare_bytes, Rank};
use str_array::Str;
use std::borrow::Cow;

#[test]
fn strings_of_one_length_compare_by_text() {
    let a: Str<3> = Str::try_new("foo").unwrap();
    let b: Str<3> = Str::try_new("foo").unwrap();
    let c: Str<3> = Str::try_new("fop").unwrap();
    assert!(a == b);
    assert!(a != c);
    assert!(a < c);
    assert!(c > a);
    assert_eq!(a.cmp(&b), Ordering::Equal);
    assert_eq!(a.cmp(&c), Ordering::Less);
    assert_eq!(c.cmp(&a), Ordering::Greater);
}

#[test]
fn strings_of_different_lengths_are_never_equal() {
    let short: Str<3> = Str::try_new("foo").unwrap();
    let long: Str<5> = Str::try_new("foo12").unwrap();
    assert!(short != long);
    assert!(!(short == long));
    assert!(long != short);
}

#[test]
fn strings_of_different_lengths_order_as_text() {
    let short: Str<3> = Str::try_new("foo").unwrap();
    let long: Str<5> = Str::try_new("foo12").unwrap();
    assert!(short < long);
    assert!(long > short);
    assert_eq!(short.partial_cmp(&long), Some(Ordering::Less));
    assert_eq!(long.partial_cmp(&short), Some(Ordering::Greater));
    let other: Str<2> = Str::try_new("zz").unwrap();
    assert!(other > long);
    assert_eq!("zz".partial_cmp("foo12"), other.partial_cmp(&long));
}

#[test]
fn order_agrees_with_string_slices() {
    let texts = ["abc", "abd", "ab€", "€ab", "zzz", "a💖", "💖a", "\u{7f}\u{80}"];
    for x in texts {
        for y in texts {
            if x.len() == 3 && y.len() == 3 {
                let a: Str<3> = Str::try_new(x).unwrap();
                let b: Str<3> = Str::try_new(y).unwrap();
                assert_eq!(a.partial_cmp(&b), x.partial_cmp(y));
                assert_eq!(a.cmp(&b), x.cmp(y));
                assert_eq!(a == b, x == y);
            }
        }
    }
}

#[test]
fn compare_bytes_is_lexicographic() {
    assert_eq!(compare_bytes(b"", b""), Rank::Same);
    assert_eq!(compare_bytes(b"", b"a"), Rank::Before);
    assert_eq!(compare_bytes(b"a", b""), Rank::After);
    assert_eq!(compare_bytes(b"foo", b"foo12"), Rank::Before);
    assert_eq!(compare_bytes(b"foo12", b"foo"), Rank::After);
    assert_eq!(compare_bytes(b"fop", b"foo12"), Rank::After);
    assert_eq!(compare_bytes(b"abc", b"abc"), Rank::Same);
    assert_eq!(compare_bytes(&[0x7f], &[0x80]), Rank::Before);
}

#[test]
fn strings_compare_with_string_slices() {
    let s: Str<3> = Str::try_new("foo").unwrap();
    assert!(s == *"foo");
    assert!(s == "foo");
    assert!("foo" == s);
    assert!(*"foo" == s);
    assert!(s != "fo");
    assert!(s != "foo12");
    assert!("bar" != s);
    assert!(s < "foo12");
    assert!(s > "fo");
    assert!("foo12" > s);
    assert!(*"bar" < s);
    assert_eq!(s.partial_cmp("foo"), Some(Ordering::Equal));
    assert_eq!("zz".partial_cmp(&s), Some(Ordering::Greater));
}

#[test]
fn strings_compare_with_owned_strings() {
    let s: Str<6> = Str::try_new("héllo").unwrap();
    let same = String::from("héllo");
    let other = String::from("hello");
    assert!(s == same);
    assert!(same == s);
    assert!(s == &same);
    assert!(&same == s);
    assert!(s != other);
    assert!(other != s);
    assert!(other < s);
    assert!(s > other);
    assert!(s > &other);
    assert!(&other < s);
    assert_eq!(s.partial_cmp(&same), Some(Ordering::Equal));
}

#[test]
fn strings_compare_with_boxed_and_copy_on_write_strings() {
    let s: Str<3> = Str::try_new("foo").unwrap();
    let boxed: Box<str> = Box::from("foo");
    let later: Box<str> = Box::from("fop");
    assert!(s == boxed);
    assert!(boxed == s);
    assert!(s != later);
    assert!(s < later);
    assert!(later > s);
    let borrowed: Cow<'_, str> = Cow::Borrowed("foo");
    let owned: Cow<'_, str> = Cow::Owned(String::from("a"));
    assert!(s == borrowed);
    assert!(borrowed == s);
    assert!(s != owned);
    assert!(owned < s);
    assert!(s > owned);
    assert_eq!(s.partial_cmp(&borrowed), Some(Ordering::Equal));
}

#[test]
fn order_against_string_slices_agrees_with_the_standard_order() {
    let texts = ["", "a", "abc", "abd", "ab€", "€ab", "zzz", "a💖", "💖a", "abcd"];
    for x in texts {
        if x.len() != 3 {
            continue;
        }
        let a: Str<3> = Str::try_new(x).unwrap();
        for y in texts {
            assert_eq!(a.partial_cmp(y), x.partial_cmp(y));
            assert_eq!(y.partial_cmp(&a), y.partial_cmp(x));
            assert_eq!(a == y, x == y);
            assert_eq!(y == a, y == x);
        }
    }
}

#[test]
fn order_is_transitive_on_given_strings() {
    let a: Str<2> = Str::try_new("ab").unwrap();
    let b: Str<3> = Str::try_new("abc").unwrap();
    let c: Str<1> = Str::try_new("b").unwrap();
    assert!(a < b);
    assert!(b < c);
    assert!(a < c);
}
