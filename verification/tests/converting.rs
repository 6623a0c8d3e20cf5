use str_array::{InvalidLength, Str, TryStr, Utf8Error};
use std::borrow::Cow;

#[test]
fn as_mut_str_changes_the_text_in_place() {
    let mut s: Str<6> = Str::try_new("foobar").unwrap();
    let s_mut_str = s.as_mut_str();
    s_mut_str.make_ascii_uppercase();
    assert_eq!("FOOBAR", s_mut_str);
    assert_eq!("FOOBAR", s.as_str());
    assert_eq!(s.into_bytes(), *b"FOOBAR");
}

#[test]
fn as_mut_str_keeps_wide_characters_whole() {
    let mut s: Str<6> = Str::try_new("aé€").unwrap();
    s.as_mut_str().make_ascii_uppercase();
    assert_eq!(s.as_str(), "Aé€");
    assert!(core::str::from_utf8(s.as_bytes()).is_ok());
}

#[test]
fn invalid_length_message() {
    let e = Str::<3>::try_new("fo").unwrap_err();
    assert_eq!(e.to_string(), "Expected string with 3 bytes, but got 2");
    let e = InvalidLength::new(0, 1234567890);
    assert_eq!(e.to_string(), "Expected string with 0 bytes, but got 1234567890");
}

#[test]
fn invalid_length_message_for_an_unknown_length() {
    let e = TryStr::<5>::from_iter("Hello World".chars()).into_result().unwrap_err();
    assert_eq!(
        e.to_string(),
        format!("Expected string with 5 bytes, but got {}", usize::MAX)
    );
}

#[test]
fn invalid_length_compares_by_fields() {
    assert_eq!(InvalidLength::new(3, 2), Str::<3>::try_new("fo").unwrap_err());
    assert_ne!(InvalidLength::new(3, 2), InvalidLength::new(3, 4));
    assert_ne!(InvalidLength::new(3, 2), InvalidLength::new(2, 2));
}

#[test]
fn utf8_error_holds_what_it_was_given() {
    let e = Utf8Error::new(7, Some(2));
    assert_eq!(e.valid_up_to(), 7);
    assert_eq!(e.error_len(), Some(2));
    assert_eq!(Utf8Error::new(0, None).error_len(), None);
}

#[test]
fn try_from_a_string_slice() {
    let s: Str<5> = Str::try_from("hello").unwrap();
    assert_eq!(s.as_str(), "hello");
    let e = Str::<5>::try_from("hell").unwrap_err();
    assert_eq!((e.expected(), e.actual()), (5, 4));
}

#[test]
fn try_from_a_string() {
    let owned = String::from("héllo");
    let s: Str<6> = Str::try_from(&owned).unwrap();
    assert_eq!(s.as_str(), "héllo");
    let s: Str<6> = Str::try_from(owned.clone()).unwrap();
    assert_eq!(s.as_str(), "héllo");
    let e = Str::<5>::try_from(owned).unwrap_err();
    assert_eq!((e.expected(), e.actual()), (5, 6));
}

#[test]
fn try_from_bytes() {
    let s = Str::try_from(b"hello").unwrap();
    assert_eq!(s.into_bytes(), [104, 101, 108, 108, 111]);
    let s: Str<4> = Str::try_from([240, 159, 146, 150]).unwrap();
    assert_eq!(s.as_str(), "💖");
    let e = Str::<4>::try_from([0, 159, 146, 150]).unwrap_err();
    assert_eq!(e.valid_up_to(), 1);
    let e = Str::<2>::try_from(&[0xC3, 0x28]).unwrap_err();
    assert_eq!((e.valid_up_to(), e.error_len()), (0, Some(1)));
}

#[test]
fn into_an_owned_string() {
    let s: Str<6> = Str::try_new("héllo").unwrap();
    let owned: String = String::from(s);
    assert_eq!(owned, "héllo");
}

#[test]
fn derefs_to_a_string_slice() {
    let mut s: Str<6> = Str::try_new("héllo").unwrap();
    assert_eq!(s.chars().count(), 5);
    assert_eq!(&s[0..3], "hé");
    assert_eq!(s.to_uppercase(), "HÉLLO");
    s.make_ascii_uppercase();
    assert_eq!(&*s, "HéLLO");
}

#[test]
fn strings_are_copied_not_shared() {
    let a: Str<3> = Str::try_new("foo").unwrap();
    let mut b = a;
    b.as_mut_str().make_ascii_uppercase();
    assert_eq!(a.as_str(), "foo");
    assert_eq!(b.as_str(), "FOO");
}

#[test]
fn as_ref_gives_the_text_and_the_bytes() {
    let s: Str<6> = Str::try_new("héllo").unwrap();
    let text: &str = s.as_ref();
    let bytes: &[u8] = s.as_ref();
    assert_eq!(text, "héllo");
    assert_eq!(bytes, "héllo".as_bytes());
}

#[test]
fn as_mut_gives_the_text_to_change() {
    let mut s: Str<3> = Str::try_new("foo").unwrap();
    let text: &mut str = s.as_mut();
    text.make_ascii_uppercase();
    assert_eq!(s.as_str(), "FOO");
}

#[test]
fn try_from_mutable_strings() {
    let mut owned = String::from("hello");
    let s: Str<5> = Str::try_from(&mut owned).unwrap();
    assert_eq!(s.as_str(), "hello");
    let s: Str<5> = Str::try_from(owned.as_mut_str()).unwrap();
    assert_eq!(s.as_str(), "hello");
    let e = Str::<4>::try_from(&mut owned).unwrap_err();
    assert_eq!((e.expected(), e.actual()), (4, 5));
    assert_eq!(owned, "hello");
}

#[test]
fn try_from_boxed_and_copy_on_write_strings() {
    let boxed: Box<str> = Box::from("héllo");
    let s: Str<6> = Str::try_from(boxed.clone()).unwrap();
    assert_eq!(s.as_str(), "héllo");
    assert!(Str::<5>::try_from(boxed).is_err());
    let s: Str<3> = Str::try_from(Cow::Borrowed("foo")).unwrap();
    assert_eq!(s.as_str(), "foo");
    let s: Str<3> = Str::try_from(Cow::<str>::Owned(String::from("bar"))).unwrap();
    assert_eq!(s.as_str(), "bar");
    let e = Str::<3>::try_from(Cow::Borrowed("fo")).unwrap_err();
    assert_eq!((e.expected(), e.actual()), (3, 2));
}

#[test]
fn into_boxed_and_copy_on_write_strings() {
    let s: Str<6> = Str::try_new("héllo").unwrap();
    let boxed: Box<str> = Box::from(s);
    assert_eq!(&*boxed, "héllo");
    let cow: Cow<'_, str> = Cow::from(&s);
    assert!(matches!(cow, Cow::Borrowed("héllo")));
}
