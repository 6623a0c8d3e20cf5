use str_array::{Collector, Str, TryStr};

#[test]
fn collects_characters_that_fill_the_string() {
    let chars = ['H', 'e', 'l', 'l', 'o', ' ', '💖'];
    let v: Str<10> = TryStr::<10>::from_iter(chars.iter().copied()).unwrap();
    assert_eq!("Hello 💖", v.as_str());
}

#[test]
fn collecting_fails_where_the_target_is_one_byte_longer() {
    let chars = ['H', 'e', 'l', 'l', 'o', ' ', '💖'];
    assert!(TryStr::<11>::from_iter(chars.iter().copied()).is_err());
    assert!(TryStr::<9>::from_iter(chars.iter().copied()).is_err());
}

#[test]
fn collects_one_wide_character() {
    let v: Str<4> = TryStr::<4>::from_iter("💖".chars()).unwrap();
    assert_eq!("💖", v.as_str());
    assert_eq!(v.into_bytes(), [240, 159, 146, 150]);
}

#[test]
fn collecting_too_many_characters_fails() {
    let s = TryStr::<2>::from_iter("Hello".chars());
    assert!(s.is_err());
    assert!(!s.is_ok());
}

#[test]
fn collecting_too_few_characters_fails() {
    let s = TryStr::<10>::from_iter("Hello".chars());
    assert!(s.is_err());
}

#[test]
fn collecting_nothing_into_length_zero_succeeds() {
    let s = TryStr::<0>::from_iter("".chars());
    assert!(s.is_ok());
    assert!(s.unwrap().is_empty());
    let t = TryStr::<1>::from_iter("".chars());
    assert!(t.is_err());
}

#[test]
fn a_wide_character_that_does_not_fit_is_not_cut() {
    for text in ["ab💖", "abc💖", "abcd💖"] {
        let s = TryStr::<6>::from_iter(text.chars());
        if text.len() == 6 {
            assert_eq!(s.unwrap().as_str(), text);
        } else {
            assert!(s.is_err());
        }
    }
    let s = TryStr::<3>::from_iter("é€".chars());
    assert!(s.is_err());
    let s = TryStr::<4>::from_iter("é€".chars());
    assert!(s.is_err());
    let s = TryStr::<5>::from_iter("é€".chars());
    assert_eq!(s.unwrap().into_bytes(), [0xC3, 0xA9, 0xE2, 0x82, 0xAC]);
}

#[test]
fn every_collected_string_is_valid_utf8() {
    let texts = ["", "a", "é", "€", "💖", "aé€💖", "💖💖", "abcdefgh", "ééé"];
    for text in texts {
        let outcomes = [
            TryStr::<4>::from_iter(text.chars()).into_result().map(|s| s.as_bytes().to_vec()),
            TryStr::<4>::from_chars(&text.chars().collect::<Vec<char>>())
                .into_result()
                .map(|s| s.as_bytes().to_vec()),
        ];
        for outcome in outcomes {
            match outcome {
                Ok(bytes) => {
                    assert_eq!(text.len(), 4);
                    assert_eq!(core::str::from_utf8(&bytes), Ok(text));
                }
                Err(e) => {
                    assert_ne!(text.len(), 4);
                    assert_eq!(e.expected(), 4);
                }
            }
        }
    }
}

#[test]
fn collecting_stops_on_an_endless_iterator() {
    let s = TryStr::<5>::from_iter(core::iter::repeat('x'));
    assert!(s.is_err());
    let s = TryStr::<5>::from_iter(core::iter::repeat('💖'));
    assert!(s.is_err());
}

#[test]
fn collecting_takes_no_more_than_one_character_too_many() {
    let mut it = "Hello".chars();
    let s = TryStr::<2>::from_iter(it.by_ref());
    assert!(s.is_err());
    assert_eq!(it.as_str(), "lo");
}

#[test]
fn from_iter_takes_an_iterator() {
    let v = TryStr::<5>::from_iter("Hello".chars());
    assert_eq!(v.into_result().unwrap().as_str(), "Hello");
}

#[test]
fn from_chars_takes_a_slice() {
    let chars = ['H', 'e', 'l', 'l', 'o', ' ', '💖'];
    assert_eq!(TryStr::<10>::from_chars(&chars).unwrap().as_str(), "Hello 💖");
    assert!(TryStr::<11>::from_chars(&chars).is_err());
    assert!(TryStr::<2>::from_chars(&chars).is_err());
    assert!(TryStr::<0>::from_chars(&[]).is_ok());
}

#[test]
fn unwrap_gives_the_string() {
    let x: TryStr<5> = TryStr::Valid(Str::from_utf8(*b"Hello").unwrap());
    assert_eq!(x.unwrap().as_str(), "Hello");
}

#[test]
fn is_ok_and_is_err_tell_the_variants_apart() {
    let x: TryStr<5> = TryStr::Valid(Str::from_utf8(*b"Hello").unwrap());
    assert_eq!(x.is_ok(), true);
    assert_eq!(x.is_err(), false);
    let x: TryStr<3> = TryStr::InvalidLength;
    assert_eq!(x.is_ok(), false);
    assert_eq!(x.is_err(), true);
}

#[test]
fn into_result_keeps_the_string() {
    let x = TryStr::<5>::from_iter("Hello".chars());
    assert_eq!(x.into_result().map(|s| s.into_bytes()), Ok(*b"Hello"));
}

#[test]
fn into_result_reports_an_unknown_length() {
    let x = TryStr::<5>::from_iter("Hello World".chars());
    let e = x.into_result().unwrap_err();
    assert_eq!(e.expected(), 5);
    assert_eq!(e.actual(), usize::MAX);
}

#[test]
fn collector_takes_whole_characters_only() {
    let mut c = Collector::<5>::new();
    assert!(c.push('a'));
    assert!(c.push('é'));
    assert!(!c.push('€'));
    assert!(!c.push('💖'));
    assert!(c.push('é'));
    assert!(!c.push('z'));
    let s = c.finish().unwrap();
    assert_eq!(s.as_str(), "aéé");
    assert_eq!(s.into_bytes(), [b'a', 0xC3, 0xA9, 0xC3, 0xA9]);
}

#[test]
fn collector_encodes_each_width() {
    let mut c = Collector::<10>::new();
    assert!(c.push('$'));
    assert!(c.push('¢'));
    assert!(c.push('€'));
    assert!(c.push('𐍈'));
    let s = c.finish().unwrap();
    assert_eq!(
        s.into_bytes(),
        [0x24, 0xC2, 0xA2, 0xE2, 0x82, 0xAC, 0xF0, 0x90, 0x8D, 0x88]
    );
}

#[test]
fn collector_that_is_not_full_fails() {
    let mut c = Collector::<3>::new();
    assert!(c.push('a'));
    assert!(c.finish().is_err());
    assert!(Collector::<1>::new().finish().is_err());
    assert!(Collector::<0>::new().finish().is_ok());
}
