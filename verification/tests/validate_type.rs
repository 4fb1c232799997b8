use promocode::validate_type::error::{decimal_string, OutOfBoundsError, SequenceContentError, StringContentError};
use promocode::validate_type::number::{BoundedU128, BoundedU16, BoundedU32, BoundedU64, BoundedU8, BoundedUsize};
use promocode::validate_type::sequence::{NonEmptyHashSet, NonEmptyVec};
use promocode::validate_type::string::{char_is_whitespace, str_is_blank, NonBlankString, NonEmptyString};
use std::collections::HashSet;

#[test]
fn bounded_u8_accepts_exactly_its_range() {
    for value in 0..=255u8 {
        let bounded = BoundedU8::<10, 20>::new(value);
        assert_eq!(bounded.is_ok(), 10 <= value && value <= 20);
        match bounded {
            Ok(inside) => assert_eq!(inside.get(), value),
            Err(OutOfBoundsError::Low(min, max, given)) => {
                assert!(value < 10);
                assert_eq!((min, max, given), (10, 20, value));
            },
            Err(OutOfBoundsError::High(min, max, given)) => {
                assert!(value > 20);
                assert_eq!((min, max, given), (10, 20, value));
            },
        }
    }
}

#[test]
fn bounded_u8_edges() {
    assert_eq!(BoundedU8::<0, 100>::new(0).unwrap().get(), 0);
    assert_eq!(BoundedU8::<0, 100>::new(100).unwrap().get(), 100);
    assert_eq!(BoundedU8::<0, 100>::new(101), Err(OutOfBoundsError::High(0, 100, 101)));
    assert_eq!(BoundedU8::<1, 100>::new(0), Err(OutOfBoundsError::Low(1, 100, 0)));
    assert_eq!(BoundedU8::<0, 255>::new(255).unwrap().get(), 255);
    assert_eq!(BoundedU8::<5, 5>::new(5).unwrap().get(), 5);
    assert!(BoundedU8::<6, 5>::new(5).is_err());
    assert_eq!(BoundedU8::<3, 9>::new_unchecked(4).get(), 4);
}

#[test]
fn white_space_is_the_unicode_property() {
    for code in 0..=0x10FFFFu32 {
        if let Some(c) = char::from_u32(code) {
            assert_eq!(char_is_whitespace(c), c.is_whitespace());
        }
    }
}

#[test]
fn blank_strings() {
    assert!(str_is_blank(""));
    assert!(str_is_blank(" "));
    assert!(str_is_blank(" \t\r\n\u{00A0}\u{3000}"));
    assert!(!str_is_blank("a"));
    assert!(!str_is_blank("  a  "));
    assert!(!str_is_blank("\u{200B}"));
}

#[test]
fn non_empty_string() {
    assert_eq!(NonEmptyString::new("".to_string()), Err(StringContentError::Empty));
    let blank = NonEmptyString::new(" ".to_string()).unwrap();
    assert_eq!(blank.as_str(), " ");
    assert_eq!(blank.clone().get(), " ");
    assert_eq!(NonEmptyString::new_unchecked("abc".to_string()).get(), "abc");
}

#[test]
fn non_blank_string() {
    assert_eq!(NonBlankString::new("".to_string()), Err(StringContentError::Blank("".to_string())));
    assert_eq!(NonBlankString::new(" \t".to_string()), Err(StringContentError::Blank(" \t".to_string())));
    let text = NonBlankString::new(" a ".to_string()).unwrap();
    assert_eq!(text.as_str(), " a ");
    assert!(text.eq_string(&" a ".to_string()));
    assert!(!text.eq_string(&"a".to_string()));
    assert_eq!(text.clone(), text);
    assert_eq!(text.get(), " a ");
    assert_eq!(NonBlankString::new_unchecked("x".to_string()).get(), "x");
}

#[test]
fn non_empty_vec() {
    assert_eq!(NonEmptyVec::<u8>::new(vec![]), Err(SequenceContentError::Empty));
    let items = NonEmptyVec::new(vec![3u8, 1, 2]).unwrap();
    assert_eq!(items.as_vec(), &vec![3u8, 1, 2]);
    assert_eq!(items.get(), vec![3u8, 1, 2]);
    assert_eq!(NonEmptyVec::new_unchecked(vec![7u8]).get(), vec![7u8]);
}

#[test]
fn non_empty_hash_set() {
    assert_eq!(NonEmptyHashSet::<u8>::new(HashSet::new()), Err(SequenceContentError::Empty));
    let mut set = HashSet::new();
    set.insert(4u8);
    set.insert(9u8);
    let items = NonEmptyHashSet::new(set.clone()).unwrap();
    assert_eq!(items.get(), set);
    assert_eq!(NonEmptyHashSet::new_unchecked(set.clone()).get(), set);
}

#[test]
fn error_messages() {
    assert_eq!(StringContentError::Empty.to_string(), "string is empty");
    assert_eq!(StringContentError::Blank(" \t".to_string()).to_string(), "string is blank (content: ` \t`)");
    assert_eq!(SequenceContentError::Empty.to_string(), "sequence is empty");
}

#[test]
fn out_of_bounds_messages() {
    assert_eq!(OutOfBoundsError::<u8>::High(0, 100, 101).to_string(), "101 is too high (range: 0..100)");
    assert_eq!(OutOfBoundsError::<u8>::Low(10, 20, 0).to_string(), "0 is too low (range: 10..20)");
    assert_eq!(BoundedU8::<1, 9>::new(10).unwrap_err().to_string(), "10 is too high (range: 1..9)");
    assert_eq!(OutOfBoundsError::<u16>::High(0, 1000, 65535).to_string(), "65535 is too high (range: 0..1000)");
    assert_eq!(
        OutOfBoundsError::<u32>::Low(7, 4_000_000_000, 6).to_string(),
        "6 is too low (range: 7..4000000000)"
    );
    assert_eq!(
        OutOfBoundsError::<u64>::High(0, 1, u64::MAX).to_string(),
        "18446744073709551615 is too high (range: 0..1)"
    );
    assert_eq!(
        OutOfBoundsError::<u128>::High(0, 1, u128::MAX).to_string(),
        "340282366920938463463374607431768211455 is too high (range: 0..1)"
    );
    assert_eq!(OutOfBoundsError::<usize>::Low(100, 200, 99).to_string(), "99 is too low (range: 100..200)");
}

#[test]
fn numbers_are_written_in_base_ten() {
    for number in [0u128, 1, 9, 10, 11, 99, 100, 101, 255, 1000, 12345678901234567890, u128::MAX] {
        assert_eq!(decimal_string(number), format!("{}", number));
    }
}

#[test]
fn the_wider_bounded_numbers() {
    assert_eq!(BoundedU16::<300, 400>::new(350).unwrap().get(), 350);
    assert_eq!(BoundedU16::<300, 400>::new(299), Err(OutOfBoundsError::Low(300, 400, 299)));
    assert_eq!(BoundedU16::<300, 400>::new(401), Err(OutOfBoundsError::High(300, 400, 401)));
    assert_eq!(BoundedU32::<1, 70000>::new(70000).unwrap().get(), 70000);
    assert_eq!(BoundedU32::<1, 70000>::new(0), Err(OutOfBoundsError::Low(1, 70000, 0)));
    assert_eq!(BoundedU32::<1, 70000>::new(70001), Err(OutOfBoundsError::High(1, 70000, 70001)));
    assert_eq!(BoundedU64::<5, 5_000_000_000>::new(5).unwrap().get(), 5);
    assert_eq!(BoundedU64::<5, 5_000_000_000>::new(4), Err(OutOfBoundsError::Low(5, 5_000_000_000, 4)));
    assert_eq!(
        BoundedU64::<5, 5_000_000_000>::new(u64::MAX),
        Err(OutOfBoundsError::High(5, 5_000_000_000, u64::MAX))
    );
    assert_eq!(BoundedU128::<0, 10>::new(10).unwrap().get(), 10);
    assert_eq!(BoundedU128::<1, 10>::new(0), Err(OutOfBoundsError::Low(1, 10, 0)));
    assert_eq!(BoundedU128::<0, 10>::new(11), Err(OutOfBoundsError::High(0, 10, 11)));
    assert_eq!(BoundedUsize::<2, 3>::new(3).unwrap().get(), 3);
    assert_eq!(BoundedUsize::<2, 3>::new(1), Err(OutOfBoundsError::Low(2, 3, 1)));
    assert_eq!(BoundedUsize::<2, 3>::new(4), Err(OutOfBoundsError::High(2, 3, 4)));
    assert_eq!(BoundedUsize::<2, 3>::new_unchecked(2).get(), 2);
}
