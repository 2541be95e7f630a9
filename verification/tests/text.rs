use robo_arm::text::{CapacityError, String};

#[test]
fn new_text_is_empty() {
    let text: String<4> = String::new();
    assert_eq!(text.as_str(), "");
    assert_eq!(text.len(), 0);
}

#[test]
fn try_from_copies_text_that_fits() {
    let text = String::<8>::try_from("robo-arm").unwrap();
    assert_eq!(text.as_str(), "robo-arm");
    assert_eq!(text.len(), 8);
}

#[test]
fn try_from_refuses_text_above_the_capacity() {
    assert_eq!(String::<7>::try_from("robo-arm").unwrap_err(), CapacityError);
    assert!(String::<0>::try_from("a").is_err());
    assert!(String::<0>::try_from("").is_ok());
}

#[test]
fn capacity_counts_bytes_not_characters() {
    // Three characters of two bytes each.
    assert!(String::<6>::try_from("äöü").is_ok());
    assert!(String::<5>::try_from("äöü").is_err());
    assert_eq!(String::<6>::try_from("äöü").unwrap().len(), 6);
}

#[test]
fn ssid_capacity_is_thirty_two_bytes() {
    let longest = "a".repeat(32);
    assert!(String::<32>::try_from(longest.as_str()).is_ok());
    let too_long = "a".repeat(33);
    assert!(String::<32>::try_from(too_long.as_str()).is_err());
}

#[test]
fn texts_are_equal_where_their_characters_are() {
    let a = String::<16>::try_from("home").unwrap();
    let b = String::<16>::try_from("home").unwrap();
    let c = String::<16>::try_from("away").unwrap();
    assert!(a == b);
    assert!(a != c);
    assert!(a.clone() == a);
}

#[test]
fn capacity_is_that_of_a_fixed_buffer() {
    for text in ["", "a", "robo-arm", "äöü", "日本語", "12345678", "123456789", "ü1234567"] {
        let fixed = heapless::String::<8>::try_from(text);
        let bounded = String::<8>::try_from(text);
        assert_eq!(fixed.is_ok(), bounded.is_ok());
        if let (Ok(fixed), Ok(bounded)) = (fixed, bounded) {
            assert_eq!(fixed.as_str(), bounded.as_str());
            assert_eq!(fixed.len(), bounded.len());
        }
    }
    assert_eq!(heapless::String::<8>::new().as_str(), String::<8>::new().as_str());
}
