use calc_nearx::halving::half_item;
use calc_nearx::halving::HalfOutcome;
use calc_nearx::orders::get_number;
use calc_nearx::people::People;

#[test]
fn test_get_number_single_digit() {
    assert_eq!(get_number(9), Some(9));
    assert_eq!(get_number(0), Some(0));
}

#[test]
fn test_get_number_two_digits() {
    assert_eq!(get_number(10), None);
    assert_eq!(get_number(255), None);
}

#[test]
fn test_half_item_even() {
    assert_eq!(half_item(12), HalfOutcome::Halved(6));
    assert_eq!(half_item(0), HalfOutcome::Halved(0));
}

#[test]
fn test_half_item_odd() {
    assert_eq!(half_item(9), HalfOutcome::NotEven(9));
    assert_eq!(half_item(255), HalfOutcome::NotEven(255));
}

#[test]
fn test_people_fields() {
    let people1: People = People::new("Washington".to_string(), 23);
    assert_eq!(people1.name, "Washington");
    assert_eq!(people1.age, 23);
}

#[test]
fn test_people_adult() {
    assert!(People::new("Washington".to_string(), 23).is_adult());
    assert!(People::new("Joaquim".to_string(), 18).is_adult());
    assert!(!People::new("Joaquim".to_string(), 6).is_adult());
    assert!(!People::new("Joaquim".to_string(), 17).is_adult());
}
