use chaum_pedersen::{random_number, random_string};

#[test]
fn random_string_has_the_requested_length() {
    for n in [0usize, 1, 2, 16, 255, 1000] {
        assert_eq!(random_string(n).chars().count(), n);
        assert_eq!(random_string(n).len(), n);
    }
}

#[test]
fn random_string_is_alphanumeric() {
    let s = random_string(4096);
    assert!(s.chars().all(|c| c.is_ascii_alphanumeric()));
    // With 4096 draws from 62 characters, each class shows up.
    assert!(s.chars().any(|c| c.is_ascii_digit()));
    assert!(s.chars().any(|c| c.is_ascii_uppercase()));
    assert!(s.chars().any(|c| c.is_ascii_lowercase()));
}

#[test]
fn random_strings_differ() {
    assert_ne!(random_string(64), random_string(64));
}

#[test]
fn random_numbers_vary() {
    let first = random_number();
    let mut seen_other = false;
    for _ in 0..64 {
        if random_number() != first {
            seen_other = true;
        }
    }
    assert!(seen_other);
}

#[test]
fn random_number_reduces_into_any_order() {
    for q in [1u32, 2, 11, 101, u32::MAX] {
        assert!(random_number() % q < q);
    }
}
