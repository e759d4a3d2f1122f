use chaum_pedersen::{
    derive_public_value, modular_exponentiate, solve_response, verify_proof, ProtocolError,
};

#[test]
fn toy_group_scenario() {
    let (p, q, g, h) = (23, 11, 4, 9);
    let x = 6;
    let y1 = derive_public_value(g, x, p);
    let y2 = derive_public_value(h, x, p);
    assert_eq!((y1, y2), (Ok(2), Ok(3)));
    let k = 7;
    let r1 = derive_public_value(g, k, p);
    let r2 = derive_public_value(h, k, p);
    assert_eq!((r1, r2), (Ok(8), Ok(4)));
    let c = 4;
    assert_eq!(solve_response(x, k, c, q), Ok(5));
    assert_eq!(verify_proof(23, 2, 3, 8, 4, 4, 9, 4, 5), Ok(true));
    assert_eq!(verify_proof(23, 2, 3, 8, 4, 4, 9, 4, 6), Ok(false));
    assert_eq!(verify_proof(23, 2, 3, 8, 4, 4, 9, 4, 7), Ok(false));
    assert_eq!(verify_proof(23, 2, 3, 8, 4, 4, 9, 4, 8), Ok(false));
    assert_eq!(verify_proof(23, 2, 3, 8, 4, 4, 9, 4, 2), Ok(false));
}

#[test]
fn response_examples() {
    assert_eq!(solve_response(2, 10, 1, 101), Ok(8));
    assert_eq!(solve_response(6, 10, 2, 101), Ok(99));
}

#[test]
fn exponentiation_examples() {
    assert_eq!(modular_exponentiate(1, 2, 11), Ok(1));
    assert_eq!(modular_exponentiate(2, 3, 11), Ok(8));
    assert_eq!(modular_exponentiate(2, 4, 11), Ok(5));
    assert_eq!(modular_exponentiate(4, 0, 23), Ok(1));
    assert_eq!(modular_exponentiate(0, 0, 2), Ok(1));
    assert_eq!(modular_exponentiate(30, 2, 7), Ok(4));
}

#[test]
fn modulus_of_zero_or_one_is_rejected() {
    assert_eq!(modular_exponentiate(2, 3, 0), Err(ProtocolError::InvalidModulus));
    assert_eq!(modular_exponentiate(2, 3, 1), Err(ProtocolError::InvalidModulus));
    assert_eq!(modular_exponentiate(0, 0, 0), Err(ProtocolError::InvalidModulus));
    assert_eq!(derive_public_value(4, 6, 0), Err(ProtocolError::InvalidModulus));
    assert_eq!(derive_public_value(4, 6, 1), Err(ProtocolError::InvalidModulus));
    assert_eq!(verify_proof(0, 2, 3, 8, 4, 4, 9, 4, 5), Err(ProtocolError::InvalidModulus));
    assert_eq!(verify_proof(1, 0, 0, 0, 0, 0, 0, 0, 0), Err(ProtocolError::InvalidModulus));
    assert_eq!(modular_exponentiate(2, 3, 2), Ok(0));
}

#[test]
fn values_outside_the_order_are_rejected() {
    assert_eq!(solve_response(11, 7, 4, 11), Err(ProtocolError::InvalidRange));
    assert_eq!(solve_response(6, 11, 4, 11), Err(ProtocolError::InvalidRange));
    assert_eq!(solve_response(6, 7, 11, 11), Err(ProtocolError::InvalidRange));
    assert_eq!(solve_response(0, 0, 0, 0), Err(ProtocolError::InvalidRange));
    assert_eq!(solve_response(u32::MAX, 0, 0, u32::MAX), Err(ProtocolError::InvalidRange));
    assert_eq!(solve_response(10, 10, 10, 11), Ok(9));
    assert_eq!(solve_response(0, 0, 0, 1), Ok(0));
}

#[test]
fn values_outside_the_modulus_are_rejected() {
    assert_eq!(verify_proof(23, 23, 3, 8, 4, 4, 9, 4, 5), Err(ProtocolError::InvalidRange));
    assert_eq!(verify_proof(23, 2, 23, 8, 4, 4, 9, 4, 5), Err(ProtocolError::InvalidRange));
    assert_eq!(verify_proof(23, 2, 3, 31, 4, 4, 9, 4, 5), Err(ProtocolError::InvalidRange));
    assert_eq!(verify_proof(23, 2, 3, 8, 27, 4, 9, 4, 5), Err(ProtocolError::InvalidRange));
    // The modulus is looked at first.
    assert_eq!(verify_proof(1, 2, 3, 8, 4, 4, 9, 4, 5), Err(ProtocolError::InvalidModulus));
    // Generators, challenge and response are not held to the modulus.
    assert_eq!(verify_proof(23, 2, 3, 8, 4, 27, 32, 15, 16), Ok(true));
}

#[test]
fn derived_value_does_not_depend_on_the_occasion() {
    for exponent in 0..11 {
        assert_eq!(derive_public_value(4, exponent, 23), modular_exponentiate(4, exponent, 23));
        assert_eq!(derive_public_value(4, exponent, 23), derive_public_value(4, exponent, 23));
    }
    assert_eq!(derive_public_value(27, 6, 23), Ok(2));
}

#[test]
fn errors_compare_and_print() {
    assert_ne!(ProtocolError::InvalidModulus, ProtocolError::InvalidRange);
    let copy = ProtocolError::InvalidRange;
    assert_eq!(copy, ProtocolError::InvalidRange);
    assert_eq!(format!("{:?}", ProtocolError::InvalidModulus), "InvalidModulus");
}
