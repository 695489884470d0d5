use anchor_lang::prelude::Pubkey;
use vestor::authority::{create_program_address, decimal_bytes, find_program_address, keys_equal};

#[test]
fn decimal_bytes_renders_every_width() {
    assert_eq!(decimal_bytes(0), b"0".to_vec());
    assert_eq!(decimal_bytes(7), b"7".to_vec());
    assert_eq!(decimal_bytes(45), b"45".to_vec());
    assert_eq!(decimal_bytes(100), b"100".to_vec());
    assert_eq!(decimal_bytes(255), b"255".to_vec());
}

#[test]
fn keys_equal_compares_all_bytes() {
    let a = [9u8; 32];
    let mut b = [9u8; 32];
    assert!(keys_equal(&a, &b));
    b[31] = 8;
    assert!(!keys_equal(&a, &b));
}

#[test]
fn find_program_address_matches_the_runtime_derivation() {
    let program_id = [7u8; 32];
    let ticket_key = [2u8; 32];
    let seeds = vec![ticket_key.to_vec(), b"0".to_vec()];
    let ours = find_program_address(&seeds, &program_id).expect("derivable");
    let program = Pubkey::new_from_array(program_id);
    let (expected, expected_bump) =
        Pubkey::find_program_address(&[&ticket_key, b"0"], &program);
    assert_eq!(ours.0, expected.to_bytes());
    assert_eq!(ours.1, expected_bump);
    // The derivation is no echo of its input.
    assert_ne!(ours.0, ticket_key);
    assert_ne!(ours.0, program_id);
}

#[test]
fn create_program_address_confirms_the_found_bump() {
    let program_id = [7u8; 32];
    let ticket_key = [2u8; 32];
    let seeds = vec![ticket_key.to_vec(), b"0".to_vec()];
    let (address, bump) = find_program_address(&seeds, &program_id).expect("derivable");
    let bound = vec![ticket_key.to_vec(), b"0".to_vec(), vec![bump]];
    assert_eq!(create_program_address(&bound, &program_id), Some(address));
}

#[test]
fn create_program_address_refuses_oversized_seeds() {
    let program_id = [7u8; 32];
    let oversized = vec![vec![1u8; 33]];
    assert_eq!(create_program_address(&oversized, &program_id), None);
}
