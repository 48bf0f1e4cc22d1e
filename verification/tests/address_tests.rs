use finfun::address::{
    is_competition_address, is_prediction_address, matching_bump, vault_authority, vault_signer,
};
use finfun::{find_competition_address, find_prediction_address, find_vault_address, id, Pubkey};
use std::str::FromStr;

type Outside = anchor_lang::prelude::Pubkey;

fn outside(key: &Pubkey) -> Outside {
    Outside::new_from_array(key.to_bytes())
}

fn key(byte: u8) -> Pubkey {
    Pubkey::new_from_array([byte; 32])
}

#[test]
fn program_identity() {
    let expected = Outside::from_str("HJnVtBaQmzcbdeiHj5Y29UvXHiMBaKaTxjggva6ueMnq").unwrap();
    assert_eq!(id().to_bytes(), expected.to_bytes());
}

#[test]
fn default_identity_is_all_zero() {
    assert_eq!(Pubkey::default().to_bytes(), [0u8; 32]);
    assert_eq!(Pubkey::default(), Pubkey::new_from_array([0u8; 32]));
    assert_eq!(Pubkey::default().to_bytes(), Outside::default().to_bytes());
}

#[test]
fn identities_compare_by_their_bytes() {
    let mut bytes = [3u8; 32];
    assert_eq!(Pubkey::new_from_array(bytes), key(3));
    bytes[17] = 4;
    assert_ne!(Pubkey::new_from_array(bytes), key(3));
    bytes[17] = 3;
    bytes[31] = 0;
    assert_ne!(Pubkey::new_from_array(bytes), key(3));
    assert_eq!(Pubkey::new_from_array(bytes).to_bytes(), bytes);
}

#[test]
fn vault_address_is_derived_from_tag_and_id() {
    let program = id();
    let (address, bump) = find_vault_address(&program, "c1").unwrap();
    let (expected, expected_bump) =
        Outside::find_program_address(&[b"vault", b"c1"], &outside(&program));
    assert_eq!(address.to_bytes(), expected.to_bytes());
    assert_eq!(bump, expected_bump);
    assert_ne!(address, program);
}

#[test]
fn competition_address_is_derived_from_tag_and_id() {
    let program = id();
    let (address, bump) = find_competition_address(&program, "c1").unwrap();
    let (expected, expected_bump) =
        Outside::find_program_address(&[b"competition", b"c1"], &outside(&program));
    assert_eq!(address.to_bytes(), expected.to_bytes());
    assert_eq!(bump, expected_bump);
}

#[test]
fn prediction_address_is_derived_from_competition_and_user() {
    let program = id();
    let competition = key(5);
    let user = key(6);
    let (address, bump) = find_prediction_address(&program, &competition, &user).unwrap();
    let (expected, expected_bump) = Outside::find_program_address(
        &[b"prediction", &[5u8; 32], &[6u8; 32]],
        &outside(&program),
    );
    assert_eq!(address.to_bytes(), expected.to_bytes());
    assert_eq!(bump, expected_bump);
}

#[test]
fn derivation_depends_on_every_input() {
    let program = id();
    let other_program = key(1);
    let vault = find_vault_address(&program, "c1").unwrap().0;
    assert_eq!(find_vault_address(&program, "c1").unwrap().0, vault);
    assert_ne!(find_vault_address(&program, "c2").unwrap().0, vault);
    assert_ne!(find_vault_address(&other_program, "c1").unwrap().0, vault);
    assert_ne!(find_competition_address(&program, "c1").unwrap().0, vault);
    let prediction = find_prediction_address(&program, &key(5), &key(6)).unwrap().0;
    assert_ne!(find_prediction_address(&program, &key(6), &key(5)).unwrap().0, prediction);
    assert_ne!(find_prediction_address(&program, &key(5), &key(7)).unwrap().0, prediction);
}

#[test]
fn identifier_bytes_are_its_utf8_encoding() {
    let program = id();
    let (address, _) = find_vault_address(&program, "caf\u{e9}").unwrap();
    let (expected, _) =
        Outside::find_program_address(&[b"vault", "caf\u{e9}".as_bytes()], &outside(&program));
    assert_eq!(address.to_bytes(), expected.to_bytes());
}

#[test]
fn no_address_for_an_identifier_over_thirty_two_bytes() {
    let program = id();
    let fits = "a".repeat(32);
    let too_long = "a".repeat(33);
    assert!(find_vault_address(&program, &fits).is_some());
    assert!(find_vault_address(&program, &too_long).is_none());
    assert!(find_competition_address(&program, &too_long).is_none());
}

#[test]
fn address_checks_recompute_the_derivation() {
    let program = id();
    let competition = find_competition_address(&program, "c1").unwrap().0;
    let vault = find_vault_address(&program, "c1").unwrap().0;
    assert!(is_competition_address(&program, &competition, "c1"));
    assert!(!is_competition_address(&program, &vault, "c1"));
    assert!(!is_competition_address(&program, &competition, "c2"));
    let user = key(8);
    let prediction = find_prediction_address(&program, &competition, &user).unwrap().0;
    assert!(is_prediction_address(&program, &prediction, &competition, &user));
    assert!(!is_prediction_address(&program, &prediction, &competition, &key(9)));
    assert!(!is_prediction_address(&program, &vault, &competition, &user));
}

#[test]
fn vault_authority_is_the_bump_of_the_derived_vault() {
    let program = id();
    let (vault, bump) = find_vault_address(&program, "c1").unwrap();
    assert_eq!(vault_authority(&program, &vault, "c1"), Some(bump));
    assert_eq!(vault_authority(&program, &vault, "c2"), None);
    assert_eq!(vault_authority(&program, &key(1), "c1"), None);
    let too_long = "a".repeat(40);
    assert_eq!(vault_authority(&program, &vault, &too_long), None);
}

#[test]
fn signer_seeds_reproduce_the_vault_address() {
    let program = id();
    let (vault, bump) = find_vault_address(&program, "c1").unwrap();
    let seeds = vault_signer("c1", bump);
    assert_eq!(seeds, vec![b"vault".to_vec(), b"c1".to_vec(), vec![bump]]);
    let parts: Vec<&[u8]> = seeds.iter().map(|seed| seed.as_slice()).collect();
    let signed_for = Outside::create_program_address(&parts, &outside(&program)).unwrap();
    assert_eq!(signed_for.to_bytes(), vault.to_bytes());
}

#[test]
fn matching_bump_compares_the_found_address() {
    assert_eq!(matching_bump(Some((key(4), 250)), &key(4)), Some(250));
    assert_eq!(matching_bump(Some((key(4), 0)), &key(4)), Some(0));
    assert_eq!(matching_bump(Some((key(4), 250)), &key(5)), None);
    assert_eq!(matching_bump(None, &key(4)), None);
    let mut nearly = [4u8; 32];
    nearly[31] = 5;
    assert_eq!(matching_bump(Some((key(4), 250)), &Pubkey::new_from_array(nearly)), None);
}
