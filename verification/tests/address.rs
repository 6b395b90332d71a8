use reputesol::address::{is_user_account_address, matches_derivation, user_account_address};
use reputesol::constants::USER_SEED;
use reputesol::pubkey::{same_key, Pubkey};

const OWNER: Pubkey = [7u8; 32];
const OTHER_OWNER: Pubkey = [8u8; 32];
const PROGRAM: Pubkey = [42u8; 32];

fn derived_by_anchor(owner: &Pubkey, program: &Pubkey) -> (Pubkey, u8) {
    let program_id = anchor_lang::prelude::Pubkey::new_from_array(*program);
    let (address, bump) =
        anchor_lang::prelude::Pubkey::find_program_address(&[b"user", owner.as_ref()], &program_id);
    (address.to_bytes(), bump)
}

#[test]
fn seed_spells_user() {
    assert_eq!(&USER_SEED, b"user");
}

#[test]
fn address_is_the_one_anchor_derives() {
    assert_eq!(user_account_address(&OWNER, &PROGRAM), Some(derived_by_anchor(&OWNER, &PROGRAM)));
    assert_eq!(
        user_account_address(&OTHER_OWNER, &PROGRAM),
        Some(derived_by_anchor(&OTHER_OWNER, &PROGRAM))
    );
}

#[test]
fn address_of_a_known_owner() {
    // sha256("user" ++ owner ++ [253] ++ program ++ "ProgramDerivedAddress"); bump seeds 255 and
    // 254 give points on the curve.
    let expected: Pubkey = [
        185, 161, 211, 34, 12, 143, 58, 244, 218, 92, 171, 84, 56, 206, 41, 90, 212, 84, 158, 175,
        169, 104, 10, 248, 175, 63, 178, 117, 63, 223, 247, 171,
    ];
    assert_eq!(user_account_address(&OWNER, &PROGRAM), Some((expected, 253)));
    assert!(is_user_account_address(&expected, 253, &OWNER, &PROGRAM));
    assert!(!is_user_account_address(&expected, 255, &OWNER, &PROGRAM));
}

#[test]
fn address_is_neither_owner_nor_program() {
    let (address, _bump) = user_account_address(&OWNER, &PROGRAM).expect("an address is found");
    assert_ne!(address, OWNER);
    assert_ne!(address, PROGRAM);
}

#[test]
fn same_owner_same_address() {
    assert_eq!(user_account_address(&OWNER, &PROGRAM), user_account_address(&OWNER, &PROGRAM));
}

#[test]
fn owners_and_programs_tell_addresses_apart() {
    let here = user_account_address(&OWNER, &PROGRAM).expect("an address is found");
    let other_owner = user_account_address(&OTHER_OWNER, &PROGRAM).expect("an address is found");
    let other_program = user_account_address(&OWNER, &OWNER).expect("an address is found");
    assert_ne!(here.0, other_owner.0);
    assert_ne!(here.0, other_program.0);
}

#[test]
fn derived_address_is_recognised() {
    let (address, bump) = user_account_address(&OWNER, &PROGRAM).expect("an address is found");
    assert!(is_user_account_address(&address, bump, &OWNER, &PROGRAM));
    assert!(!is_user_account_address(&address, bump.wrapping_sub(1), &OWNER, &PROGRAM));
    assert!(!is_user_account_address(&address, bump, &OTHER_OWNER, &PROGRAM));
    assert!(!is_user_account_address(&address, bump, &OWNER, &OWNER));
    assert!(!is_user_account_address(&OWNER, bump, &OWNER, &PROGRAM));
}

#[test]
fn derivation_is_matched_field_by_field() {
    let derived: Option<(Pubkey, u8)> = Some((OWNER, 255));
    assert!(matches_derivation(&derived, &OWNER, 255));
    assert!(!matches_derivation(&derived, &OWNER, 254));
    assert!(!matches_derivation(&derived, &OTHER_OWNER, 255));
    assert!(!matches_derivation(&None, &OWNER, 255));
}

#[test]
fn keys_are_compared_byte_by_byte() {
    let mut first: Pubkey = OWNER;
    first[0] = 0;
    let mut last: Pubkey = OWNER;
    last[31] = 0;
    assert!(same_key(&OWNER, &OWNER));
    assert!(same_key(&OWNER, &[7u8; 32]));
    assert!(!same_key(&OWNER, &first));
    assert!(!same_key(&OWNER, &last));
    assert!(!same_key(&first, &last));
}
