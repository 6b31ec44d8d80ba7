use anchor_lang::prelude::Pubkey;
use anchor_orderbook::{derive_order_address, Address};

fn address(n: u8) -> Address {
    Address { bytes: [n; 32] }
}

#[test]
fn derived_identity_is_the_program_address_of_the_order_seeds() {
    let program = address(9);
    let owner = address(1);
    let asset = address(2);
    let nonce = 3u8;
    let (expected, expected_bump) = Pubkey::find_program_address(
        &[b"order", &owner.bytes, &asset.bytes, &[nonce]],
        &Pubkey::new_from_array(program.bytes),
    );
    let (found, bump) = derive_order_address(&program, &owner, &asset, nonce).unwrap();
    assert_eq!(found.bytes, expected.to_bytes());
    assert_eq!(bump, expected_bump);
}

#[test]
fn derived_identity_is_proved_by_its_bump() {
    let program = address(42);
    let owner = address(17);
    let asset = address(99);
    let (found, bump) = derive_order_address(&program, &owner, &asset, 0).unwrap();
    let again = Pubkey::create_program_address(
        &[b"order", &owner.bytes, &asset.bytes, &[0u8], &[bump]],
        &Pubkey::new_from_array(program.bytes),
    )
    .unwrap();
    assert_eq!(found.bytes, again.to_bytes());
    assert!(!again.is_on_curve());
}

#[test]
fn derivation_is_deterministic() {
    let first = derive_order_address(&address(9), &address(1), &address(2), 7);
    let second = derive_order_address(&address(9), &address(1), &address(2), 7);
    assert!(first.is_some());
    assert_eq!(first, second);
}

#[test]
fn derived_identity_is_none_of_its_inputs() {
    let (found, _) = derive_order_address(&address(9), &address(1), &address(2), 7).unwrap();
    assert_ne!(found, address(9));
    assert_ne!(found, address(1));
    assert_ne!(found, address(2));
}

#[test]
fn each_nonce_owner_asset_and_program_has_its_own_identity() {
    let base = derive_order_address(&address(9), &address(1), &address(2), 0).unwrap().0;
    let other_nonce = derive_order_address(&address(9), &address(1), &address(2), 1).unwrap().0;
    let other_owner = derive_order_address(&address(9), &address(3), &address(2), 0).unwrap().0;
    let other_asset = derive_order_address(&address(9), &address(1), &address(3), 0).unwrap().0;
    let other_program = derive_order_address(&address(8), &address(1), &address(2), 0).unwrap().0;
    let swapped = derive_order_address(&address(9), &address(2), &address(1), 0).unwrap().0;
    assert_ne!(base, other_nonce);
    assert_ne!(base, other_owner);
    assert_ne!(base, other_asset);
    assert_ne!(base, other_program);
    assert_ne!(base, swapped);
}

#[test]
fn identities_compare_by_their_bytes() {
    let mut bytes = [5u8; 32];
    assert!(Address::new(bytes).same_as(&address(5)));
    bytes[31] = 6;
    assert!(!Address::new(bytes).same_as(&address(5)));
    bytes[31] = 5;
    bytes[0] = 4;
    assert!(!Address::new(bytes).same_as(&address(5)));
}

#[test]
fn identity_bytes_come_out_in_order() {
    let mut bytes = [0u8; 32];
    for (i, byte) in bytes.iter_mut().enumerate() {
        *byte = i as u8;
    }
    let out = Address::new(bytes).to_vec();
    assert_eq!(out.len(), 32);
    assert_eq!(out, bytes.to_vec());
}
