use std::str::FromStr;
use switchboard_solana::address::{build_seeds, check_derived, derive_address, find};
use switchboard_solana::constants::{
    attestation_program_id, native_mint_id, switchboard_program_id, token_program_id,
    ATTESTATION_PROGRAM_ID, FUNCTION_REQUEST_CLOSE_TAG, FUNCTION_REQUEST_VERIFY_TAG,
    FUNCTION_VERIFY_TAG, NATIVE_MINT_ID, PERMISSION_SEED, QUOTE_SEED, QUOTE_TAG, STATE_SEED,
    SWITCHBOARD_PROGRAM_ID, TOKEN_PROGRAM_ID, WALLET_FUND_TAG,
};
use switchboard_solana::error::SwitchboardError;
use switchboard_solana::permission::AttestationPermissionAccountData;
use switchboard_solana::pubkey::Pubkey;
use switchboard_solana::quote::QuoteAccountData;
use switchboard_solana::wallet::SwitchboardWallet;

fn key(n: u8) -> Pubkey {
    Pubkey::new_from_array([n; 32])
}

fn outside(k: &Pubkey) -> anchor_lang::prelude::Pubkey {
    anchor_lang::prelude::Pubkey::new_from_array(k.bytes)
}

#[test]
fn program_addresses_are_the_known_ones() {
    assert_eq!(
        anchor_lang::prelude::Pubkey::from_str("sbattyXrzedoNATfc4L31wC9Mhxsi1BmFhTiN8gDshx")
            .unwrap()
            .to_bytes(),
        ATTESTATION_PROGRAM_ID
    );
    assert_eq!(
        anchor_lang::prelude::Pubkey::from_str("SW1TCH7qEPTdLsDHRgPuMQjbQxKdH2aBStViMFnt64f")
            .unwrap()
            .to_bytes(),
        SWITCHBOARD_PROGRAM_ID
    );
    assert_eq!(anchor_spl::token::ID.to_bytes(), TOKEN_PROGRAM_ID);
    assert_eq!(anchor_spl::token::spl_token::native_mint::ID.to_bytes(), NATIVE_MINT_ID);
    assert_eq!(attestation_program_id().bytes, ATTESTATION_PROGRAM_ID);
    assert_eq!(switchboard_program_id().bytes, SWITCHBOARD_PROGRAM_ID);
    assert_eq!(token_program_id().bytes, TOKEN_PROGRAM_ID);
    assert_eq!(native_mint_id().bytes, NATIVE_MINT_ID);
}

#[test]
fn seeds_and_tags_are_the_known_ones() {
    assert_eq!(&QUOTE_SEED, b"QuoteAccountData");
    assert_eq!(&STATE_SEED, b"STATE");
    assert_eq!(&PERMISSION_SEED, b"PermissionAccountData");
    assert_eq!(QUOTE_TAG, [205, 205, 167, 232, 0, 74, 44, 160]);
    assert_eq!(FUNCTION_REQUEST_CLOSE_TAG, [5, 221, 34, 111, 136, 82, 119, 101]);
    assert_eq!(WALLET_FUND_TAG, [93, 170, 44, 19, 223, 172, 40, 164]);
    assert_eq!(
        FUNCTION_VERIFY_TAG.to_vec(),
        anchor_lang::solana_program::hash::hash(b"global:function_verify").to_bytes()[..8].to_vec()
    );
    assert_eq!(
        FUNCTION_REQUEST_VERIFY_TAG.to_vec(),
        anchor_lang::solana_program::hash::hash(b"global:function_request_verify").to_bytes()[..8]
            .to_vec()
    );
}

#[test]
fn seed_lists_hold_the_domain_then_the_keys() {
    let seeds = build_seeds(b"abc", &vec![key(1), key(2)]);
    assert_eq!(seeds, vec![b"abc".to_vec(), vec![1u8; 32], vec![2u8; 32]]);
    assert_eq!(build_seeds(b"", &vec![]), vec![Vec::<u8>::new()]);
}

#[test]
fn derive_agrees_with_the_ledger() {
    let program = attestation_program_id();
    let keys = vec![key(7)];
    let mut seen_ok = 0;
    let mut seen_err = 0;
    for bump in 200u8..=255 {
        let bump_seed = [bump];
        let expected = anchor_lang::prelude::Pubkey::create_program_address(
            &[&QUOTE_SEED[..], &[7u8; 32][..], &bump_seed[..]],
            &outside(&program),
        );
        let got = derive_address(&QUOTE_SEED, &keys, bump, &program);
        match expected {
            Ok(k) => {
                seen_ok += 1;
                assert_eq!(got, Ok(Pubkey::new_from_array(k.to_bytes())));
            }
            Err(_) => {
                seen_err += 1;
                assert_eq!(got, Err(SwitchboardError::AddressDerivationFailure));
            }
        }
    }
    assert!(seen_ok > 0);
    assert!(seen_err > 0);
}

#[test]
fn derive_is_a_function_of_its_inputs() {
    let program = attestation_program_id();
    let (_, bump) = find(&STATE_SEED, &vec![], &program).unwrap();
    let first = derive_address(&STATE_SEED, &vec![], bump, &program);
    let second = derive_address(&STATE_SEED.to_vec(), &Vec::new(), bump, &attestation_program_id());
    assert!(first.is_ok());
    assert_eq!(first, second);
    // another program, another domain or another key gives another address
    assert_ne!(derive_address(&STATE_SEED, &vec![], bump, &token_program_id()), first);
    let (a, bump_a) = find(&QUOTE_SEED, &vec![key(1)], &program).unwrap();
    let (b, _) = find(&QUOTE_SEED, &vec![key(2)], &program).unwrap();
    assert_ne!(a, b);
    assert_eq!(derive_address(&QUOTE_SEED, &vec![key(1)], bump_a, &program), Ok(a));
}

#[test]
fn derive_refuses_seeds_over_the_limits() {
    let program = attestation_program_id();
    let long = [1u8; 33];
    for bump in 0u8..=255 {
        assert_eq!(
            derive_address(&long, &vec![], bump, &program),
            Err(SwitchboardError::AddressDerivationFailure)
        );
    }
    let many: Vec<Pubkey> = (0..16u8).map(key).collect();
    assert_eq!(
        derive_address(b"x", &many, 255, &program),
        Err(SwitchboardError::AddressDerivationFailure)
    );
    assert_eq!(find(&long, &vec![], &program), Err(SwitchboardError::AddressDerivationFailure));
}

#[test]
fn find_agrees_with_the_ledger() {
    let program = attestation_program_id();
    for n in 0u8..20 {
        let (expected, expected_bump) = anchor_lang::prelude::Pubkey::find_program_address(
            &[&PERMISSION_SEED[..], &[n; 32][..], &[n + 1; 32][..], &[n + 2; 32][..]],
            &outside(&program),
        );
        let (got, bump) =
            find(&PERMISSION_SEED, &vec![key(n), key(n + 1), key(n + 2)], &program).unwrap();
        assert_eq!(got.bytes, expected.to_bytes());
        assert_eq!(bump, expected_bump);
        assert_eq!(
            AttestationPermissionAccountData::get_pda(&key(n), &key(n + 1), &key(n + 2)),
            Ok(got)
        );
        for higher in (bump as u16 + 1)..=255 {
            assert_eq!(
                derive_address(
                    &PERMISSION_SEED,
                    &vec![key(n), key(n + 1), key(n + 2)],
                    higher as u8,
                    &program
                ),
                Err(SwitchboardError::AddressDerivationFailure)
            );
        }
    }
}

#[test]
fn an_incorrect_bump_is_rejected_not_corrected() {
    let program = attestation_program_id();
    let keys = vec![key(9)];
    let (address, bump) = find(&QUOTE_SEED, &keys, &program).unwrap();
    assert_eq!(check_derived(&address, &QUOTE_SEED, &keys, bump, &program), Ok(()));
    for wrong in 0u8..=255 {
        if wrong != bump {
            assert_eq!(
                check_derived(&address, &QUOTE_SEED, &keys, wrong, &program),
                Err(SwitchboardError::AddressDerivationFailure)
            );
        }
    }
    assert_eq!(
        check_derived(&key(1), &QUOTE_SEED, &keys, bump, &program),
        Err(SwitchboardError::AddressDerivationFailure)
    );
}

#[test]
fn quote_address_follows_from_function_and_bump() {
    let program = attestation_program_id();
    let function = key(11);
    let (address, bump) = find(&QUOTE_SEED, &vec![function], &program).unwrap();
    let quote = QuoteAccountData::create(bump, key(1), [2u8; 32], key(3), 0);
    assert_eq!(quote.get_pda_pubkey(&function), Ok(address));
    let expected = anchor_lang::prelude::Pubkey::create_program_address(
        &[b"QuoteAccountData", &[11u8; 32], &[bump]],
        &outside(&program),
    )
    .unwrap();
    assert_eq!(address.bytes, expected.to_bytes());
    assert_ne!(quote.get_pda_pubkey(&key(12)), Ok(address));
    if bump < 255 {
        let higher = QuoteAccountData::create(bump + 1, key(1), [2u8; 32], key(3), 0);
        assert_eq!(
            higher.get_pda_pubkey(&function),
            Err(SwitchboardError::AddressDerivationFailure)
        );
    }
}

#[test]
fn wallet_address_follows_from_mint_queue_authority_and_name() {
    let program = attestation_program_id();
    let name = [b'w'; 32];
    let (expected, bump) = anchor_lang::prelude::Pubkey::find_program_address(
        &[&[1u8; 32][..], &[2u8; 32][..], &[3u8; 32][..], &name[..]],
        &outside(&program),
    );
    let wallet = SwitchboardWallet::create(bump, key(1), key(2), key(3), name, key(5));
    assert_eq!(wallet.get_pda_pubkey(), Ok(Pubkey::new_from_array(expected.to_bytes())));
}
