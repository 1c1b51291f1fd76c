use ecomm::account::AccountHandle;
use ecomm::deriver::{derive_address, resolve, Namespace, SeedProof};
use ecomm::error::ProtocolError;
use ecomm::ecomm_contract::{get_address_pda, get_user_profile_pda};
use ecomm::identity::Identity;
use solana_program::pubkey::Pubkey;

fn deriver_id(seed: u8) -> Identity {
    let mut bytes = [0u8; 32];
    for (i, b) in bytes.iter_mut().enumerate() {
        *b = seed.wrapping_mul(17).wrapping_add(i as u8);
    }
    Identity::new(bytes)
}

fn deriver_account(key: Identity) -> AccountHandle {
    AccountHandle { key, owner: deriver_id(200), is_signer: true, data: Vec::new() }
}

#[test]
fn namespace_tags_spell_their_names() {
    assert_eq!(&Namespace::Address.tag_bytes(), b"address");
    assert_eq!(&Namespace::Profile.tag_bytes(), b"profile");
}

#[test]
fn derivation_is_repeatable() {
    for seed in 0..8u8 {
        let owner = deriver_id(seed);
        let program = deriver_id(seed.wrapping_add(100));
        for namespace in [Namespace::Address, Namespace::Profile] {
            let first = derive_address(namespace, &owner, &program);
            let second = derive_address(namespace, &owner, &program);
            assert!(first.is_ok());
            assert_eq!(first, second);
        }
    }
}

#[test]
fn derivation_follows_the_outside_search() {
    for seed in 0..8u8 {
        let owner = deriver_id(seed);
        let program = deriver_id(seed.wrapping_add(50));
        let (address, bump) = derive_address(Namespace::Address, &owner, &program).unwrap();
        let (expected, expected_bump) = Pubkey::find_program_address(
            &[b"address", &owner.bytes],
            &Pubkey::new_from_array(program.bytes),
        );
        assert_eq!(address.bytes, expected.to_bytes());
        assert_eq!(bump, expected_bump);
        assert_ne!(address, owner);
        assert_ne!(address, program);

        let (profile, profile_bump) = derive_address(Namespace::Profile, &owner, &program).unwrap();
        let (expected, expected_bump) = Pubkey::find_program_address(
            &[b"profile", &owner.bytes],
            &Pubkey::new_from_array(program.bytes),
        );
        assert_eq!(profile.bytes, expected.to_bytes());
        assert_eq!(profile_bump, expected_bump);
        assert_ne!(profile, address);
    }
}

#[test]
fn seeds_with_the_bump_lead_back_to_the_address() {
    let owner = deriver_id(3);
    let program = deriver_id(4);
    let (address, bump) = derive_address(Namespace::Profile, &owner, &program).unwrap();
    let again = Pubkey::create_program_address(
        &[b"profile", &owner.bytes, &[bump]],
        &Pubkey::new_from_array(program.bytes),
    )
    .unwrap();
    assert_eq!(again.to_bytes(), address.bytes);
}

#[test]
fn derived_addresses_are_off_the_curve() {
    for seed in 0..16u8 {
        let owner = deriver_id(seed);
        let program = deriver_id(seed.wrapping_add(77));
        for namespace in [Namespace::Address, Namespace::Profile] {
            let (address, _) = derive_address(namespace, &owner, &program).unwrap();
            assert!(!address.is_on_curve());
            assert!(!Pubkey::new_from_array(address.bytes).is_on_curve());
        }
    }
}

#[test]
fn curve_test_tells_points_from_other_bytes() {
    let mut base_point = [0x66u8; 32];
    base_point[0] = 0x58;
    assert!(Identity::new(base_point).is_on_curve());
    let mut on = 0;
    let mut off = 0;
    for seed in 0..64u8 {
        let id = deriver_id(seed);
        let expected = Pubkey::new_from_array(id.bytes).is_on_curve();
        assert_eq!(id.is_on_curve(), expected);
        if expected {
            on += 1;
        } else {
            off += 1;
        }
    }
    assert!(on > 0);
    assert!(off > 0);
}

#[test]
fn derivation_depends_on_owner_and_program() {
    let owner = deriver_id(1);
    let other_owner = deriver_id(2);
    let program = deriver_id(9);
    let other_program = deriver_id(10);
    let base = derive_address(Namespace::Address, &owner, &program).unwrap();
    assert_ne!(base.0, derive_address(Namespace::Address, &other_owner, &program).unwrap().0);
    assert_ne!(base.0, derive_address(Namespace::Address, &owner, &other_program).unwrap().0);
}

#[test]
fn pda_helpers_derive_for_the_account_key() {
    let owner = deriver_id(21);
    let program = deriver_id(22);
    let account = deriver_account(owner);
    assert_eq!(get_address_pda(&account, &program), derive_address(Namespace::Address, &owner, &program));
    assert_eq!(
        get_user_profile_pda(&account, &program),
        derive_address(Namespace::Profile, &owner, &program)
    );
    let mut signed_elsewhere = deriver_account(owner);
    signed_elsewhere.is_signer = false;
    signed_elsewhere.owner = deriver_id(1);
    signed_elsewhere.data = vec![1, 2, 3];
    assert_eq!(get_address_pda(&signed_elsewhere, &program), get_address_pda(&account, &program));
}

#[test]
fn identities_compare_by_all_their_bytes() {
    let a = deriver_id(5);
    let mut b = a;
    assert!(a.same_as(&b));
    assert_eq!(a, b);
    b.bytes[31] ^= 1;
    assert!(!a.same_as(&b));
    assert_ne!(a, b);
    let mut c = a;
    c.bytes[0] ^= 0x80;
    assert!(!a.same_as(&c));
}

#[test]
fn search_outcomes_become_answers() {
    let mut bytes = [0u8; 32];
    bytes[0] = 1;
    bytes[31] = 2;
    assert_eq!(resolve(Some((bytes, 255))), Ok((Identity::new(bytes), 255)));
    assert_eq!(resolve(Some(([0u8; 32], 0))), Ok((Identity::new([0u8; 32]), 0)));
    assert_eq!(resolve(None), Err(ProtocolError::NoValidAddressFound));
}

#[test]
fn seeds_prove_authority_over_their_address_only() {
    let owner = deriver_id(40);
    let program = deriver_id(41);
    for namespace in [Namespace::Address, Namespace::Profile] {
        let (address, bump) = derive_address(namespace, &owner, &program).unwrap();
        let proof = SeedProof { namespace, owner, bump };
        assert!(proof.authorizes(&program, &address));
        assert!(!proof.authorizes(&program, &owner));
        assert!(!proof.authorizes(&deriver_id(42), &address));
        let other = SeedProof { namespace, owner: deriver_id(43), bump };
        assert!(!other.authorizes(&program, &address));
        let expected = Pubkey::create_program_address(
            &[&namespace.tag_bytes()[..], &owner.bytes, &[bump]],
            &Pubkey::new_from_array(program.bytes),
        )
        .unwrap();
        assert_eq!(expected.to_bytes(), address.bytes);
    }
    let (address, bump) = derive_address(Namespace::Address, &owner, &program).unwrap();
    let swapped = SeedProof { namespace: Namespace::Profile, owner, bump };
    assert!(!swapped.authorizes(&program, &address));
}

#[test]
fn seeds_that_lead_to_a_curve_point_prove_nothing() {
    let owner = deriver_id(44);
    let program = deriver_id(45);
    let mut refused = 0;
    for bump in 0..=255u8 {
        let proof = SeedProof { namespace: Namespace::Address, owner, bump };
        let led_to = Pubkey::create_program_address(
            &[b"address", &owner.bytes, &[bump]],
            &Pubkey::new_from_array(program.bytes),
        );
        match led_to {
            Ok(key) => {
                assert!(proof.authorizes(&program, &Identity::new(key.to_bytes())));
                assert!(!Identity::new(key.to_bytes()).is_on_curve());
            }
            Err(_) => {
                refused += 1;
                assert!(!proof.authorizes(&program, &owner));
            }
        }
    }
    assert!(refused > 0);
}
