use anchor_lang::prelude::Pubkey;
use vote_escrow::address::Address;
use vote_escrow::authority;
use vote_escrow::authority::{treasurer, treasurer_namespace, AuthorityProof};

fn address(byte: u8) -> Address {
    Address::new([byte; 32])
}

#[test]
fn address_keeps_its_bytes() {
    let mut bytes = [0u8; 32];
    bytes[0] = 7;
    bytes[31] = 9;
    let a = Address::new(bytes);
    assert_eq!(a.to_bytes(), bytes);
    assert_eq!(a, Address::new(bytes));
}

#[test]
fn addresses_differ_in_any_byte() {
    let a = address(1);
    for i in 0..32 {
        let mut bytes = [1u8; 32];
        bytes[i] = 2;
        assert_ne!(a, Address::new(bytes));
    }
}

#[test]
fn treasurer_namespace_spells_treasurer() {
    assert_eq!(treasurer_namespace(), b"treasurer".to_vec());
}

#[test]
fn derivation_gives_the_same_result_on_every_call() {
    let candidate = address(11);
    let program = address(42);
    let first = authority::derive(b"treasurer", &candidate, &program);
    let second = authority::derive(b"treasurer", &candidate, &program);
    assert!(first.is_some());
    assert_eq!(first, second);
    assert_eq!(treasurer(&candidate, &program), first);
}

#[test]
fn derivation_agrees_with_the_host_search() {
    let candidate = address(11);
    let program = address(42);
    let found = authority::derive(b"treasurer", &candidate, &program).unwrap();
    let (key, bump) = Pubkey::find_program_address(
        &[b"treasurer", &candidate.to_bytes()],
        &Pubkey::new_from_array(program.to_bytes()),
    );
    assert_eq!(found.address.to_bytes(), key.to_bytes());
    assert_eq!(found.bump, bump);
    let again = Pubkey::create_program_address(
        &[b"treasurer", &candidate.to_bytes(), &[found.bump]],
        &Pubkey::new_from_array(program.to_bytes()),
    )
    .unwrap();
    assert_eq!(again.to_bytes(), found.address.to_bytes());
}

#[test]
fn derived_address_is_none_of_its_inputs() {
    let candidate = address(11);
    let program = address(42);
    let found = authority::derive(b"treasurer", &candidate, &program).unwrap();
    assert_ne!(found.address, candidate);
    assert_ne!(found.address, program);
}

#[test]
fn derivation_depends_on_every_input() {
    let candidate = address(11);
    let program = address(42);
    let found = authority::derive(b"treasurer", &candidate, &program).unwrap();
    assert_ne!(authority::derive(b"ballot", &candidate, &program).unwrap().address, found.address);
    assert_ne!(authority::derive(b"treasurer", &address(12), &program).unwrap().address, found.address);
    assert_ne!(authority::derive(b"treasurer", &candidate, &address(43)).unwrap().address, found.address);
}

#[test]
fn derivation_finds_nothing_for_a_namespace_that_is_too_long() {
    let namespace = [b'x'; 33];
    assert_eq!(authority::derive(&namespace, &address(11), &address(42)), None);
    let longest = [b'x'; 32];
    assert!(authority::derive(&longest, &address(11), &address(42)).is_some());
}

#[test]
fn proof_opens_only_its_own_authority() {
    let candidate = address(11);
    let program = address(42);
    let found = treasurer(&candidate, &program).unwrap();
    let proof = AuthorityProof { namespace: treasurer_namespace(), id: candidate, bump: found.bump };
    assert!(proof.opens(&found.address, &program));
    assert!(!proof.opens(&address(5), &program));
    assert!(!proof.opens(&found.address, &address(43)));
    let wrong_bump = AuthorityProof {
        namespace: treasurer_namespace(),
        id: candidate,
        bump: found.bump.wrapping_sub(1),
    };
    assert!(!wrong_bump.opens(&found.address, &program));
    let wrong_id =
        AuthorityProof { namespace: treasurer_namespace(), id: address(12), bump: found.bump };
    assert!(!wrong_id.opens(&found.address, &program));
    assert!(proof.opens_with(&found.address, Some(found)));
    assert!(!proof.opens_with(&found.address, None));
}
