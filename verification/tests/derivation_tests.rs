use count::derivation::derive_address;

#[test]
fn derive_twice_yields_identical_pair() {
    let program_id = [11u8; 32];
    let first = derive_address(&program_id).expect("derivation should succeed");
    let second = derive_address(&program_id).expect("derivation should succeed");
    assert_eq!(first, second);
}

#[test]
fn derived_address_is_not_the_program_id() {
    let program_id = [11u8; 32];
    let (address, _bump) = derive_address(&program_id).expect("derivation should succeed");
    assert_ne!(address, program_id);
}

#[test]
fn derived_address_is_off_curve() {
    let program_id = [11u8; 32];
    let (address, _bump) = derive_address(&program_id).expect("derivation should succeed");
    let key = solana_pubkey::Pubkey::new_from_array(address);
    assert!(!key.is_on_curve());
}

#[test]
fn derivation_matches_the_host_search() {
    let program_id = [11u8; 32];
    let (address, bump) = derive_address(&program_id).expect("derivation should succeed");
    let pid = solana_pubkey::Pubkey::new_from_array(program_id);
    let (expected, expected_bump) =
        solana_pubkey::Pubkey::find_program_address(&[b"counter"], &pid);
    assert_eq!(address, expected.to_bytes());
    assert_eq!(bump, expected_bump);
}
