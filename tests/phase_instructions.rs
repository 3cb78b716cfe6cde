use solana_program::bpf_loader_upgradeable as loader;
use solana_cli::instructions::{
    buffer_rent_size, create_buffer, deploy, program_rent_size, set_buffer_authority,
    set_program_authority,
};
use solana_program::pubkey::Pubkey;

#[test]
fn rent_sizes() {
    assert_eq!(buffer_rent_size(100), 145);
    assert_eq!(buffer_rent_size(0), 45);
    assert_eq!(buffer_rent_size(usize::MAX - 1), usize::MAX);
    assert_eq!(program_rent_size(), 36);
}

#[test]
fn allocate_and_finalize_have_two_instructions() {
    let payer = Pubkey::new_from_array([1; 32]);
    let buffer = Pubkey::new_from_array([2; 32]);
    let program = Pubkey::new_from_array([3; 32]);
    let ixs = create_buffer(&payer, &buffer, &payer, 1_000_000, 4096).unwrap();
    assert_eq!(ixs.len(), 2);
    assert_eq!(ixs[1].program_id, solana_program::bpf_loader_upgradeable::id());
    let ixs = deploy(&payer, &program, &buffer, 2_000_000, 8192).unwrap();
    assert_eq!(ixs.len(), 2);
}

#[test]
fn authority_transfers_have_one_instruction() {
    let a = Pubkey::new_from_array([1; 32]);
    let b = Pubkey::new_from_array([2; 32]);
    let c = Pubkey::new_from_array([3; 32]);
    assert_eq!(set_buffer_authority(&a, &b, &c).len(), 1);
    let ixs = set_program_authority(&a, &b, &c);
    assert_eq!(ixs.len(), 1);
    assert!(ixs[0].accounts.iter().any(|m| m.pubkey == c));
}

#[test]
fn instructions_are_the_loaders() {
    let a = Pubkey::new_from_array([1; 32]);
    let b = Pubkey::new_from_array([2; 32]);
    let c = Pubkey::new_from_array([3; 32]);
    assert_eq!(create_buffer(&a, &b, &c, 5, 100).unwrap(), loader::create_buffer(&a, &b, &c, 5, 100).unwrap());
    assert_eq!(deploy(&a, &b, &c, 7, 300).unwrap(), loader::deploy_with_max_program_len(&a, &b, &c, &a, 7, 300).unwrap());
    assert_eq!(set_buffer_authority(&a, &b, &c), vec![loader::set_buffer_authority(&a, &b, &c)]);
    assert_eq!(set_program_authority(&a, &b, &c), vec![loader::set_upgrade_authority(&a, &b, Some(&c))]);
}
