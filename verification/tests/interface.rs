use hookswap::hook_interface::{build_meta_list, literal_seed, ExtraAccountMeta, InterfaceError, Seed};
use hookswap::host::{AccountMeta, Instruction};
use hookswap::pubkey::Pubkey;
use hookswap::token_program::is_token_2022_program;
use spl_tlv_account_resolution::state::ExtraAccountMetaList;
use spl_transfer_hook_interface::instruction::ExecuteInstruction;

#[test]
fn a_literal_seed_holds_the_bytes() {
    assert_eq!(literal_seed(b"kyc_system"), Seed::Literal { bytes: b"kyc_system".to_vec() });
    assert_eq!(literal_seed(&[]), Seed::Literal { bytes: vec![] });
}

#[test]
fn an_empty_list_of_extra_accounts_is_written() {
    let data = build_meta_list(&vec![]).unwrap();
    let mut expected = vec![0u8; ExtraAccountMetaList::size_of(0).unwrap()];
    ExtraAccountMetaList::init::<ExecuteInstruction>(&mut expected, &[]).unwrap();
    assert_eq!(data, expected);
    assert_eq!(data.len(), 16);
}

#[test]
fn a_list_of_extra_accounts_holds_each_account() {
    let first = ExtraAccountMeta { discriminator: 0, address_config: [7u8; 32], is_signer: false, is_writable: true };
    let second = ExtraAccountMeta { discriminator: 1, address_config: [9u8; 32], is_signer: true, is_writable: false };
    let data: Result<Vec<u8>, InterfaceError> = build_meta_list(&vec![first, second]);
    let data = data.unwrap();
    assert_eq!(data.len(), 16 + 2 * 35);
    assert_eq!(&data[12..16], &[2, 0, 0, 0]);
    assert_eq!(data[16], 0);
    assert_eq!(&data[17..49], &[7u8; 32]);
    assert_eq!(&data[49..51], &[0, 1]);
    assert_eq!(data[51], 1);
    assert_eq!(&data[52..84], &[9u8; 32]);
    assert_eq!(&data[84..86], &[1, 0]);
}

#[test]
fn only_the_token_program_is_the_token_program() {
    let id = Pubkey::new_from_array(spl_token_2022::id().to_bytes());
    assert!(is_token_2022_program(&id));
    let mut bytes = id.to_bytes();
    bytes[31] ^= 1;
    assert!(!is_token_2022_program(&Pubkey::new_from_array(bytes)));
    assert!(!is_token_2022_program(&Pubkey::new_from_array([0u8; 32])));
}

#[test]
fn instructions_compare_by_their_content() {
    let meta = AccountMeta { pubkey: Pubkey::new_from_array([1u8; 32]), is_signer: true, is_writable: false };
    let a = Instruction { program_id: Pubkey::new_from_array([2u8; 32]), accounts: vec![meta], data: vec![1, 2] };
    let mut b = a.clone();
    assert_eq!(a, b);
    b.data.push(3);
    assert_ne!(a, b);
}
