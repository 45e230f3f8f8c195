use anchor_lang::solana_program::program_pack::Pack;
use hookswap::host::{AccountMeta, AccountView, Instruction};
use hookswap::pubkey::Pubkey;
use hookswap::token_layer::{
    check_transfer_hook_extension, create_basic_token_2022, create_token_2022_with_hooks, get_token_info,
    initialize, mint_tokens, TokenInfo, TokenLayerError, TokenSummary,
};
use hookswap::token_program::{MINT_LEN, MINT_WITH_TRANSFER_HOOK_LEN};

fn key(b: u8) -> Pubkey {
    Pubkey::new_from_array([b; 32])
}

fn outside(k: &Pubkey) -> anchor_lang::prelude::Pubkey {
    anchor_lang::prelude::Pubkey::new_from_array(k.to_bytes())
}

fn token_program() -> Pubkey {
    Pubkey::new_from_array(spl_token_2022::id().to_bytes())
}

fn converted(theirs: &anchor_lang::solana_program::instruction::Instruction) -> Instruction {
    Instruction {
        program_id: Pubkey::new_from_array(theirs.program_id.to_bytes()),
        accounts: theirs
            .accounts
            .iter()
            .map(|a| AccountMeta {
                pubkey: Pubkey::new_from_array(a.pubkey.to_bytes()),
                is_signer: a.is_signer,
                is_writable: a.is_writable,
            })
            .collect(),
        data: theirs.data.clone(),
    }
}

#[test]
fn the_layer_starts_without_setup() {
    assert_eq!(initialize(), Ok(()));
    assert_eq!(TokenInfo::SPACE, 215);
}

#[test]
fn the_mint_sizes_are_those_of_the_token_crate() {
    assert_eq!(MINT_LEN, spl_token_2022::state::Mint::LEN);
    assert_eq!(
        MINT_WITH_TRANSFER_HOOK_LEN,
        spl_token_2022::extension::ExtensionType::try_calculate_account_len::<spl_token_2022::state::Mint>(&[
            spl_token_2022::extension::ExtensionType::TransferHook
        ])
        .unwrap()
    );
}

#[test]
fn a_token_with_hooks_takes_three_instructions() {
    let creation = create_token_2022_with_hooks(
        key(1),
        key(2),
        key(3),
        2_000_000,
        String::from("Hooked"),
        String::from("HKD"),
        6,
        key(4),
        1_000,
        55,
    )
    .unwrap();
    assert_eq!(
        creation.token_info,
        TokenInfo {
            name: String::from("Hooked"),
            symbol: String::from("HKD"),
            decimals: 6,
            mint: key(1),
            hook_program_id: Some(key(4)),
            created_at: 55,
            creator: key(2),
            total_supply: 1_000,
            has_transfer_hooks: true,
            token_program_id: token_program(),
        }
    );
    let create = anchor_lang::solana_program::system_instruction::create_account(
        &outside(&key(3)),
        &outside(&key(1)),
        2_000_000,
        234,
        &spl_token_2022::id(),
    );
    let init_hook = spl_token_2022::extension::transfer_hook::instruction::initialize(
        &spl_token_2022::id(),
        &outside(&key(1)),
        Some(outside(&key(2))),
        Some(outside(&key(4))),
    )
    .unwrap();
    let init_mint = spl_token_2022::instruction::initialize_mint2(
        &spl_token_2022::id(),
        &outside(&key(1)),
        &outside(&key(2)),
        Some(&outside(&key(2))),
        6,
    )
    .unwrap();
    assert_eq!(creation.instructions, vec![converted(&create), converted(&init_hook), converted(&init_mint)]);
}

#[test]
fn a_hook_program_without_an_address_is_refused() {
    let refused = create_token_2022_with_hooks(
        key(1),
        key(2),
        key(3),
        2_000_000,
        String::from("Hooked"),
        String::from("HKD"),
        6,
        key(0),
        1_000,
        55,
    );
    assert_eq!(refused, Err(TokenLayerError::HookSetupFailed));
}

#[test]
fn a_basic_token_takes_two_instructions() {
    let creation = create_basic_token_2022(
        key(1),
        key(2),
        key(3),
        1_500_000,
        String::from("Plain"),
        String::from("PLN"),
        9,
        7,
        56,
    )
    .unwrap();
    assert_eq!(
        creation.token_info,
        TokenInfo {
            name: String::from("Plain"),
            symbol: String::from("PLN"),
            decimals: 9,
            mint: key(1),
            hook_program_id: None,
            created_at: 56,
            creator: key(2),
            total_supply: 7,
            has_transfer_hooks: false,
            token_program_id: token_program(),
        }
    );
    let create = anchor_lang::solana_program::system_instruction::create_account(
        &outside(&key(3)),
        &outside(&key(1)),
        1_500_000,
        82,
        &spl_token_2022::id(),
    );
    let init_mint = spl_token_2022::instruction::initialize_mint2(
        &spl_token_2022::id(),
        &outside(&key(1)),
        &outside(&key(2)),
        Some(&outside(&key(2))),
        9,
    )
    .unwrap();
    assert_eq!(creation.instructions, vec![converted(&create), converted(&init_mint)]);
}

#[test]
fn minting_is_the_mint_to_of_the_token_program() {
    let ix = mint_tokens(key(1), key(8), key(2), 123_456).unwrap();
    let theirs = spl_token_2022::instruction::mint_to(
        &spl_token_2022::id(),
        &outside(&key(1)),
        &outside(&key(8)),
        &outside(&key(2)),
        &[],
        123_456,
    )
    .unwrap();
    assert_eq!(ix, converted(&theirs));
    assert_eq!(ix.program_id, token_program());
    assert_eq!(ix.accounts.len(), 3);
}

#[test]
fn a_mint_longer_than_a_plain_mint_is_taken_to_hold_a_hook() {
    let mint = |len: usize| AccountView { key: key(1), owner: token_program(), executable: false, data: vec![0u8; len] };
    assert!(!check_transfer_hook_extension(&mint(0)));
    assert!(!check_transfer_hook_extension(&mint(82)));
    assert!(check_transfer_hook_extension(&mint(83)));
    assert!(check_transfer_hook_extension(&mint(234)));
}

#[test]
fn the_token_report_leaves_out_the_time() {
    let creation = create_basic_token_2022(
        key(1),
        key(2),
        key(3),
        1_500_000,
        String::from("Plain"),
        String::from("PLN"),
        9,
        7,
        56,
    )
    .unwrap();
    assert_eq!(
        get_token_info(&creation.token_info),
        TokenSummary {
            name: String::from("Plain"),
            symbol: String::from("PLN"),
            decimals: 9,
            mint: key(1),
            hook_program_id: None,
            creator: key(2),
            total_supply: 7,
            has_transfer_hooks: false,
            token_program_id: token_program(),
        }
    );
}

#[test]
fn the_instructions_of_a_creation_name_their_accounts() {
    let creation = create_token_2022_with_hooks(
        key(1),
        key(2),
        key(3),
        2_000_000,
        String::from("Hooked"),
        String::from("HKD"),
        6,
        key(4),
        1_000,
        55,
    )
    .unwrap();
    let meta = |b: u8, is_signer: bool, is_writable: bool| AccountMeta { pubkey: key(b), is_signer, is_writable };
    assert_eq!(creation.instructions[0].program_id, Pubkey::new_from_array([0u8; 32]));
    assert_eq!(creation.instructions[0].accounts, vec![meta(3, true, true), meta(1, true, true)]);
    assert_eq!(creation.instructions[1].program_id, token_program());
    assert_eq!(creation.instructions[1].accounts, vec![meta(1, false, true)]);
    assert_eq!(creation.instructions[2].program_id, token_program());
    assert_eq!(creation.instructions[2].accounts, vec![meta(1, false, true)]);
    let mint_to = mint_tokens(key(1), key(8), key(2), 5).unwrap();
    assert_eq!(mint_to.accounts, vec![meta(1, false, true), meta(8, false, true), meta(2, true, false)]);
}

#[test]
fn a_basic_token_and_a_minting_are_never_refused() {
    for b in [0u8, 1, 255] {
        assert!(create_basic_token_2022(key(b), key(b), key(b), 0, String::new(), String::new(), b, 0, 0).is_ok());
        assert!(mint_tokens(key(b), key(b), key(b), u64::MAX).is_ok());
    }
}

#[test]
fn the_instructions_of_a_creation_hold_their_arguments() {
    let creation = create_token_2022_with_hooks(
        key(1),
        key(2),
        key(3),
        0x0102_0304_0506_0708,
        String::from("Hooked"),
        String::from("HKD"),
        6,
        key(4),
        1_000,
        55,
    )
    .unwrap();
    let mut create = vec![0u8, 0, 0, 0];
    create.extend_from_slice(&[8, 7, 6, 5, 4, 3, 2, 1]);
    create.extend_from_slice(&[234, 0, 0, 0, 0, 0, 0, 0]);
    create.extend_from_slice(&spl_token_2022::id().to_bytes());
    assert_eq!(creation.instructions[0].data, create);
    let mut init_hook = vec![36u8, 0];
    init_hook.extend_from_slice(&[2u8; 32]);
    init_hook.extend_from_slice(&[4u8; 32]);
    assert_eq!(creation.instructions[1].data, init_hook);
    let mut init_mint = vec![20u8, 6];
    init_mint.extend_from_slice(&[2u8; 32]);
    init_mint.push(1);
    init_mint.extend_from_slice(&[2u8; 32]);
    assert_eq!(creation.instructions[2].data, init_mint);
    let mint_to = mint_tokens(key(1), key(8), key(2), 0x0a0b).unwrap();
    assert_eq!(mint_to.data, vec![7u8, 0x0b, 0x0a, 0, 0, 0, 0, 0, 0]);
}

#[test]
fn an_authority_without_an_address_is_refused() {
    let refused = create_token_2022_with_hooks(
        key(1),
        key(0),
        key(3),
        2_000_000,
        String::from("Hooked"),
        String::from("HKD"),
        6,
        key(4),
        1_000,
        55,
    );
    assert_eq!(refused, Err(TokenLayerError::HookSetupFailed));
    let mut almost = [0u8; 32];
    almost[31] = 1;
    let accepted = create_token_2022_with_hooks(
        key(1),
        Pubkey::new_from_array(almost),
        key(3),
        2_000_000,
        String::from("Hooked"),
        String::from("HKD"),
        6,
        Pubkey::new_from_array(almost),
        1_000,
        55,
    );
    assert!(accepted.is_ok());
}
