//! The token layer: the instructions that create a mint of the token
//! program, with or without a transfer hook, and the record that is kept
//! of it.

use vstd::prelude::*;
use crate::host::{AccountView, Instruction};
use crate::pubkey::Pubkey;
use crate::host::{writable, writable_signer};
use crate::token_program::{
    create_account, create_account_instruction, initialize_mint2, initialize_mint2_instruction,
    initialize_transfer_hook, initialize_transfer_hook_instruction, is_null_key, is_system_program,
    is_token_2022, mint_base_len, mint_len_with_transfer_hook, mint_to, mint_to_accounts,
    mint_to_instruction, token_2022_id, MINT_LEN, MINT_WITH_TRANSFER_HOOK_LEN,
};

verus! {

/// Why an instruction of the token layer is refused.
#[derive(Clone, Copy, Debug, PartialEq, Eq, Structural)]
pub enum TokenLayerError {
    /// Invalid token program ID
    InvalidTokenProgram,
    /// Invalid hook program
    InvalidHookProgram,
    /// Token creation failed
    TokenCreationFailed,
    /// Hook setup failed
    HookSetupFailed,
    /// Extension initialization failed
    ExtensionInitializationFailed,
    /// Failed to parse mint extensions
    ExtensionParsingFailed,
}

/// What the layer records of a token that it created.
#[derive(Debug, PartialEq, Eq)]
pub struct TokenInfo {
    pub name: String,
    pub symbol: String,
    pub decimals: u8,
    pub mint: Pubkey,
    pub hook_program_id: Option<Pubkey>,
    pub created_at: i64,
    pub creator: Pubkey,
    pub total_supply: u64,
    pub has_transfer_hooks: bool,
    pub token_program_id: Pubkey,
}

impl TokenInfo {
    /// Bytes that the record takes in an account.
    pub const SPACE: usize = 215;
}

/// The record of a new token, and the instructions that create its mint,
/// in the order in which they are to be invoked.
#[derive(Debug, PartialEq, Eq)]
pub struct TokenCreation {
    pub token_info: TokenInfo,
    pub instructions: Vec<Instruction>,
}

/// Starts the layer.  There is nothing to set up.
pub fn initialize() -> (r: Result<(), TokenLayerError>)
    ensures
        r is Ok,
{
    Ok(())
}

/// The record of a token.
pub open spec fn token_record(
    name: String,
    symbol: String,
    decimals: u8,
    mint: Pubkey,
    hook_program_id: Option<Pubkey>,
    now: i64,
    creator: Pubkey,
    total_supply: u64,
    token_program_id: Pubkey,
) -> TokenInfo {
    TokenInfo {
        name,
        symbol,
        decimals,
        mint,
        hook_program_id,
        created_at: now,
        creator,
        total_supply,
        has_transfer_hooks: hook_program_id is Some,
        token_program_id,
    }
}

/// Creates a token whose transfers run a hook program.  Three instructions
/// are to be invoked: the system program creates the mint account, of the
/// size of a mint with the transfer hook extension, paid by `payer` with
/// `mint_rent` and owned by the token program; the token program
/// initializes the extension with `authority` and the hook program; the
/// token program initializes the mint with `authority` as mint and freeze
/// authority.  `mint_rent` is the balance that exempts an account of that
/// size from rent.  The token is refused where the authority or the hook
/// program is the address of zeros, which stands for no address.
pub fn create_token_2022_with_hooks(
    mint: Pubkey,
    authority: Pubkey,
    payer: Pubkey,
    mint_rent: u64,
    name: String,
    symbol: String,
    decimals: u8,
    hook_program_id: Pubkey,
    initial_supply: u64,
    now: i64,
) -> (r: Result<TokenCreation, TokenLayerError>)
    ensures
        match r {
            Ok(creation) => {
                &&& is_token_2022(creation.token_info.token_program_id)
                &&& creation.token_info == token_record(
                    name,
                    symbol,
                    decimals,
                    mint,
                    Some(hook_program_id),
                    now,
                    authority,
                    initial_supply,
                    creation.token_info.token_program_id,
                )
                &&& creation.instructions@.len() == 3
                &&& creation.instructions@[0]@ == create_account_instruction(
                    payer,
                    mint,
                    mint_rent,
                    MINT_WITH_TRANSFER_HOOK_LEN as u64,
                    creation.token_info.token_program_id,
                )
                &&& is_system_program(creation.instructions@[0].program_id)
                &&& creation.instructions@[0].accounts@ == seq![writable_signer(payer), writable_signer(mint)]
                &&& initialize_transfer_hook_instruction(mint, Some(authority), Some(hook_program_id)) == Some(
                    creation.instructions@[1]@,
                )
                &&& is_token_2022(creation.instructions@[1].program_id)
                &&& creation.instructions@[1].accounts@ == seq![writable(mint)]
                &&& creation.instructions@[2]@ == initialize_mint2_instruction(
                    mint,
                    authority,
                    Some(authority),
                    decimals,
                )
                &&& is_token_2022(creation.instructions@[2].program_id)
                &&& creation.instructions@[2].accounts@ == seq![writable(mint)]
            },
            Err(e) => {
                &&& e == TokenLayerError::HookSetupFailed
                &&& initialize_transfer_hook_instruction(mint, Some(authority), Some(hook_program_id)) is None
                &&& is_null_key(Some(authority)) || is_null_key(Some(hook_program_id))
            },
        },
{
    let mint_space = match mint_len_with_transfer_hook() {
        Some(space) => space,
        None => { return Err(TokenLayerError::ExtensionInitializationFailed); },
    };
    let token_program_id = token_2022_id();
    let create = create_account(&payer, &mint, mint_rent, mint_space as u64, &token_program_id);
    let init_hook = match initialize_transfer_hook(&mint, Some(authority), Some(hook_program_id)) {
        Some(ix) => ix,
        None => { return Err(TokenLayerError::HookSetupFailed); },
    };
    let init_mint = match initialize_mint2(&mint, &authority, Some(authority), decimals) {
        Some(ix) => ix,
        None => { return Err(TokenLayerError::TokenCreationFailed); },
    };
    let mut instructions: Vec<Instruction> = Vec::new();
    instructions.push(create);
    instructions.push(init_hook);
    instructions.push(init_mint);
    let token_info = TokenInfo {
        name,
        symbol,
        decimals,
        mint,
        hook_program_id: Some(hook_program_id),
        created_at: now,
        creator: authority,
        total_supply: initial_supply,
        has_transfer_hooks: true,
        token_program_id,
    };
    Ok(TokenCreation { token_info, instructions })
}

/// Creates a token without a hook, which never fails.  Two instructions
/// are to be invoked:
/// the system program creates the mint account, of the size of a mint
/// without extensions, paid by `payer` with `mint_rent` and owned by the
/// token program; the token program initializes the mint with `authority`
/// as mint and freeze authority.  `mint_rent` is the balance that exempts
/// an account of that size from rent.
pub fn create_basic_token_2022(
    mint: Pubkey,
    authority: Pubkey,
    payer: Pubkey,
    mint_rent: u64,
    name: String,
    symbol: String,
    decimals: u8,
    initial_supply: u64,
    now: i64,
) -> (r: Result<TokenCreation, TokenLayerError>)
    ensures
        match r {
            Ok(creation) => {
                &&& is_token_2022(creation.token_info.token_program_id)
                &&& creation.token_info == token_record(
                    name,
                    symbol,
                    decimals,
                    mint,
                    None,
                    now,
                    authority,
                    initial_supply,
                    creation.token_info.token_program_id,
                )
                &&& creation.instructions@.len() == 2
                &&& creation.instructions@[0]@ == create_account_instruction(
                    payer,
                    mint,
                    mint_rent,
                    MINT_LEN as u64,
                    creation.token_info.token_program_id,
                )
                &&& is_system_program(creation.instructions@[0].program_id)
                &&& creation.instructions@[0].accounts@ == seq![writable_signer(payer), writable_signer(mint)]
                &&& creation.instructions@[1]@ == initialize_mint2_instruction(
                    mint,
                    authority,
                    Some(authority),
                    decimals,
                )
                &&& is_token_2022(creation.instructions@[1].program_id)
                &&& creation.instructions@[1].accounts@ == seq![writable(mint)]
            },
            Err(_) => false,
        },
{
    let mint_space = mint_base_len();
    let token_program_id = token_2022_id();
    let create = create_account(&payer, &mint, mint_rent, mint_space as u64, &token_program_id);
    let init_mint = match initialize_mint2(&mint, &authority, Some(authority), decimals) {
        Some(ix) => ix,
        None => { return Err(TokenLayerError::TokenCreationFailed); },
    };
    let mut instructions: Vec<Instruction> = Vec::new();
    instructions.push(create);
    instructions.push(init_mint);
    let token_info = TokenInfo {
        name,
        symbol,
        decimals,
        mint,
        hook_program_id: None,
        created_at: now,
        creator: authority,
        total_supply: initial_supply,
        has_transfer_hooks: false,
        token_program_id,
    };
    Ok(TokenCreation { token_info, instructions })
}

/// The instruction that mints `amount` of a token to an account, signed by
/// the authority of the mint.  It never fails.
pub fn mint_tokens(mint: Pubkey, destination: Pubkey, authority: Pubkey, amount: u64) -> (r: Result<
    Instruction,
    TokenLayerError,
>)
    ensures
        match r {
            Ok(ix) => {
                &&& ix@ == mint_to_instruction(mint, destination, authority, amount)
                &&& is_token_2022(ix.program_id)
                &&& ix.accounts@ == mint_to_accounts(mint, destination, authority)
            },
            Err(_) => false,
        },
{
    match mint_to(&mint, &destination, &authority, amount) {
        Some(ix) => Ok(ix),
        None => Err(TokenLayerError::InvalidTokenProgram),
    }
}

/// Whether a mint is taken to hold a transfer hook: whether its account is
/// longer than a mint without extensions.
pub fn check_transfer_hook_extension(mint: &AccountView) -> (r: bool)
    ensures
        r == (mint.data@.len() > MINT_LEN),
{
    mint.data.len() > mint_base_len()
}

/// What is reported of a token.
#[derive(Debug, PartialEq, Eq)]
pub struct TokenSummary {
    pub name: String,
    pub symbol: String,
    pub decimals: u8,
    pub mint: Pubkey,
    pub hook_program_id: Option<Pubkey>,
    pub creator: Pubkey,
    pub total_supply: u64,
    pub has_transfer_hooks: bool,
    pub token_program_id: Pubkey,
}

/// The record of a token, without the time of its creation.
pub fn get_token_info(token_info: &TokenInfo) -> (summary: TokenSummary)
    ensures
        summary == (TokenSummary {
            name: token_info.name,
            symbol: token_info.symbol,
            decimals: token_info.decimals,
            mint: token_info.mint,
            hook_program_id: token_info.hook_program_id,
            creator: token_info.creator,
            total_supply: token_info.total_supply,
            has_transfer_hooks: token_info.has_transfer_hooks,
            token_program_id: token_info.token_program_id,
        }),
{
    TokenSummary {
        name: token_info.name.clone(),
        symbol: token_info.symbol.clone(),
        decimals: token_info.decimals,
        mint: token_info.mint,
        hook_program_id: token_info.hook_program_id,
        creator: token_info.creator,
        total_supply: token_info.total_supply,
        has_transfer_hooks: token_info.has_transfer_hooks,
        token_program_id: token_info.token_program_id,
    }
}

} // verus!
