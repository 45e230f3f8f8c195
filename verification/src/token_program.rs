//! The token program and the system program, as far as the pool and the
//! token layer call them: the program's address, the layout of a mint and
//! the instructions that are handed to the host.

use vstd::prelude::*;
use vstd::bytes::spec_u64_to_le_bytes;
use crate::host::{
    instruction_view, readonly, readonly_signer, writable, writable_signer, AccountMeta, Instruction,
    InstructionView,
};
use crate::pubkey::{key_of, Pubkey};

verus! {

/// The bytes of the token program's address.
pub open spec fn token_2022_id_bytes() -> Seq<u8> {
    seq![
        6u8, 221u8, 246u8, 225u8, 238u8, 117u8, 143u8, 222u8,
        24u8, 66u8, 93u8, 188u8, 228u8, 108u8, 205u8, 218u8,
        182u8, 26u8, 252u8, 77u8, 131u8, 185u8, 13u8, 39u8,
        254u8, 189u8, 249u8, 40u8, 216u8, 161u8, 139u8, 252u8,
    ]
}

/// Whether `key` is the token program's address.
pub open spec fn is_token_2022(key: Pubkey) -> bool {
    key.bytes@ == token_2022_id_bytes()
}

/// The length of a mint without extensions.
pub const MINT_LEN: usize = 82;

/// The length of a mint that holds the transfer hook extension and no other.
pub const MINT_WITH_TRANSFER_HOOK_LEN: usize = 234;

/// Calls `spl_token_2022::id`.  Claims that the address it returns is
/// `TokenzQdBNbLqP5VEhdkAS6EPFLC1PHnBqCXEpPxuEb`, written out as bytes.
#[verifier::external_body]
pub(crate) fn token_2022_id() -> (r: Pubkey)
    ensures
        is_token_2022(r),
{
    Pubkey { bytes: spl_token_2022::id().to_bytes() }
}

/// Whether `key` is the token program's address.
pub fn is_token_2022_program(key: &Pubkey) -> (r: bool)
    ensures
        r == is_token_2022(*key),
{
    let id = token_2022_id();
    let r = *key == id;
    proof {
        if key.bytes@ == id.bytes@ {
            assert(key.bytes =~= id.bytes);
        }
    }
    r
}

/// Reads `Mint::LEN` (of `Pack`).  Claims that it is 82.
#[verifier::external_body]
pub(crate) fn mint_base_len() -> (r: usize)
    ensures
        r == MINT_LEN,
{
    <spl_token_2022::state::Mint as anchor_lang::solana_program::program_pack::Pack>::LEN
}

/// The decimals of the mint that `data` holds when read with its
/// extensions, where it can be read so.
pub uninterp spec fn mint_with_extensions_decimals(data: Seq<u8>) -> Option<u8>;

/// Calls `StateWithExtensions::<Mint>::unpack` and reads `base.decimals`.
/// Claims only that the outcome is a function of the bytes.
#[verifier::external_body]
pub(crate) fn unpack_mint_with_extensions(data: &[u8]) -> (r: Option<u8>)
    ensures
        r == mint_with_extensions_decimals(data@),
{
    match spl_token_2022::extension::StateWithExtensions::<spl_token_2022::state::Mint>::unpack(data) {
        Ok(mint) => Some(mint.base.decimals),
        Err(_) => None,
    }
}

/// Whether the four bytes of `data` from `at` on mark an optional address
/// as absent or as present.
pub open spec fn option_tag_ok(data: Seq<u8>, at: int) -> bool {
    (data[at] == 0 || data[at] == 1) && data[at + 1] == 0 && data[at + 2] == 0 && data[at + 3] == 0
}

/// The decimals of the mint that `data` holds when read as a mint without
/// extensions: the byte at 44, where the data are the 82 bytes of a mint,
/// the two optional authorities, at 0 and at 46, are marked well, and the
/// byte at 45 marks the mint as initialized.
pub open spec fn plain_mint_decimals(data: Seq<u8>) -> Option<u8> {
    if data.len() == MINT_LEN && option_tag_ok(data, 0) && data[45] == 1 && option_tag_ok(data, 46) {
        Some(data[44])
    } else {
        None
    }
}

/// Calls `Mint::unpack` (of `Pack`) and reads `decimals`.  Claims what
/// `plain_mint_decimals` says: the length that is asked, the two marks of
/// optional authorities and the mark of initialization that are checked,
/// and the place of the decimals.
#[verifier::external_body]
pub(crate) fn unpack_plain_mint(data: &[u8]) -> (r: Option<u8>)
    ensures
        r == plain_mint_decimals(data@),
{
    match <spl_token_2022::state::Mint as anchor_lang::solana_program::program_pack::Pack>::unpack(data) {
        Ok(mint) => Some(mint.decimals),
        Err(_) => None,
    }
}

/// Calls `ExtensionType::try_calculate_account_len::<Mint>` for the transfer
/// hook extension alone.  Claims that it succeeds with 234: the 165 bytes up
/// to which a mint is padded, one byte of account type, and an entry of two
/// bytes of type, two of length and 64 of value.
#[verifier::external_body]
pub(crate) fn mint_len_with_transfer_hook() -> (r: Option<usize>)
    ensures
        r == Some(MINT_WITH_TRANSFER_HOOK_LEN),
{
    spl_token_2022::extension::ExtensionType::try_calculate_account_len::<spl_token_2022::state::Mint>(
        &[spl_token_2022::extension::ExtensionType::TransferHook],
    ).ok()
}

/// The accounts of a transfer: the source and the destination are
/// written, the mint is read, the authority signs.
pub open spec fn transfer_accounts(source: Pubkey, mint: Pubkey, destination: Pubkey, authority: Pubkey) -> Seq<
    AccountMeta,
> {
    seq![writable(source), readonly(mint), writable(destination), readonly_signer(authority)]
}

/// The address of the token program.
pub open spec fn token_2022_key() -> Pubkey {
    key_of(token_2022_id_bytes())
}

/// The `TransferChecked` instruction of the token program for these
/// accounts, with the authority as the only signer: its data are the byte
/// 12, the amount with the lowest byte first, and the decimals.
pub open spec fn transfer_checked_instruction(
    source: Pubkey,
    mint: Pubkey,
    destination: Pubkey,
    authority: Pubkey,
    amount: u64,
    decimals: u8,
) -> InstructionView {
    InstructionView {
        program_id: token_2022_key(),
        accounts: transfer_accounts(source, mint, destination, authority),
        data: seq![12u8] + spec_u64_to_le_bytes(amount) + seq![decimals],
    }
}

/// Calls `spl_token_2022::instruction::transfer_checked` with the token
/// program's own address and no further signers.  Claims that it succeeds,
/// since the one thing it refuses is another program's address, and that
/// the instruction is the one that `transfer_checked_instruction` writes
/// out: addressed to the token program, with the source, the mint, the
/// destination and the authority as accounts, and with the data named
/// there.
#[verifier::external_body]
pub(crate) fn transfer_checked(
    source: &Pubkey,
    mint: &Pubkey,
    destination: &Pubkey,
    authority: &Pubkey,
    amount: u64,
    decimals: u8,
) -> (r: Option<Instruction>)
    ensures
        r is Some,
        r->0@ == transfer_checked_instruction(*source, *mint, *destination, *authority, amount, decimals),
        is_token_2022(r->0.program_id),
{
    let ix = spl_token_2022::instruction::transfer_checked(
        &spl_token_2022::id(),
        &anchor_lang::prelude::Pubkey::new_from_array(source.bytes),
        &anchor_lang::prelude::Pubkey::new_from_array(mint.bytes),
        &anchor_lang::prelude::Pubkey::new_from_array(destination.bytes),
        &anchor_lang::prelude::Pubkey::new_from_array(authority.bytes),
        &[],
        amount,
        decimals,
    ).ok()?;
    let accounts = ix.accounts.iter().map(|a| AccountMeta { pubkey: Pubkey { bytes: a.pubkey.to_bytes() }, is_signer: a.is_signer, is_writable: a.is_writable }).collect();
    Some(Instruction { program_id: Pubkey { bytes: ix.program_id.to_bytes() }, accounts, data: ix.data })
}

/// The accounts of a minting: the mint and the account are written, the
/// authority signs.
pub open spec fn mint_to_accounts(mint: Pubkey, account: Pubkey, authority: Pubkey) -> Seq<AccountMeta> {
    seq![writable(mint), writable(account), readonly_signer(authority)]
}

/// The `MintTo` instruction of the token program for these accounts, with
/// the authority as the only signer: its data are the byte 7 and the
/// amount with the lowest byte first.
pub open spec fn mint_to_instruction(mint: Pubkey, account: Pubkey, authority: Pubkey, amount: u64) -> InstructionView {
    InstructionView {
        program_id: token_2022_key(),
        accounts: mint_to_accounts(mint, account, authority),
        data: seq![7u8] + spec_u64_to_le_bytes(amount),
    }
}

/// Calls `spl_token_2022::instruction::mint_to` with the token program's
/// own address and no further signers.  Claims that it succeeds, since the
/// one thing it refuses is another program's address, and that the
/// instruction is the one that `mint_to_instruction` writes out.
#[verifier::external_body]
pub(crate) fn mint_to(mint: &Pubkey, account: &Pubkey, authority: &Pubkey, amount: u64) -> (r: Option<Instruction>)
    ensures
        r is Some,
        r->0@ == mint_to_instruction(*mint, *account, *authority, amount),
        is_token_2022(r->0.program_id),
{
    let ix = spl_token_2022::instruction::mint_to(
        &spl_token_2022::id(),
        &anchor_lang::prelude::Pubkey::new_from_array(mint.bytes),
        &anchor_lang::prelude::Pubkey::new_from_array(account.bytes),
        &anchor_lang::prelude::Pubkey::new_from_array(authority.bytes),
        &[],
        amount,
    ).ok()?;
    let accounts = ix.accounts.iter().map(|a| AccountMeta { pubkey: Pubkey { bytes: a.pubkey.to_bytes() }, is_signer: a.is_signer, is_writable: a.is_writable }).collect();
    Some(Instruction { program_id: Pubkey { bytes: ix.program_id.to_bytes() }, accounts, data: ix.data })
}

/// The bytes of an optional address in an instruction of the token
/// program: the byte 1 and the address, or the byte 0.
pub open spec fn optional_key_bytes(key: Option<Pubkey>) -> Seq<u8> {
    match key {
        Some(key) => seq![1u8] + key.bytes@,
        None => seq![0u8],
    }
}

/// The `InitializeMint2` instruction of the token program for this mint:
/// its data are the byte 20, the decimals, the mint authority and the
/// optional freeze authority.
pub open spec fn initialize_mint2_instruction(
    mint: Pubkey,
    mint_authority: Pubkey,
    freeze_authority: Option<Pubkey>,
    decimals: u8,
) -> InstructionView {
    InstructionView {
        program_id: token_2022_key(),
        accounts: seq![writable(mint)],
        data: seq![20u8, decimals] + mint_authority.bytes@ + optional_key_bytes(freeze_authority),
    }
}

/// Calls `spl_token_2022::instruction::initialize_mint2` with the token
/// program's own address.  Claims that it succeeds, since the one thing it
/// refuses is another program's address, and that the instruction is the
/// one that `initialize_mint2_instruction` writes out.
#[verifier::external_body]
pub(crate) fn initialize_mint2(
    mint: &Pubkey,
    mint_authority: &Pubkey,
    freeze_authority: Option<Pubkey>,
    decimals: u8,
) -> (r: Option<Instruction>)
    ensures
        r is Some,
        r->0@ == initialize_mint2_instruction(*mint, *mint_authority, freeze_authority, decimals),
        is_token_2022(r->0.program_id),
{
    let freeze = freeze_authority.map(|k| anchor_lang::prelude::Pubkey::new_from_array(k.bytes));
    let ix = spl_token_2022::instruction::initialize_mint2(
        &spl_token_2022::id(),
        &anchor_lang::prelude::Pubkey::new_from_array(mint.bytes),
        &anchor_lang::prelude::Pubkey::new_from_array(mint_authority.bytes),
        freeze.as_ref(),
        decimals,
    ).ok()?;
    let accounts = ix.accounts.iter().map(|a| AccountMeta { pubkey: Pubkey { bytes: a.pubkey.to_bytes() }, is_signer: a.is_signer, is_writable: a.is_writable }).collect();
    Some(Instruction { program_id: Pubkey { bytes: ix.program_id.to_bytes() }, accounts, data: ix.data })
}

/// Thirty-two bytes of zero: the address that stands for no address.
pub open spec fn null_key_bytes() -> Seq<u8> {
    Seq::new(32, |i: int| 0u8)
}

/// Whether an address was handed in that stands for no address.
pub open spec fn is_null_key(key: Option<Pubkey>) -> bool {
    match key {
        Some(key) => key.bytes@ == null_key_bytes(),
        None => false,
    }
}

/// The bytes of an optional address where the address of zeros stands for
/// none.
pub open spec fn nullable_key_bytes(key: Option<Pubkey>) -> Seq<u8> {
    match key {
        Some(key) => key.bytes@,
        None => null_key_bytes(),
    }
}

/// The instruction of the token program that initializes the transfer
/// hook extension of a mint: its data are the bytes 36 and 0, the
/// authority and the hook program.  There is none where an address is
/// handed in that stands for no address.
pub open spec fn initialize_transfer_hook_instruction(
    mint: Pubkey,
    authority: Option<Pubkey>,
    hook_program_id: Option<Pubkey>,
) -> Option<InstructionView> {
    if is_null_key(authority) || is_null_key(hook_program_id) {
        None
    } else {
        Some(
            InstructionView {
                program_id: token_2022_key(),
                accounts: seq![writable(mint)],
                data: seq![36u8, 0u8] + nullable_key_bytes(authority) + nullable_key_bytes(hook_program_id),
            },
        )
    }
}

/// Calls `spl_token_2022::extension::transfer_hook::instruction::initialize`
/// with the token program's own address.  Claims what
/// `initialize_transfer_hook_instruction` says: that it refuses exactly an
/// address of zeros that is handed in, and else returns the instruction
/// written out there.
#[verifier::external_body]
pub(crate) fn initialize_transfer_hook(
    mint: &Pubkey,
    authority: Option<Pubkey>,
    hook_program_id: Option<Pubkey>,
) -> (r: Option<Instruction>)
    ensures
        instruction_view(r) == initialize_transfer_hook_instruction(*mint, authority, hook_program_id),
        r matches Some(ix) ==> is_token_2022(ix.program_id),
{
    let ix = spl_token_2022::extension::transfer_hook::instruction::initialize(
        &spl_token_2022::id(),
        &anchor_lang::prelude::Pubkey::new_from_array(mint.bytes),
        authority.map(|k| anchor_lang::prelude::Pubkey::new_from_array(k.bytes)),
        hook_program_id.map(|k| anchor_lang::prelude::Pubkey::new_from_array(k.bytes)),
    ).ok()?;
    let accounts = ix.accounts.iter().map(|a| AccountMeta { pubkey: Pubkey { bytes: a.pubkey.to_bytes() }, is_signer: a.is_signer, is_writable: a.is_writable }).collect();
    Some(Instruction { program_id: Pubkey { bytes: ix.program_id.to_bytes() }, accounts, data: ix.data })
}

/// Whether `key` is the system program's address, which is all zero.
pub open spec fn is_system_program(key: Pubkey) -> bool {
    key.bytes@ == null_key_bytes()
}

/// The `CreateAccount` instruction of the system program: its data are the
/// number 0 of the instruction in four bytes, the lamports and the space in
/// eight bytes each, lowest byte first, and the owner.
pub open spec fn create_account_instruction(
    from: Pubkey,
    to: Pubkey,
    lamports: u64,
    space: u64,
    owner: Pubkey,
) -> InstructionView {
    InstructionView {
        program_id: key_of(null_key_bytes()),
        accounts: seq![writable_signer(from), writable_signer(to)],
        data: seq![0u8, 0u8, 0u8, 0u8] + spec_u64_to_le_bytes(lamports) + spec_u64_to_le_bytes(space)
            + owner.bytes@,
    }
}

/// Calls `system_instruction::create_account`.  Claims that the
/// instruction is the one that `create_account_instruction` writes out:
/// addressed to the system program, with the payer and the new account as
/// accounts, both written and both signing, and with the data in the
/// fixed-width encoding named there.
#[verifier::external_body]
pub(crate) fn create_account(from: &Pubkey, to: &Pubkey, lamports: u64, space: u64, owner: &Pubkey) -> (r: Instruction)
    ensures
        r@ == create_account_instruction(*from, *to, lamports, space, *owner),
        is_system_program(r.program_id),
{
    let ix = anchor_lang::solana_program::system_instruction::create_account(
        &anchor_lang::prelude::Pubkey::new_from_array(from.bytes),
        &anchor_lang::prelude::Pubkey::new_from_array(to.bytes),
        lamports,
        space,
        &anchor_lang::prelude::Pubkey::new_from_array(owner.bytes),
    );
    let accounts = ix.accounts.iter().map(|a| AccountMeta { pubkey: Pubkey { bytes: a.pubkey.to_bytes() }, is_signer: a.is_signer, is_writable: a.is_writable }).collect();
    Instruction { program_id: Pubkey { bytes: ix.program_id.to_bytes() }, accounts, data: ix.data }
}

} // verus!
