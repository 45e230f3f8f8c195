//! The transfer hook interface, as far as the two hooks use it: the
//! instructions that the token program sends to a hook, and the list of
//! extra accounts that a hook asks the token program to hand it.

use vstd::prelude::*;
use vstd::bytes::spec_u64_from_le_bytes;

verus! {

/// An instruction of the transfer hook interface, as far as a hook reads it.
#[derive(Clone, Copy, Debug, PartialEq, Eq, Structural)]
pub enum HookInstruction {
    /// Runs the hook on a transfer of `amount`.
    Execute { amount: u64 },
    /// Writes the list of extra accounts.
    InitializeExtraAccountMetaList,
    /// Overwrites the list of extra accounts.
    UpdateExtraAccountMetaList,
}

/// Why a hook refuses before its own rules are asked.
#[derive(Clone, Copy, Debug, PartialEq, Eq, Structural)]
pub enum InterfaceError {
    /// The instruction data is no instruction of the interface.
    InvalidInstructionData,
    /// Fewer accounts were handed in than the hook reads.
    NotEnoughAccountKeys,
    /// The list of extra accounts could not be written.
    InvalidAccountMetas,
}

/// Why a hook refuses: for the interface's reasons or for its own.
#[derive(Clone, Copy, Debug, PartialEq, Eq, Structural)]
pub enum HookError<E> {
    Interface(InterfaceError),
    Hook(E),
}

/// One seed of the address of an extra account.
#[derive(Debug, PartialEq, Eq)]
pub enum Seed {
    /// The bytes themselves.
    Literal { bytes: Vec<u8> },
    /// The address of the account at `index` of the instruction.
    AccountKey { index: u8 },
}

/// The mathematical content of a [`Seed`].
pub enum SeedView {
    Literal { bytes: Seq<u8> },
    AccountKey { index: u8 },
}

impl DeepView for Seed {
    type V = SeedView;

    open spec fn deep_view(&self) -> SeedView {
        match self {
            Seed::Literal { bytes } => SeedView::Literal { bytes: bytes@ },
            Seed::AccountKey { index } => SeedView::AccountKey { index: *index },
        }
    }
}

/// An extra account that a hook asks for, in the form in which it is
/// written into the list.
#[derive(Clone, Copy, Debug, PartialEq, Eq)]
pub struct ExtraAccountMeta {
    pub discriminator: u8,
    pub address_config: [u8; 32],
    pub is_signer: bool,
    pub is_writable: bool,
}

/// The longest literal seed whose packed size, two bytes more, is a byte.
pub const MAX_SEED_LEN: usize = 253;

/// No literal among the seeds is longer than the longest whose size is
/// computed without overflow.
pub open spec fn seeds_in_bounds(seeds: Seq<SeedView>) -> bool {
    forall|i: int|
        0 <= i < seeds.len() ==> (#[trigger] seeds[i] matches SeedView::Literal { bytes } ==> bytes.len()
            <= MAX_SEED_LEN)
}

/// The literal seed of these bytes.
pub fn literal_seed(bytes: &[u8]) -> (seed: Seed)
    ensures
        seed.deep_view() == (SeedView::Literal { bytes: bytes@ }),
{
    let mut copy: Vec<u8> = Vec::new();
    let mut i: usize = 0;
    while i < bytes.len()
        invariant
            i <= bytes.len(),
            copy@ == bytes@.take(i as int),
        decreases bytes.len() - i,
    {
        copy.push(bytes[i]);
        assert(bytes@.take(i as int).push(bytes@[i as int]) == bytes@.take(i + 1));
        i += 1;
    }
    assert(bytes@.take(bytes.len() as int) == bytes@);
    Seed::Literal { bytes: copy }
}

/// The eight bytes with which an `Execute` instruction begins: the first
/// eight bytes of the SHA-256 hash of `spl-transfer-hook-interface:execute`.
pub open spec fn execute_discriminator() -> Seq<u8> {
    seq![105u8, 37u8, 101u8, 197u8, 75u8, 251u8, 102u8, 26u8]
}

/// Whether `data` begins as an `Execute` instruction does: with the eight
/// bytes that mark it and eight more for the amount.
pub open spec fn is_execute(data: Seq<u8>) -> bool {
    data.len() >= 16 && data.subrange(0, 8) == execute_discriminator()
}

/// The amount of an `Execute` instruction: the eight bytes after those
/// that mark it, read with the lowest byte first.
pub open spec fn execute_amount(data: Seq<u8>) -> u64 {
    spec_u64_from_le_bytes(data.subrange(8, 16))
}

/// The instruction that `data` holds, where it holds one.
pub uninterp spec fn unpacked_instruction(data: Seq<u8>) -> Option<HookInstruction>;

/// Calls `TransferHookInstruction::unpack` and keeps the variant and the
/// amount.  Claims that the outcome is a function of the bytes, that fewer
/// than eight bytes hold no instruction, and that bytes which begin as an
/// `Execute` instruction does hold that instruction with its amount,
/// whatever follows.
#[verifier::external_body]
pub(crate) fn unpack_instruction(data: &[u8]) -> (r: Option<HookInstruction>)
    ensures
        r == unpacked_instruction(data@),
        data@.len() < 8 ==> r is None,
        is_execute(data@) ==> r == Some(HookInstruction::Execute { amount: execute_amount(data@) }),
{
    match spl_transfer_hook_interface::instruction::TransferHookInstruction::unpack(data) {
        Ok(spl_transfer_hook_interface::instruction::TransferHookInstruction::Execute { amount }) => Some(HookInstruction::Execute { amount }),
        Ok(spl_transfer_hook_interface::instruction::TransferHookInstruction::InitializeExtraAccountMetaList { .. }) => Some(HookInstruction::InitializeExtraAccountMetaList),
        Ok(spl_transfer_hook_interface::instruction::TransferHookInstruction::UpdateExtraAccountMetaList { .. }) => Some(HookInstruction::UpdateExtraAccountMetaList),
        Err(_) => None,
    }
}

/// The extra account whose address is derived from `seeds`, where the
/// seeds can be packed.
pub uninterp spec fn seeded_account_meta(seeds: Seq<SeedView>, is_signer: bool, is_writable: bool) -> Option<ExtraAccountMeta>;

/// Calls `ExtraAccountMeta::new_with_seeds`.  Claims that the outcome is a
/// function of the arguments and that an account it returns has the
/// discriminator 1 and the two marks that were handed in.  Literals of
/// more than 253 bytes are kept out: their packed size is computed in a byte.
#[verifier::external_body]
pub(crate) fn account_meta_with_seeds(seeds: &Vec<Seed>, is_signer: bool, is_writable: bool) -> (r: Option<ExtraAccountMeta>)
    requires
        seeds_in_bounds(seeds.deep_view()),
    ensures
        r == seeded_account_meta(seeds.deep_view(), is_signer, is_writable),
        r matches Some(meta) ==> meta.discriminator == 1 && meta.is_signer == is_signer
            && meta.is_writable == is_writable,
{
    let outside: Vec<spl_tlv_account_resolution::seeds::Seed> = seeds.iter().map(|seed| match seed {
        Seed::Literal { bytes } => spl_tlv_account_resolution::seeds::Seed::Literal { bytes: bytes.clone() },
        Seed::AccountKey { index } => spl_tlv_account_resolution::seeds::Seed::AccountKey { index: *index },
    }).collect();
    let meta = spl_tlv_account_resolution::account::ExtraAccountMeta::new_with_seeds(&outside, is_signer, is_writable).ok()?;
    Some(ExtraAccountMeta {
        discriminator: meta.discriminator,
        address_config: meta.address_config,
        is_signer: meta.is_signer.into(),
        is_writable: meta.is_writable.into(),
    })
}

/// The bytes that one extra account takes in the list.
pub const META_LEN: usize = 35;

/// The bytes that the list takes besides its accounts: eight that mark it,
/// four for its length and four for the number of accounts.
pub const META_LIST_HEAD: usize = 16;

/// The bytes that a list of `count` extra accounts takes: 16 and 35 for
/// each account.  There is no such number where the accounts with their
/// count alone do not fit the machine's word; where only the whole does
/// not, the largest number stands for it.
pub open spec fn meta_list_size(count: usize) -> Option<usize> {
    if META_LEN * count + 4 > usize::MAX {
        None
    } else if META_LEN * count + META_LIST_HEAD > usize::MAX {
        Some(usize::MAX)
    } else {
        Some((META_LEN * count + META_LIST_HEAD) as usize)
    }
}

/// Calls `ExtraAccountMetaList::size_of`.  Claims what `meta_list_size`
/// says: the size is computed with checked sums up to the number of
/// accounts, and the twelve bytes of the list's own head are added so that
/// the sum stops at the largest number.
#[verifier::external_body]
pub(crate) fn extra_account_meta_list_size(count: usize) -> (r: Option<usize>)
    ensures
        r == meta_list_size(count),
{
    spl_tlv_account_resolution::state::ExtraAccountMetaList::size_of(count).ok()
}

/// The bytes of an account in which the list of the extra accounts of
/// `Execute` was written over `data`, where it could be written.
pub uninterp spec fn initialized_meta_list(data: Seq<u8>, metas: Seq<ExtraAccountMeta>) -> Option<Seq<u8>>;

/// Calls `ExtraAccountMetaList::init::<ExecuteInstruction>` on `data`.
/// Claims that whether it succeeds, and what it then leaves in `data`, is a
/// function of the bytes and the accounts, and that the length stays.  It
/// is called on zeroed bytes only, which it reads as an empty list.
#[verifier::external_body]
pub(crate) fn init_execute_meta_list(data: &mut Vec<u8>, metas: &Vec<ExtraAccountMeta>) -> (ok: bool)
    requires
        forall|i: int| 0 <= i < old(data)@.len() ==> old(data)@[i] == 0u8,
    ensures
        final(data)@.len() == old(data)@.len(),
        initialized_meta_list(old(data)@, metas@) == if ok {
            Some(final(data)@)
        } else {
            None::<Seq<u8>>
        },
{
    let outside: Vec<spl_tlv_account_resolution::account::ExtraAccountMeta> = metas.iter().map(|meta| spl_tlv_account_resolution::account::ExtraAccountMeta {
        discriminator: meta.discriminator,
        address_config: meta.address_config,
        is_signer: meta.is_signer.into(),
        is_writable: meta.is_writable.into(),
    }).collect();
    spl_tlv_account_resolution::state::ExtraAccountMetaList::init::<spl_transfer_hook_interface::instruction::ExecuteInstruction>(data, &outside).is_ok()
}

/// The account data that holds the list `metas` of the extra accounts of
/// `Execute`, where the list can be written.
pub open spec fn meta_list_account(metas: Seq<ExtraAccountMeta>) -> Option<Seq<u8>> {
    match meta_list_size(metas.len() as usize) {
        Some(size) => initialized_meta_list(Seq::new(size as nat, |i: int| 0u8), metas),
        None => None,
    }
}

/// The data of the account that tells the token program which extra
/// accounts to hand to `Execute`: zeroed bytes of the size that the list
/// takes, with the list written into them.
pub fn build_meta_list(metas: &Vec<ExtraAccountMeta>) -> (r: Result<Vec<u8>, InterfaceError>)
    ensures
        match r {
            Ok(data) => meta_list_account(metas@) == Some(data@),
            Err(e) => meta_list_account(metas@) is None && e == InterfaceError::InvalidAccountMetas,
        },
{
    let size = match extra_account_meta_list_size(metas.len()) {
        Some(size) => size,
        None => { return Err(InterfaceError::InvalidAccountMetas); },
    };
    let mut data: Vec<u8> = Vec::new();
    while data.len() < size
        invariant
            data.len() <= size,
            forall|i: int| 0 <= i < data@.len() ==> data@[i] == 0u8,
        decreases size - data.len(),
    {
        data.push(0u8);
    }
    assert(data@ =~= Seq::new(size as nat, |i: int| 0u8));
    if init_execute_meta_list(&mut data, metas) {
        Ok(data)
    } else {
        Err(InterfaceError::InvalidAccountMetas)
    }
}

} // verus!
