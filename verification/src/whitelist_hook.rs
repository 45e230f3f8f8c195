//! The whitelist hook: a bounded list of addresses, and the rule that only
//! they may transfer while the list is enforced.

use vstd::prelude::*;
use vstd::bytes::{
    spec_u16_from_le_bytes, spec_u32_from_le_bytes, spec_u64_from_le_bytes, u16_from_le_bytes,
    u32_from_le_bytes, u64_from_le_bytes,
};
use vstd::slice::slice_subrange;
use crate::hook_interface::{
    account_meta_with_seeds, build_meta_list, execute_amount, is_execute, literal_seed,
    meta_list_account, seeded_account_meta, unpack_instruction, unpacked_instruction,
    ExtraAccountMeta, HookError, HookInstruction, InterfaceError, Seed, SeedView,
};
use crate::host::AccountView;
use crate::math::{count, counted};
use crate::pubkey::{
    contains, distinct, key_at, key_of, lemma_without_first, position, without_first, Pubkey,
};

verus! {

/// Why an instruction of the whitelist hook is refused.
#[derive(Clone, Copy, Debug, PartialEq, Eq, Structural)]
pub enum WhitelistError {
    /// Address is already whitelisted
    AddressAlreadyWhitelisted,
    /// Address is not whitelisted
    AddressNotWhitelisted,
    /// Whitelist is at maximum capacity
    WhitelistFull,
    /// Invalid whitelist account
    InvalidWhitelistAccount,
    /// Transfer not allowed - owner not whitelisted
    TransferNotAllowed,
    /// Whitelist validation is disabled
    WhitelistDisabled,
}

/// The whitelist: the approved addresses in the order in which they were
/// added, and what was counted of transfers.
#[derive(Debug, PartialEq, Eq)]
pub struct Whitelist {
    pub authority: Pubkey,
    pub max_addresses: u16,
    pub approved_addresses: Vec<Pubkey>,
    pub created_at: i64,
    pub total_transfers_validated: u64,
    pub total_transfers_blocked: u64,
    pub is_enabled: bool,
}

impl Whitelist {
    /// Bytes that the record takes in an account.
    pub const SPACE: usize = 3263;
}

/// The mathematical content of a [`Whitelist`].
#[verifier::ext_equal]
pub struct WhitelistView {
    pub authority: Pubkey,
    pub max_addresses: u16,
    pub approved_addresses: Seq<Pubkey>,
    pub created_at: i64,
    pub total_transfers_validated: u64,
    pub total_transfers_blocked: u64,
    pub is_enabled: bool,
}

impl View for Whitelist {
    type V = WhitelistView;

    open spec fn view(&self) -> WhitelistView {
        WhitelistView {
            authority: self.authority,
            max_addresses: self.max_addresses,
            approved_addresses: self.approved_addresses@,
            created_at: self.created_at,
            total_transfers_validated: self.total_transfers_validated,
            total_transfers_blocked: self.total_transfers_blocked,
            is_enabled: self.is_enabled,
        }
    }
}

/// The number of accounts that `Execute` reads when it comes in raw.
pub const EXECUTE_ACCOUNTS: usize = 5;

/// The position of the owner of the transfer among the accounts of
/// `Execute`.
pub const OWNER_ACCOUNT: usize = 3;

/// The position of the whitelist among the accounts of `Execute`.
pub const WHITELIST_ACCOUNT: usize = 4;

/// The length of the data of a whitelist account that lists no address:
/// eight bytes that mark the account, the authority, the maximum, the
/// number of addresses, the time of creation, the two counters and the
/// mark of enforcement.
pub const WHITELIST_DATA_LEN: usize = 71;

/// The position of the authority in the data of a whitelist account.
pub const AUTHORITY_OFFSET: usize = 8;

/// The position of the maximum in the data of a whitelist account.
pub const MAX_OFFSET: usize = 40;

/// The position of the number of addresses in the data of a whitelist
/// account.
pub const COUNT_OFFSET: usize = 42;

/// The position of the first address in the data of a whitelist account.
pub const ADDRESSES_OFFSET: usize = 46;

/// The most addresses that a report of the whitelist shows.
pub const SAMPLE_LEN: usize = 5;

impl WhitelistView {
    /// The invariant of a whitelist: no address is listed twice, and the
    /// listed addresses are no more than the maximum.
    pub open spec fn wf(self) -> bool {
        &&& distinct(self.approved_addresses)
        &&& self.approved_addresses.len() <= self.max_addresses
    }

    /// Whether `address` is listed.
    pub open spec fn is_listed(self, address: Pubkey) -> bool {
        self.approved_addresses.contains(address)
    }

    /// Why `address` is not added, if it is not.
    pub open spec fn addition_refusal(self, address: Pubkey) -> Option<WhitelistError> {
        if self.is_listed(address) {
            Some(WhitelistError::AddressAlreadyWhitelisted)
        } else if self.approved_addresses.len() >= self.max_addresses {
            Some(WhitelistError::WhitelistFull)
        } else {
            None
        }
    }

    /// Why `address` is not removed, if it is not.
    pub open spec fn removal_refusal(self, address: Pubkey) -> Option<WhitelistError> {
        if self.is_listed(address) {
            None
        } else {
            Some(WhitelistError::AddressNotWhitelisted)
        }
    }

    /// The whitelist with `address` listed last.
    pub open spec fn with_address(self, address: Pubkey) -> WhitelistView {
        WhitelistView { approved_addresses: self.approved_addresses.push(address), ..self }
    }

    /// The whitelist without the first occurrence of `address`.
    pub open spec fn without_address(self, address: Pubkey) -> WhitelistView {
        WhitelistView { approved_addresses: without_first(self.approved_addresses, address), ..self }
    }

    /// The whitelist after the addresses of a batch were added one by one,
    /// those left out that were listed when their turn came.
    pub open spec fn with_batch(self, addresses: Seq<Pubkey>) -> WhitelistView
        decreases addresses.len(),
    {
        if addresses.len() == 0 {
            self
        } else {
            let before = self.with_batch(addresses.drop_last());
            if before.is_listed(addresses.last()) {
                before
            } else {
                before.with_address(addresses.last())
            }
        }
    }

    /// Whether a transfer by `owner` passes: always while the whitelist is
    /// not enforced, else where the owner is listed.
    pub open spec fn allows(self, owner: Pubkey) -> bool {
        !self.is_enabled || self.is_listed(owner)
    }

    /// The whitelist after a transfer by `owner` was judged and counted; a
    /// counter that has reached its largest value stays there.
    pub open spec fn after_transfer(self, owner: Pubkey) -> WhitelistView {
        if self.allows(owner) {
            WhitelistView { total_transfers_validated: counted(self.total_transfers_validated), ..self }
        } else {
            WhitelistView { total_transfers_blocked: counted(self.total_transfers_blocked), ..self }
        }
    }
}

/// A new whitelist: enforced, empty, with nothing counted.
pub fn initialize_whitelist(authority: Pubkey, max_addresses: u16, now: i64) -> (whitelist: Whitelist)
    ensures
        whitelist@ == (WhitelistView {
            authority,
            max_addresses,
            approved_addresses: Seq::empty(),
            created_at: now,
            total_transfers_validated: 0,
            total_transfers_blocked: 0,
            is_enabled: true,
        }),
        whitelist@.wf(),
{
    Whitelist {
        authority,
        max_addresses,
        approved_addresses: Vec::new(),
        created_at: now,
        total_transfers_validated: 0,
        total_transfers_blocked: 0,
        is_enabled: true,
    }
}

/// Adds an address.  It is refused where the address is listed already,
/// else where the whitelist is full.  An added address is listed last.
pub fn add_to_whitelist(whitelist: &mut Whitelist, address: Pubkey) -> (r: Result<(), WhitelistError>)
    ensures
        match old(whitelist)@.addition_refusal(address) {
            Some(e) => r == Err::<(), WhitelistError>(e) && final(whitelist)@ == old(whitelist)@,
            None => r is Ok && final(whitelist)@ == old(whitelist)@.with_address(address),
        },
        old(whitelist)@.wf() ==> final(whitelist)@.wf(),
        old(whitelist)@.approved_addresses.len() >= old(whitelist).max_addresses && !old(whitelist)@.is_listed(
            address,
        ) ==> r == Err::<(), WhitelistError>(WhitelistError::WhitelistFull),
{
    if contains(&whitelist.approved_addresses, &address) {
        return Err(WhitelistError::AddressAlreadyWhitelisted);
    }
    if whitelist.approved_addresses.len() >= whitelist.max_addresses as usize {
        return Err(WhitelistError::WhitelistFull);
    }
    whitelist.approved_addresses.push(address);
    assert(final(whitelist)@ =~= old(whitelist)@.with_address(address));
    Ok(())
}

/// Removes an address.  It is refused where the address is not listed.
pub fn remove_from_whitelist(whitelist: &mut Whitelist, address: Pubkey) -> (r: Result<(), WhitelistError>)
    ensures
        match old(whitelist)@.removal_refusal(address) {
            Some(e) => r == Err::<(), WhitelistError>(e) && final(whitelist)@ == old(whitelist)@,
            None => r is Ok && final(whitelist)@ == old(whitelist)@.without_address(address),
        },
        old(whitelist)@.wf() ==> final(whitelist)@.wf() && !final(whitelist)@.is_listed(address),
{
    match position(&whitelist.approved_addresses, &address) {
        Some(index) => {
            proof {
                if whitelist@.wf() {
                    lemma_without_first(whitelist.approved_addresses@, address);
                }
            }
            whitelist.approved_addresses.remove(index);
            assert(final(whitelist)@ =~= old(whitelist)@.without_address(address));
            Ok(())
        },
        None => Err(WhitelistError::AddressNotWhitelisted),
    }
}

/// Says whether the whitelist is enforced.
pub fn set_whitelist_enabled(whitelist: &mut Whitelist, enabled: bool)
    ensures
        final(whitelist)@ == (WhitelistView { is_enabled: enabled, ..old(whitelist)@ }),
        old(whitelist)@.wf() ==> final(whitelist)@.wf(),
{
    whitelist.is_enabled = enabled;
}

/// Adds a batch of addresses.  The batch is refused as a whole where the
/// listed addresses and the batch together are more than the maximum: the
/// length of the list as it stands is what counts, before it is looked at
/// which addresses are listed already.  Of an accepted batch the addresses
/// are added in order; one that is listed when its turn comes is passed
/// over.
pub fn bulk_add_to_whitelist(whitelist: &mut Whitelist, addresses: Vec<Pubkey>) -> (r: Result<
    (),
    WhitelistError,
>)
    ensures
        if old(whitelist)@.approved_addresses.len() + addresses.len() <= old(whitelist).max_addresses {
            r is Ok && final(whitelist)@ == old(whitelist)@.with_batch(addresses@)
        } else {
            r == Err::<(), WhitelistError>(WhitelistError::WhitelistFull) && final(whitelist)@ == old(
                whitelist,
            )@
        },
        old(whitelist)@.wf() ==> final(whitelist)@.wf(),
{
    let max = whitelist.max_addresses as usize;
    if whitelist.approved_addresses.len() > max || addresses.len() > max
        - whitelist.approved_addresses.len() {
        return Err(WhitelistError::WhitelistFull);
    }
    let mut i: usize = 0;
    assert(addresses@.take(0).len() == 0);
    while i < addresses.len()
        invariant
            i <= addresses.len(),
            whitelist@ == old(whitelist)@.with_batch(addresses@.take(i as int)),
            whitelist@.approved_addresses.len() <= old(whitelist)@.approved_addresses.len() + i,
            old(whitelist)@.approved_addresses.len() + addresses.len() <= old(whitelist).max_addresses,
            whitelist.max_addresses == old(whitelist).max_addresses,
            old(whitelist)@.wf() ==> distinct(whitelist@.approved_addresses),
        decreases addresses.len() - i,
    {
        proof {
            assert(addresses@.take(i + 1).drop_last() == addresses@.take(i as int));
            assert(addresses@.take(i + 1).last() == addresses@[i as int]);
        }
        let ghost before = whitelist@;
        let address = addresses[i];
        if !contains(&whitelist.approved_addresses, &address) {
            whitelist.approved_addresses.push(address);
            assert(whitelist@ =~= before.with_address(address));
        }
        i += 1;
    }
    assert(addresses@.take(addresses.len() as int) == addresses@);
    Ok(())
}

/// Whether an address is listed.
pub fn is_whitelisted(whitelist: &Whitelist, address: &Pubkey) -> (r: bool)
    ensures
        r == whitelist@.is_listed(*address),
{
    contains(&whitelist.approved_addresses, address)
}

/// Judges a transfer by `owner` and counts the verdict.  While the
/// whitelist is not enforced every transfer passes; else a transfer passes
/// where its owner is listed.
pub fn transfer_hook_execute(whitelist: &mut Whitelist, owner: &Pubkey, amount: u64) -> (r: Result<
    (),
    WhitelistError,
>)
    ensures
        r == if old(whitelist)@.allows(*owner) {
            Ok::<(), WhitelistError>(())
        } else {
            Err::<(), WhitelistError>(WhitelistError::TransferNotAllowed)
        },
        final(whitelist)@ == old(whitelist)@.after_transfer(*owner),
        !old(whitelist).is_enabled ==> r is Ok,
        old(whitelist)@.wf() ==> final(whitelist)@.wf(),
{
    if !whitelist.is_enabled {
        whitelist.total_transfers_validated = count(whitelist.total_transfers_validated);
        return Ok(());
    }
    if !contains(&whitelist.approved_addresses, owner) {
        whitelist.total_transfers_blocked = count(whitelist.total_transfers_blocked);
        return Err(WhitelistError::TransferNotAllowed);
    }
    whitelist.total_transfers_validated = count(whitelist.total_transfers_validated);
    Ok(())
}

/// The number of addresses that the data of a whitelist account say they
/// list.
pub open spec fn listed_in(data: Seq<u8>) -> int {
    spec_u32_from_le_bytes(data.subrange(COUNT_OFFSET as int, ADDRESSES_OFFSET as int)) as int
}

/// The position behind the addresses in the data of a whitelist account.
pub open spec fn addresses_end(data: Seq<u8>) -> int {
    ADDRESSES_OFFSET + 32 * listed_in(data)
}

/// The whitelist that the data of an account hold, in the layout in which
/// the record is kept there: after eight bytes that mark the account come
/// the authority, the maximum in two bytes, the number of addresses in
/// four, the addresses, the time of creation and the two counters in eight
/// bytes each, and one byte that is 1 where the whitelist is enforced and 0
/// where it is not; numbers with the lowest byte first.  Data that are too
/// short for the addresses they announce hold no whitelist, nor do data
/// whose last byte is neither 0 nor 1.  What follows the record is not read.
pub open spec fn decoded_whitelist(data: Seq<u8>) -> Option<WhitelistView> {
    if data.len() < WHITELIST_DATA_LEN || data.len() < WHITELIST_DATA_LEN + 32 * listed_in(data) || data[
        addresses_end(data) + 24] > 1 {
        None
    } else {
        let end = addresses_end(data);
        Some(
            WhitelistView {
                authority: key_of(data.subrange(AUTHORITY_OFFSET as int, MAX_OFFSET as int)),
                max_addresses: spec_u16_from_le_bytes(data.subrange(MAX_OFFSET as int, COUNT_OFFSET as int)),
                approved_addresses: Seq::new(
                    listed_in(data) as nat,
                    |i: int| key_of(data.subrange(ADDRESSES_OFFSET + 32 * i, ADDRESSES_OFFSET + 32 * i + 32)),
                ),
                created_at: spec_u64_from_le_bytes(data.subrange(end, end + 8)) as i64,
                total_transfers_validated: spec_u64_from_le_bytes(data.subrange(end + 8, end + 16)),
                total_transfers_blocked: spec_u64_from_le_bytes(data.subrange(end + 16, end + 24)),
                is_enabled: data[end + 24] == 1,
            },
        )
    }
}

/// Reads a whitelist from the data of its account.
pub fn read_whitelist(data: &[u8]) -> (r: Option<Whitelist>)
    ensures
        match r {
            Some(whitelist) => decoded_whitelist(data@) == Some(whitelist@),
            None => decoded_whitelist(data@) is None,
        },
{
    if data.len() < WHITELIST_DATA_LEN {
        return None;
    }
    let listed = u32_from_le_bytes(slice_subrange(data, COUNT_OFFSET, ADDRESSES_OFFSET)) as usize;
    if listed > (data.len() - WHITELIST_DATA_LEN) / 32 {
        return None;
    }
    let end = ADDRESSES_OFFSET + 32 * listed;
    let enforced = data[end + 24];
    if enforced > 1 {
        return None;
    }
    let mut approved_addresses: Vec<Pubkey> = Vec::new();
    let mut i: usize = 0;
    while i < listed
        invariant
            i <= listed,
            listed == listed_in(data@),
            WHITELIST_DATA_LEN + 32 * listed <= data.len(),
            approved_addresses@.len() == i,
            forall|j: int|
                0 <= j < i ==> approved_addresses@[j] == key_of(
                    data@.subrange(ADDRESSES_OFFSET + 32 * j, ADDRESSES_OFFSET + 32 * j + 32),
                ),
        decreases listed - i,
    {
        approved_addresses.push(key_at(data, ADDRESSES_OFFSET + 32 * i));
        i += 1;
    }
    let whitelist = Whitelist {
        authority: key_at(data, AUTHORITY_OFFSET),
        max_addresses: u16_from_le_bytes(slice_subrange(data, MAX_OFFSET, COUNT_OFFSET)),
        approved_addresses,
        created_at: u64_from_le_bytes(slice_subrange(data, end, end + 8)) as i64,
        total_transfers_validated: u64_from_le_bytes(slice_subrange(data, end + 8, end + 16)),
        total_transfers_blocked: u64_from_le_bytes(slice_subrange(data, end + 16, end + 24)),
        is_enabled: enforced == 1,
    };
    assert(whitelist@ =~= decoded_whitelist(data@)->0);
    Some(whitelist)
}

/// Whether `Execute` passes when it comes in raw, with `accounts` handed
/// in, and if not, why.  Where enough accounts came and the whitelist
/// account holds a whitelist, the transfer is judged as by the whitelist
/// itself, against the owner of the transfer.
pub open spec fn raw_execute_verdict(accounts: Seq<AccountView>) -> Result<(), HookError<WhitelistError>> {
    if accounts.len() < EXECUTE_ACCOUNTS {
        Err(HookError::Interface(InterfaceError::NotEnoughAccountKeys))
    } else {
        match decoded_whitelist(accounts[WHITELIST_ACCOUNT as int].data@) {
            None => Err(HookError::Hook(WhitelistError::InvalidWhitelistAccount)),
            Some(whitelist) => if whitelist.allows(accounts[OWNER_ACCOUNT as int].key) {
                Ok(())
            } else {
                Err(HookError::Hook(WhitelistError::TransferNotAllowed))
            },
        }
    }
}

/// What the hook answers to an instruction that came in raw: data that is
/// no instruction is refused; `Execute` is judged from the raw data of the
/// whitelist account, whatever its amount; the two instructions on the
/// list of extra accounts pass.
pub open spec fn raw_verdict(instruction: Option<HookInstruction>, accounts: Seq<AccountView>) -> Result<
    (),
    HookError<WhitelistError>,
> {
    match instruction {
        None => Err(HookError::Interface(InterfaceError::InvalidInstructionData)),
        Some(HookInstruction::Execute { amount }) => raw_execute_verdict(accounts),
        Some(HookInstruction::InitializeExtraAccountMetaList) => Ok(()),
        Some(HookInstruction::UpdateExtraAccountMetaList) => Ok(()),
    }
}

/// Answers an instruction of the interface that was unpacked already.
pub fn dispatch(instruction: Option<HookInstruction>, accounts: &[AccountView]) -> (r: Result<
    (),
    HookError<WhitelistError>,
>)
    ensures
        r == raw_verdict(instruction, accounts@),
{
    match instruction {
        None => Err(HookError::Interface(InterfaceError::InvalidInstructionData)),
        Some(HookInstruction::Execute { amount: _ }) => {
            if accounts.len() < EXECUTE_ACCOUNTS {
                return Err(HookError::Interface(InterfaceError::NotEnoughAccountKeys));
            }
            match read_whitelist(accounts[WHITELIST_ACCOUNT].data.as_slice()) {
                None => Err(HookError::Hook(WhitelistError::InvalidWhitelistAccount)),
                Some(whitelist) => {
                    if !whitelist.is_enabled || contains(
                        &whitelist.approved_addresses,
                        &accounts[OWNER_ACCOUNT].key,
                    ) {
                        Ok(())
                    } else {
                        Err(HookError::Hook(WhitelistError::TransferNotAllowed))
                    }
                },
            }
        },
        Some(HookInstruction::InitializeExtraAccountMetaList) => Ok(()),
        Some(HookInstruction::UpdateExtraAccountMetaList) => Ok(()),
    }
}

/// Answers an instruction of the transfer hook interface that came in raw.
/// Data of fewer than eight bytes is refused as no instruction; data that
/// begins as an `Execute` instruction does is answered as that instruction.
pub fn fallback(_program_id: &Pubkey, accounts: &[AccountView], data: &[u8]) -> (r: Result<
    (),
    HookError<WhitelistError>,
>)
    ensures
        r == raw_verdict(unpacked_instruction(data@), accounts@),
        data@.len() < 8 ==> r == Err::<(), HookError<WhitelistError>>(
            HookError::Interface(InterfaceError::InvalidInstructionData),
        ),
        is_execute(data@) ==> r == raw_verdict(
            Some(HookInstruction::Execute { amount: execute_amount(data@) }),
            accounts@,
        ),
{
    let instruction = unpack_instruction(data);
    dispatch(instruction, accounts)
}

/// The seeds of the address of the whitelist account.
pub open spec fn whitelist_seeds() -> Seq<SeedView> {
    seq![SeedView::Literal { bytes: seq![119u8, 104u8, 105u8, 116u8, 101u8, 108u8, 105u8, 115u8, 116u8] }]
}

/// The extra account that the hook asks for: the whitelist, writable and
/// no signer; where its seeds can be packed.
pub open spec fn extra_account_metas() -> Option<Seq<ExtraAccountMeta>> {
    match seeded_account_meta(whitelist_seeds(), false, true) {
        Some(whitelist) => Some(seq![whitelist]),
        None => None,
    }
}

/// The data of the account that tells the token program which extra
/// account to hand to `Execute`.
pub fn initialize_extra_account_meta_list() -> (r: Result<Vec<u8>, InterfaceError>)
    ensures
        match r {
            Ok(data) => extra_account_metas() matches Some(metas) && meta_list_account(metas) == Some(data@),
            Err(e) => e == InterfaceError::InvalidAccountMetas && (extra_account_metas() matches Some(metas)
                ==> meta_list_account(metas) is None),
        },
{
    let tag: [u8; 9] = [119u8, 104u8, 105u8, 116u8, 101u8, 108u8, 105u8, 115u8, 116u8];
    let mut seeds: Vec<Seed> = Vec::new();
    seeds.push(literal_seed(tag.as_slice()));
    assert(seeds.deep_view() =~= whitelist_seeds());
    let whitelist = match account_meta_with_seeds(&seeds, false, true) {
        Some(meta) => meta,
        None => { return Err(InterfaceError::InvalidAccountMetas); },
    };
    let mut metas: Vec<ExtraAccountMeta> = Vec::new();
    metas.push(whitelist);
    assert(metas@ =~= seq![whitelist]);
    build_meta_list(&metas)
}

/// What is reported of a whitelist.
#[derive(Debug, PartialEq, Eq)]
pub struct WhitelistStats {
    pub whitelisted: usize,
    pub max_addresses: u16,
    pub total_transfers_validated: u64,
    pub total_transfers_blocked: u64,
    pub is_enabled: bool,
    pub created_at: i64,
    /// The first addresses of the list, five at most.
    pub sample: Vec<Pubkey>,
}

/// The counters of a whitelist and the first of its addresses.
pub fn get_whitelist_stats(whitelist: &Whitelist) -> (stats: WhitelistStats)
    ensures
        stats.whitelisted == whitelist@.approved_addresses.len(),
        stats.max_addresses == whitelist.max_addresses,
        stats.total_transfers_validated == whitelist.total_transfers_validated,
        stats.total_transfers_blocked == whitelist.total_transfers_blocked,
        stats.is_enabled == whitelist.is_enabled,
        stats.created_at == whitelist.created_at,
        stats.sample@ == whitelist@.approved_addresses.take(
            if whitelist@.approved_addresses.len() < SAMPLE_LEN {
                whitelist@.approved_addresses.len() as int
            } else {
                SAMPLE_LEN as int
            },
        ),
{
    let show_count = if whitelist.approved_addresses.len() < SAMPLE_LEN {
        whitelist.approved_addresses.len()
    } else {
        SAMPLE_LEN
    };
    let mut sample: Vec<Pubkey> = Vec::new();
    let mut i: usize = 0;
    while i < show_count
        invariant
            i <= show_count <= whitelist.approved_addresses.len(),
            sample@ == whitelist.approved_addresses@.take(i as int),
        decreases show_count - i,
    {
        sample.push(whitelist.approved_addresses[i]);
        assert(whitelist.approved_addresses@.take(i as int).push(whitelist.approved_addresses@[i as int])
            == whitelist.approved_addresses@.take(i + 1));
        i += 1;
    }
    WhitelistStats {
        whitelisted: whitelist.approved_addresses.len(),
        max_addresses: whitelist.max_addresses,
        total_transfers_validated: whitelist.total_transfers_validated,
        total_transfers_blocked: whitelist.total_transfers_blocked,
        is_enabled: whitelist.is_enabled,
        created_at: whitelist.created_at,
        sample,
    }
}

/// An addition or a removal, as the whitelist is asked for it.
pub enum WhitelistOp {
    Add { address: Pubkey },
    Remove { address: Pubkey },
}

impl WhitelistView {
    /// The whitelist after an operation that it accepts; nothing where it
    /// refuses the operation.
    pub open spec fn apply(self, op: WhitelistOp) -> Option<WhitelistView> {
        match op {
            WhitelistOp::Add { address } => if self.addition_refusal(address) is None {
                Some(self.with_address(address))
            } else {
                None
            },
            WhitelistOp::Remove { address } => if self.removal_refusal(address) is None {
                Some(self.without_address(address))
            } else {
                None
            },
        }
    }

    /// The whitelist after a sequence of operations all of which it
    /// accepts; nothing where it refuses one of them.
    pub open spec fn apply_all(self, ops: Seq<WhitelistOp>) -> Option<WhitelistView>
        decreases ops.len(),
    {
        if ops.len() == 0 {
            Some(self)
        } else {
            match self.apply_all(ops.drop_last()) {
                Some(before) => before.apply(ops.last()),
                None => None,
            }
        }
    }
}

/// The number of additions of `address` among `ops`.
pub open spec fn additions_of(ops: Seq<WhitelistOp>, address: Pubkey) -> nat
    decreases ops.len(),
{
    if ops.len() == 0 {
        0
    } else {
        additions_of(ops.drop_last(), address) + if ops.last() == (WhitelistOp::Add { address }) {
            1nat
        } else {
            0nat
        }
    }
}

/// The number of removals of `address` among `ops`.
pub open spec fn removals_of(ops: Seq<WhitelistOp>, address: Pubkey) -> nat
    decreases ops.len(),
{
    if ops.len() == 0 {
        0
    } else {
        removals_of(ops.drop_last(), address) + if ops.last() == (WhitelistOp::Remove { address }) {
            1nat
        } else {
            0nat
        }
    }
}

/// One if `address` is listed, else zero.
pub open spec fn listed_count(whitelist: WhitelistView, address: Pubkey) -> int {
    if whitelist.is_listed(address) {
        1
    } else {
        0
    }
}

/// After any sequence of additions and removals that a well-formed
/// whitelist accepts, one after the other, the whitelist is well-formed,
/// so that it never lists more addresses than its maximum, and an address
/// is listed exactly when it was added more often than removed, counting
/// one addition for an address that was listed at the start.
pub proof fn lemma_listed_iff_more_additions(start: WhitelistView, ops: Seq<WhitelistOp>, address: Pubkey)
    requires
        start.wf(),
        start.apply_all(ops) is Some,
    ensures
        start.apply_all(ops)->0.wf(),
        listed_count(start, address) + additions_of(ops, address) - removals_of(ops, address)
            == listed_count(start.apply_all(ops)->0, address),
        start.apply_all(ops)->0.is_listed(address) <==> listed_count(start, address) + additions_of(
            ops,
            address,
        ) > removals_of(ops, address),
    decreases ops.len(),
{
    if ops.len() > 0 {
        let front = ops.drop_last();
        lemma_listed_iff_more_additions(start, front, address);
        let before = start.apply_all(front)->0;
        match ops.last() {
            WhitelistOp::Add { address: added } => {
                let after = before.with_address(added);
                assert forall|k: Pubkey| after.is_listed(k) <==> (before.is_listed(k) || k == added) by {
                    if before.is_listed(k) {
                        let i = choose|i: int|
                            0 <= i < before.approved_addresses.len() && before.approved_addresses[i] == k;
                        assert(after.approved_addresses[i] == k);
                    }
                    if k == added {
                        assert(after.approved_addresses[after.approved_addresses.len() - 1] == k);
                    }
                }
            },
            WhitelistOp::Remove { address: removed } => {
                lemma_without_first(before.approved_addresses, removed);
            },
        }
    }
}

/// A whitelist that lists as many addresses as its maximum refuses one
/// more as full.
pub proof fn lemma_full_whitelist_refuses(whitelist: WhitelistView, address: Pubkey)
    requires
        whitelist.approved_addresses.len() >= whitelist.max_addresses,
        !whitelist.is_listed(address),
    ensures
        whitelist.addition_refusal(address) == Some(WhitelistError::WhitelistFull),
        whitelist.apply(WhitelistOp::Add { address }) is None,
{
}

/// After an address was removed from a well-formed whitelist it is not
/// listed, so that its removal is refused as not whitelisted until it is
/// added again.
pub proof fn lemma_removed_is_not_listed(whitelist: WhitelistView, address: Pubkey)
    requires
        whitelist.wf(),
        whitelist.is_listed(address),
    ensures
        whitelist.removal_refusal(address) is None,
        !whitelist.without_address(address).is_listed(address),
        whitelist.without_address(address).removal_refusal(address) == Some(
            WhitelistError::AddressNotWhitelisted,
        ),
        whitelist.without_address(address).apply(WhitelistOp::Remove { address }) is None,
{
    lemma_without_first(whitelist.approved_addresses, address);
}

/// While the whitelist is not enforced every transfer passes, whoever its
/// owner is.
pub proof fn lemma_unenforced_whitelist_allows(whitelist: WhitelistView, owner: Pubkey)
    requires
        !whitelist.is_enabled,
    ensures
        whitelist.allows(owner),
{
}

} // verus!
