//! The KYC hook: a record of verification for each user, and the rule by
//! which a transfer passes.

use vstd::prelude::*;
use crate::hook_interface::{
    account_meta_with_seeds, build_meta_list, execute_amount, is_execute, literal_seed,
    meta_list_account, seeded_account_meta, unpack_instruction, unpacked_instruction,
    ExtraAccountMeta, HookError, HookInstruction, InterfaceError, Seed, SeedView,
};
use crate::host::AccountView;
use crate::math::{count, counted};
use crate::pubkey::{key_at, Pubkey};

verus! {

/// Why an instruction of the KYC hook is refused.
#[derive(Clone, Copy, Debug, PartialEq, Eq, Structural)]
pub enum KYCError {
    /// User is not KYC verified - Transfer blocked
    UserNotVerified,
    /// Invalid KYC record
    InvalidKYCRecord,
    /// Transfer amount exceeds KYC level limit
    TransferAmountExceedsLimit,
    /// Insufficient KYC level for this operation
    InsufficientKYCLevel,
    /// Invalid KYC level
    InvalidKYCLevel,
    /// KYC record not found
    KYCRecordNotFound,
}

/// The state of the hook as a whole.
#[derive(Clone, Copy, Debug, PartialEq, Eq)]
pub struct KYCSystem {
    pub authority: Pubkey,
    pub total_users: u64,
    pub created_at: i64,
    pub total_transfers_validated: u64,
    pub total_transfers_blocked: u64,
}

impl KYCSystem {
    /// Bytes that the record takes in an account.
    pub const SPACE: usize = 64;
}

/// What is known of one user.
#[derive(Clone, Copy, Debug, PartialEq, Eq)]
pub struct KYCRecord {
    pub user: Pubkey,
    pub is_verified: bool,
    /// 0 = none, 1 = basic, 2 = enhanced.
    pub kyc_level: u8,
    pub verified_at: i64,
    pub updated_at: i64,
    pub transfer_count: u64,
    pub last_transfer_at: i64,
}

impl KYCRecord {
    /// Bytes that the record takes in an account.
    pub const SPACE: usize = 66;
}

/// The most that a user of the basic level may transfer at once.
pub const BASIC_LIMIT: u64 = 1_000_000;

/// The most that a user of the enhanced level may transfer at once.
pub const ENHANCED_LIMIT: u64 = 100_000_000;

/// The number of accounts that `Execute` reads when it comes in raw.
pub const EXECUTE_ACCOUNTS: usize = 7;

/// The position of the owner of the transfer among the accounts of
/// `Execute`.
pub const OWNER_ACCOUNT: usize = 3;

/// The position of the KYC record among the accounts of `Execute`.
pub const RECORD_ACCOUNT: usize = 5;

/// The length that the data of a KYC record account has at least.
pub const RECORD_DATA_LEN: usize = 74;

/// The position of the user in the data of a record account.
pub const USER_OFFSET: usize = 8;

/// The position of the verification mark in the data of a record account.
pub const VERIFIED_OFFSET: usize = 40;

/// The position of the level in the data of a record account.
pub const LEVEL_OFFSET: usize = 41;

/// A new system, with no user and nothing counted.
pub fn initialize_kyc_system(authority: Pubkey, now: i64) -> (system: KYCSystem)
    ensures
        system == (KYCSystem {
            authority,
            total_users: 0,
            created_at: now,
            total_transfers_validated: 0,
            total_transfers_blocked: 0,
        }),
{
    KYCSystem {
        authority,
        total_users: 0,
        created_at: now,
        total_transfers_validated: 0,
        total_transfers_blocked: 0,
    }
}

/// The time at which a record with the mark `is_verified`, written at
/// `now`, was verified: `now`, or 0 for never.
pub open spec fn verified_time(is_verified: bool, now: i64) -> i64 {
    if is_verified {
        now
    } else {
        0
    }
}

/// The record of a new user; the system counts the user, up to the
/// largest number that it can hold.
pub fn create_kyc_record(
    kyc_system: &mut KYCSystem,
    user: Pubkey,
    is_verified: bool,
    kyc_level: u8,
    now: i64,
) -> (record: KYCRecord)
    ensures
        record == (KYCRecord {
            user,
            is_verified,
            kyc_level,
            verified_at: verified_time(is_verified, now),
            updated_at: now,
            transfer_count: 0,
            last_transfer_at: 0,
        }),
        *final(kyc_system) == (KYCSystem {
            total_users: counted(old(kyc_system).total_users),
            ..*old(kyc_system)
        }),
{
    kyc_system.total_users = count(kyc_system.total_users);
    KYCRecord {
        user,
        is_verified,
        kyc_level,
        verified_at: if is_verified { now } else { 0 },
        updated_at: now,
        transfer_count: 0,
        last_transfer_at: 0,
    }
}

/// Overwrites the verification mark and the level of a record.
pub fn update_kyc_status(kyc_record: &mut KYCRecord, is_verified: bool, kyc_level: u8, now: i64)
    ensures
        *final(kyc_record) == (KYCRecord {
            is_verified,
            kyc_level,
            verified_at: verified_time(is_verified, now),
            updated_at: now,
            ..*old(kyc_record)
        }),
{
    kyc_record.is_verified = is_verified;
    kyc_record.kyc_level = kyc_level;
    kyc_record.verified_at = if is_verified { now } else { 0 };
    kyc_record.updated_at = now;
}

/// Whether the user of a record is verified.  It is refused where the
/// record is not the user's.
pub fn check_kyc_status(kyc_record: &KYCRecord, user: &Pubkey) -> (r: Result<bool, KYCError>)
    ensures
        r == if kyc_record.user == *user {
            Ok::<bool, KYCError>(kyc_record.is_verified)
        } else {
            Err::<bool, KYCError>(KYCError::InvalidKYCRecord)
        },
{
    if kyc_record.user != *user {
        return Err(KYCError::InvalidKYCRecord);
    }
    Ok(kyc_record.is_verified)
}

/// The most that a user of `kyc_level` may transfer at once, where the
/// level allows transfers at all.
pub open spec fn transfer_limit(kyc_level: u8) -> Option<u64> {
    if kyc_level == 1 {
        Some(BASIC_LIMIT)
    } else if kyc_level == 2 {
        Some(ENHANCED_LIMIT)
    } else {
        None
    }
}

/// Whether a transfer of `amount` passes, and if not, why.  It fails
/// closed: where the record is not the owner's, where the owner is not
/// verified, where the level is none or unknown, and where the amount is
/// more than the level allows, in that order.
pub open spec fn judgement(is_owner: bool, is_verified: bool, kyc_level: u8, amount: u64) -> Result<(), KYCError> {
    if !is_owner {
        Err(KYCError::InvalidKYCRecord)
    } else if !is_verified {
        Err(KYCError::UserNotVerified)
    } else if kyc_level == 0 {
        Err(KYCError::InsufficientKYCLevel)
    } else {
        match transfer_limit(kyc_level) {
            Some(limit) => if amount > limit {
                Err(KYCError::TransferAmountExceedsLimit)
            } else {
                Ok(())
            },
            None => Err(KYCError::InvalidKYCLevel),
        }
    }
}

/// Whether a transfer of `amount` by `owner` passes under `record`, and if
/// not, why.
pub open spec fn transfer_verdict(record: KYCRecord, owner: Pubkey, amount: u64) -> Result<(), KYCError> {
    judgement(record.user == owner, record.is_verified, record.kyc_level, amount)
}

/// Judges a transfer from what a record says of its user.
pub fn judge(is_owner: bool, is_verified: bool, kyc_level: u8, amount: u64) -> (r: Result<(), KYCError>)
    ensures
        r == judgement(is_owner, is_verified, kyc_level, amount),
{
    if !is_owner {
        Err(KYCError::InvalidKYCRecord)
    } else if !is_verified {
        Err(KYCError::UserNotVerified)
    } else if kyc_level == 0 {
        Err(KYCError::InsufficientKYCLevel)
    } else if kyc_level == 1 {
        if amount > BASIC_LIMIT {
            Err(KYCError::TransferAmountExceedsLimit)
        } else {
            Ok(())
        }
    } else if kyc_level == 2 {
        if amount > ENHANCED_LIMIT {
            Err(KYCError::TransferAmountExceedsLimit)
        } else {
            Ok(())
        }
    } else {
        Err(KYCError::InvalidKYCLevel)
    }
}

/// The system after a transfer was judged: a transfer that passes is
/// counted as validated; one that is refused is counted as blocked, unless
/// the record was not the owner's, which is not counted.  A counter that
/// has reached its largest value stays there.
pub open spec fn system_after(system: KYCSystem, verdict: Result<(), KYCError>) -> KYCSystem {
    match verdict {
        Ok(_) => KYCSystem {
            total_transfers_validated: counted(system.total_transfers_validated),
            ..system
        },
        Err(KYCError::InvalidKYCRecord) => system,
        Err(_) => KYCSystem {
            total_transfers_blocked: counted(system.total_transfers_blocked),
            ..system
        },
    }
}

/// Judges a transfer of `amount` by `owner`, whose record is `kyc_record`,
/// and counts the verdict.  A verified user of the basic level passes up to
/// 1,000,000 units, one of the enhanced level up to 100,000,000.
pub fn transfer_hook_execute(
    kyc_system: &mut KYCSystem,
    kyc_record: &KYCRecord,
    owner: &Pubkey,
    amount: u64,
) -> (r: Result<(), KYCError>)
    ensures
        r == transfer_verdict(*kyc_record, *owner, amount),
        *final(kyc_system) == system_after(*old(kyc_system), r),
        kyc_record.user == *owner && kyc_record.is_verified && kyc_record.kyc_level == 1 ==> (r is Ok
            <==> amount <= BASIC_LIMIT),
        kyc_record.user == *owner && kyc_record.is_verified && kyc_record.kyc_level == 2 ==> (r is Ok
            <==> amount <= ENHANCED_LIMIT),
        kyc_record.user == *owner && kyc_record.is_verified && (kyc_record.kyc_level == 1
            || kyc_record.kyc_level == 2) && r is Err ==> r == Err::<(), KYCError>(
            KYCError::TransferAmountExceedsLimit,
        ),
{
    let verdict = judge(kyc_record.user == *owner, kyc_record.is_verified, kyc_record.kyc_level, amount);
    match verdict {
        Ok(()) => {
            kyc_system.total_transfers_validated = count(kyc_system.total_transfers_validated);
        },
        Err(KYCError::InvalidKYCRecord) => {},
        Err(_) => {
            kyc_system.total_transfers_blocked = count(kyc_system.total_transfers_blocked);
        },
    }
    verdict
}

/// Whether the data of a record account says that the record is `owner`'s.
pub open spec fn raw_is_owner(data: Seq<u8>, owner: Pubkey) -> bool {
    data.subrange(USER_OFFSET as int, USER_OFFSET + 32) == owner.bytes@
}

/// Whether `Execute` for `amount` passes when it comes in raw, with
/// `accounts` handed in, and if not, why.  Where enough accounts came and
/// the record account is long enough, the transfer is judged as by the
/// record itself: from the user, the mark and the level that the data
/// hold, against the owner of the transfer.
pub open spec fn raw_execute_verdict(accounts: Seq<AccountView>, amount: u64) -> Result<(), HookError<KYCError>> {
    if accounts.len() < EXECUTE_ACCOUNTS {
        Err(HookError::Interface(InterfaceError::NotEnoughAccountKeys))
    } else {
        let data = accounts[RECORD_ACCOUNT as int].data@;
        if data.len() < RECORD_DATA_LEN {
            Err(HookError::Hook(KYCError::InvalidKYCRecord))
        } else {
            match judgement(
                raw_is_owner(data, accounts[OWNER_ACCOUNT as int].key),
                data[VERIFIED_OFFSET as int] != 0,
                data[LEVEL_OFFSET as int],
                amount,
            ) {
                Ok(_) => Ok(()),
                Err(e) => Err(HookError::Hook(e)),
            }
        }
    }
}

/// What the hook answers to an instruction that came in raw: data that is
/// no instruction is refused, `Execute` is judged from the raw data of the
/// record account, the two instructions on the list of extra accounts pass.
pub open spec fn raw_verdict(instruction: Option<HookInstruction>, accounts: Seq<AccountView>) -> Result<
    (),
    HookError<KYCError>,
> {
    match instruction {
        None => Err(HookError::Interface(InterfaceError::InvalidInstructionData)),
        Some(HookInstruction::Execute { amount }) => raw_execute_verdict(accounts, amount),
        Some(HookInstruction::InitializeExtraAccountMetaList) => Ok(()),
        Some(HookInstruction::UpdateExtraAccountMetaList) => Ok(()),
    }
}

/// Answers an instruction of the interface that was unpacked already.
pub fn dispatch(instruction: Option<HookInstruction>, accounts: &[AccountView]) -> (r: Result<
    (),
    HookError<KYCError>,
>)
    ensures
        r == raw_verdict(instruction, accounts@),
{
    match instruction {
        None => Err(HookError::Interface(InterfaceError::InvalidInstructionData)),
        Some(HookInstruction::Execute { amount }) => {
            if accounts.len() < EXECUTE_ACCOUNTS {
                return Err(HookError::Interface(InterfaceError::NotEnoughAccountKeys));
            }
            let kyc_data = &accounts[RECORD_ACCOUNT].data;
            if kyc_data.len() < RECORD_DATA_LEN {
                return Err(HookError::Hook(KYCError::InvalidKYCRecord));
            }
            let user = key_at(kyc_data.as_slice(), USER_OFFSET);
            let owner = &accounts[OWNER_ACCOUNT].key;
            let is_owner = user == *owner;
            proof {
                if user.bytes@ == owner.bytes@ {
                    assert(user.bytes =~= owner.bytes);
                }
            }
            let is_verified = kyc_data[VERIFIED_OFFSET] != 0;
            let kyc_level = kyc_data[LEVEL_OFFSET];
            match judge(is_owner, is_verified, kyc_level, amount) {
                Ok(()) => Ok(()),
                Err(e) => Err(HookError::Hook(e)),
            }
        },
        Some(HookInstruction::InitializeExtraAccountMetaList) => Ok(()),
        Some(HookInstruction::UpdateExtraAccountMetaList) => Ok(()),
    }
}

/// Answers an instruction of the transfer hook interface that came in raw.
/// Data of fewer than eight bytes is refused as no instruction; data that
/// begins as an `Execute` instruction does is answered as that instruction.
pub fn fallback(_program_id: &Pubkey, accounts: &[AccountView], data: &[u8]) -> (r: Result<
    (),
    HookError<KYCError>,
>)
    ensures
        r == raw_verdict(unpacked_instruction(data@), accounts@),
        data@.len() < 8 ==> r == Err::<(), HookError<KYCError>>(
            HookError::Interface(InterfaceError::InvalidInstructionData),
        ),
        is_execute(data@) ==> r == raw_verdict(
            Some(HookInstruction::Execute { amount: execute_amount(data@) }),
            accounts@,
        ),
{
    let instruction = unpack_instruction(data);
    dispatch(instruction, accounts)
}

/// The seeds of the address of the system account.
pub open spec fn system_seeds() -> Seq<SeedView> {
    seq![SeedView::Literal { bytes: seq![107u8, 121u8, 99u8, 95u8, 115u8, 121u8, 115u8, 116u8, 101u8, 109u8] }]
}

/// The seeds of the address of the record of the owner of a transfer: the
/// owner is the account at position 3 of `Execute`.
pub open spec fn record_seeds() -> Seq<SeedView> {
    seq![
        SeedView::Literal { bytes: seq![107u8, 121u8, 99u8, 95u8, 114u8, 101u8, 99u8, 111u8, 114u8, 100u8] },
        SeedView::AccountKey { index: 3 },
    ]
}

/// The extra accounts that the hook asks for: the system and the record of
/// the owner, both writable and neither a signer; where their seeds can be
/// packed.
pub open spec fn extra_account_metas() -> Option<Seq<ExtraAccountMeta>> {
    match (seeded_account_meta(system_seeds(), false, true), seeded_account_meta(record_seeds(), false, true)) {
        (Some(system), Some(record)) => Some(seq![system, record]),
        _ => None,
    }
}

/// The data of the account that tells the token program which extra
/// accounts to hand to `Execute`.
pub fn initialize_extra_account_meta_list() -> (r: Result<Vec<u8>, InterfaceError>)
    ensures
        match r {
            Ok(data) => extra_account_metas() matches Some(metas) && meta_list_account(metas) == Some(data@),
            Err(e) => e == InterfaceError::InvalidAccountMetas && (extra_account_metas() matches Some(metas)
                ==> meta_list_account(metas) is None),
        },
{
    let system_tag: [u8; 10] = [107u8, 121u8, 99u8, 95u8, 115u8, 121u8, 115u8, 116u8, 101u8, 109u8];
    let record_tag: [u8; 10] = [107u8, 121u8, 99u8, 95u8, 114u8, 101u8, 99u8, 111u8, 114u8, 100u8];
    let mut first: Vec<Seed> = Vec::new();
    first.push(literal_seed(system_tag.as_slice()));
    let mut second: Vec<Seed> = Vec::new();
    second.push(literal_seed(record_tag.as_slice()));
    second.push(Seed::AccountKey { index: 3 });
    assert(first.deep_view() =~= system_seeds());
    assert(second.deep_view() =~= record_seeds());
    let system = match account_meta_with_seeds(&first, false, true) {
        Some(meta) => meta,
        None => { return Err(InterfaceError::InvalidAccountMetas); },
    };
    let record = match account_meta_with_seeds(&second, false, true) {
        Some(meta) => meta,
        None => { return Err(InterfaceError::InvalidAccountMetas); },
    };
    let mut metas: Vec<ExtraAccountMeta> = Vec::new();
    metas.push(system);
    metas.push(record);
    assert(metas@ =~= seq![system, record]);
    build_meta_list(&metas)
}

/// What is reported of the system.
#[derive(Clone, Copy, Debug, PartialEq, Eq)]
pub struct KYCStats {
    pub total_users: u64,
    pub total_transfers_validated: u64,
    pub total_transfers_blocked: u64,
    pub created_at: i64,
}

/// The counters of the system.
pub fn get_kyc_stats(kyc_system: &KYCSystem) -> (stats: KYCStats)
    ensures
        stats == (KYCStats {
            total_users: kyc_system.total_users,
            total_transfers_validated: kyc_system.total_transfers_validated,
            total_transfers_blocked: kyc_system.total_transfers_blocked,
            created_at: kyc_system.created_at,
        }),
{
    KYCStats {
        total_users: kyc_system.total_users,
        total_transfers_validated: kyc_system.total_transfers_validated,
        total_transfers_blocked: kyc_system.total_transfers_blocked,
        created_at: kyc_system.created_at,
    }
}

/// A transfer by a verified user of the basic or the enhanced level, judged
/// under the user's own record, passes exactly when its amount is no more
/// than the limit of the level, and else fails as exceeding the limit.
pub proof fn lemma_verified_transfer(record: KYCRecord, amount: u64)
    requires
        record.is_verified,
        record.kyc_level == 1 || record.kyc_level == 2,
    ensures
        transfer_limit(record.kyc_level) is Some,
        amount <= transfer_limit(record.kyc_level)->0 ==> transfer_verdict(record, record.user, amount) is Ok,
        amount > transfer_limit(record.kyc_level)->0 ==> transfer_verdict(record, record.user, amount) == Err::<
            (),
            KYCError,
        >(KYCError::TransferAmountExceedsLimit),
{
}

/// A transfer never passes for a user who is not verified, nor under a
/// record of another user, nor at a level other than basic or enhanced.
pub proof fn lemma_fails_closed(record: KYCRecord, owner: Pubkey, amount: u64)
    requires
        transfer_verdict(record, owner, amount) is Ok,
    ensures
        record.user == owner,
        record.is_verified,
        record.kyc_level == 1 || record.kyc_level == 2,
        amount <= transfer_limit(record.kyc_level)->0,
{
}

} // verus!
