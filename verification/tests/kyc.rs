use hookswap::hook_interface::{HookError, HookInstruction, InterfaceError};
use hookswap::host::AccountView;
use hookswap::kyc_hook::{
    check_kyc_status, create_kyc_record, dispatch, fallback, get_kyc_stats,
    initialize_extra_account_meta_list, initialize_kyc_system, transfer_hook_execute,
    update_kyc_status, KYCError, KYCRecord, KYCStats, KYCSystem,
};
use hookswap::pubkey::Pubkey;
use spl_tlv_account_resolution::{account::ExtraAccountMeta, seeds::Seed, state::ExtraAccountMetaList};
use spl_transfer_hook_interface::instruction::{ExecuteInstruction, TransferHookInstruction};

fn user(b: u8) -> Pubkey {
    Pubkey::new_from_array([b; 32])
}

fn record(level: u8, verified: bool) -> KYCRecord {
    let mut system = initialize_kyc_system(user(1), 0);
    create_kyc_record(&mut system, user(5), verified, level, 10)
}

/// The account of a record of the user whose bytes are all `of`.
fn record_account_of(of: u8, verified: u8, level: u8, len: usize) -> AccountView {
    let mut data = vec![0u8; len];
    if len > 41 {
        data[8..40].copy_from_slice(&[of; 32]);
        data[40] = verified;
        data[41] = level;
    }
    AccountView { key: user(60), owner: user(61), executable: false, data }
}

/// The account of a record of the owner of the transfers below, who is the
/// account at position 3.
fn record_account(verified: u8, level: u8, len: usize) -> AccountView {
    record_account_of(3, verified, level, len)
}

fn accounts(count: usize, record: AccountView) -> Vec<AccountView> {
    (0..count)
        .map(|i| {
            if i == 5 {
                record.clone()
            } else {
                AccountView { key: user(i as u8), owner: user(61), executable: false, data: vec![] }
            }
        })
        .collect()
}

#[test]
fn a_new_system_has_counted_nothing() {
    let system = initialize_kyc_system(user(1), 33);
    assert_eq!(
        system,
        KYCSystem {
            authority: user(1),
            total_users: 0,
            created_at: 33,
            total_transfers_validated: 0,
            total_transfers_blocked: 0,
        }
    );
    assert_eq!(KYCSystem::SPACE, 64);
    assert_eq!(KYCRecord::SPACE, 66);
}

#[test]
fn a_new_record_is_counted_by_the_system() {
    let mut system = initialize_kyc_system(user(1), 0);
    let verified = create_kyc_record(&mut system, user(5), true, 2, 70);
    assert_eq!(
        verified,
        KYCRecord {
            user: user(5),
            is_verified: true,
            kyc_level: 2,
            verified_at: 70,
            updated_at: 70,
            transfer_count: 0,
            last_transfer_at: 0,
        }
    );
    let unverified = create_kyc_record(&mut system, user(6), false, 0, 71);
    assert_eq!(unverified.verified_at, 0);
    assert_eq!(unverified.updated_at, 71);
    assert_eq!(system.total_users, 2);
}

#[test]
fn updating_the_status_overwrites_mark_level_and_times() {
    let mut rec = record(1, true);
    update_kyc_status(&mut rec, false, 0, 99);
    assert_eq!(
        rec,
        KYCRecord {
            user: user(5),
            is_verified: false,
            kyc_level: 0,
            verified_at: 0,
            updated_at: 99,
            transfer_count: 0,
            last_transfer_at: 0,
        }
    );
    update_kyc_status(&mut rec, true, 2, 100);
    assert_eq!((rec.is_verified, rec.kyc_level, rec.verified_at, rec.updated_at), (true, 2, 100, 100));
}

#[test]
fn the_status_is_told_of_the_users_own_record_only() {
    assert_eq!(check_kyc_status(&record(1, true), &user(5)), Ok(true));
    assert_eq!(check_kyc_status(&record(1, false), &user(5)), Ok(false));
    assert_eq!(check_kyc_status(&record(1, true), &user(6)), Err(KYCError::InvalidKYCRecord));
}

#[test]
fn the_basic_level_passes_up_to_its_limit() {
    let mut system = initialize_kyc_system(user(1), 0);
    let rec = record(1, true);
    assert_eq!(transfer_hook_execute(&mut system, &rec, &user(5), 0), Ok(()));
    assert_eq!(transfer_hook_execute(&mut system, &rec, &user(5), 1_000_000), Ok(()));
    assert_eq!(
        transfer_hook_execute(&mut system, &rec, &user(5), 1_000_001),
        Err(KYCError::TransferAmountExceedsLimit)
    );
    assert_eq!(
        transfer_hook_execute(&mut system, &rec, &user(5), u64::MAX),
        Err(KYCError::TransferAmountExceedsLimit)
    );
    assert_eq!(system.total_transfers_validated, 2);
    assert_eq!(system.total_transfers_blocked, 2);
}

#[test]
fn the_enhanced_level_passes_up_to_its_limit() {
    let mut system = initialize_kyc_system(user(1), 0);
    let rec = record(2, true);
    assert_eq!(transfer_hook_execute(&mut system, &rec, &user(5), 1_000_001), Ok(()));
    assert_eq!(transfer_hook_execute(&mut system, &rec, &user(5), 100_000_000), Ok(()));
    assert_eq!(
        transfer_hook_execute(&mut system, &rec, &user(5), 100_000_001),
        Err(KYCError::TransferAmountExceedsLimit)
    );
    assert_eq!(system.total_transfers_validated, 2);
    assert_eq!(system.total_transfers_blocked, 1);
}

#[test]
fn the_hook_fails_closed() {
    let mut system = initialize_kyc_system(user(1), 0);
    assert_eq!(
        transfer_hook_execute(&mut system, &record(2, true), &user(6), 1),
        Err(KYCError::InvalidKYCRecord)
    );
    assert_eq!(system.total_transfers_blocked, 0);
    assert_eq!(
        transfer_hook_execute(&mut system, &record(2, false), &user(5), 1),
        Err(KYCError::UserNotVerified)
    );
    assert_eq!(
        transfer_hook_execute(&mut system, &record(0, true), &user(5), 0),
        Err(KYCError::InsufficientKYCLevel)
    );
    assert_eq!(
        transfer_hook_execute(&mut system, &record(3, true), &user(5), 0),
        Err(KYCError::InvalidKYCLevel)
    );
    assert_eq!(
        transfer_hook_execute(&mut system, &record(255, true), &user(5), 0),
        Err(KYCError::InvalidKYCLevel)
    );
    assert_eq!(system.total_transfers_blocked, 4);
    assert_eq!(system.total_transfers_validated, 0);
}

#[test]
fn the_kyc_hook_answers_an_unpacked_instruction() {
    let execute = |amount| Some(HookInstruction::Execute { amount });
    let good = accounts(7, record_account(1, 1, 74));
    assert_eq!(dispatch(None, &good), Err(HookError::Interface(InterfaceError::InvalidInstructionData)));
    assert_eq!(dispatch(execute(1_000_000), &good), Ok(()));
    assert_eq!(dispatch(execute(1_000_001), &good), Err(HookError::Hook(KYCError::TransferAmountExceedsLimit)));
    assert_eq!(
        dispatch(execute(1), &accounts(6, record_account(1, 1, 74))),
        Err(HookError::Interface(InterfaceError::NotEnoughAccountKeys))
    );
    assert_eq!(
        dispatch(execute(1), &accounts(7, record_account(1, 1, 73))),
        Err(HookError::Hook(KYCError::InvalidKYCRecord))
    );
    assert_eq!(
        dispatch(execute(1), &accounts(7, record_account(0, 1, 74))),
        Err(HookError::Hook(KYCError::UserNotVerified))
    );
    // any mark but zero counts as verified
    assert_eq!(dispatch(execute(100_000_000), &accounts(7, record_account(7, 2, 80))), Ok(()));
    assert_eq!(
        dispatch(execute(100_000_001), &accounts(7, record_account(1, 2, 74))),
        Err(HookError::Hook(KYCError::TransferAmountExceedsLimit))
    );
    // a level that allows no transfers passes none, not even the empty one
    assert_eq!(
        dispatch(execute(0), &accounts(7, record_account(1, 0, 74))),
        Err(HookError::Hook(KYCError::InsufficientKYCLevel))
    );
    assert_eq!(
        dispatch(execute(1), &accounts(7, record_account(1, 0, 74))),
        Err(HookError::Hook(KYCError::InsufficientKYCLevel))
    );
    assert_eq!(
        dispatch(execute(0), &accounts(7, record_account(1, 3, 74))),
        Err(HookError::Hook(KYCError::InvalidKYCLevel))
    );
    assert_eq!(
        dispatch(execute(1), &accounts(7, record_account(1, 255, 74))),
        Err(HookError::Hook(KYCError::InvalidKYCLevel))
    );
    // the record of another user is refused before anything else is asked
    assert_eq!(
        dispatch(execute(1), &accounts(7, record_account_of(4, 1, 1, 74))),
        Err(HookError::Hook(KYCError::InvalidKYCRecord))
    );
    assert_eq!(
        dispatch(execute(1), &accounts(7, record_account_of(4, 0, 0, 74))),
        Err(HookError::Hook(KYCError::InvalidKYCRecord))
    );
    let mut near = record_account(1, 1, 74);
    near.data[39] = 4;
    assert_eq!(dispatch(execute(1), &accounts(7, near)), Err(HookError::Hook(KYCError::InvalidKYCRecord)));
    assert_eq!(dispatch(Some(HookInstruction::InitializeExtraAccountMetaList), &[]), Ok(()));
    assert_eq!(dispatch(Some(HookInstruction::UpdateExtraAccountMetaList), &[]), Ok(()));
}

#[test]
fn the_kyc_hook_answers_a_raw_instruction() {
    let program = user(77);
    let good = accounts(7, record_account(1, 1, 74));
    let execute = TransferHookInstruction::Execute { amount: 1_000_000 }.pack();
    assert_eq!(fallback(&program, &good, &execute), Ok(()));
    let too_much = TransferHookInstruction::Execute { amount: 1_000_001 }.pack();
    assert_eq!(
        fallback(&program, &good, &too_much),
        Err(HookError::Hook(KYCError::TransferAmountExceedsLimit))
    );
    assert_eq!(
        fallback(&program, &accounts(3, record_account(1, 1, 74)), &execute),
        Err(HookError::Interface(InterfaceError::NotEnoughAccountKeys))
    );
    assert_eq!(fallback(&program, &good, &[]), Err(HookError::Interface(InterfaceError::InvalidInstructionData)));
    assert_eq!(
        fallback(&program, &good, &[9u8; 16]),
        Err(HookError::Interface(InterfaceError::InvalidInstructionData))
    );
    let mut by_hand = vec![105, 37, 101, 197, 75, 251, 102, 26];
    by_hand.extend_from_slice(&1_000_001u64.to_le_bytes());
    assert_eq!(
        fallback(&program, &good, &by_hand),
        Err(HookError::Hook(KYCError::TransferAmountExceedsLimit))
    );
    let init = TransferHookInstruction::InitializeExtraAccountMetaList { extra_account_metas: vec![] }.pack();
    assert_eq!(fallback(&program, &[], &init), Ok(()));
    let update = TransferHookInstruction::UpdateExtraAccountMetaList { extra_account_metas: vec![] }.pack();
    assert_eq!(fallback(&program, &[], &update), Ok(()));
}

#[test]
fn the_kyc_hook_asks_for_the_system_and_the_owners_record() {
    let data = initialize_extra_account_meta_list().unwrap();
    let metas = [
        ExtraAccountMeta::new_with_seeds(&[Seed::Literal { bytes: b"kyc_system".to_vec() }], false, true).unwrap(),
        ExtraAccountMeta::new_with_seeds(
            &[Seed::Literal { bytes: b"kyc_record".to_vec() }, Seed::AccountKey { index: 3 }],
            false,
            true,
        )
        .unwrap(),
    ];
    let mut expected = vec![0u8; ExtraAccountMetaList::size_of(2).unwrap()];
    ExtraAccountMetaList::init::<ExecuteInstruction>(&mut expected, &metas).unwrap();
    assert_eq!(data, expected);
    assert_eq!(data.len(), 86);
    assert_eq!(&data[12..16], &[2, 0, 0, 0]);
    assert_eq!(&data[17..29], b"\x01\x0akyc_system");
    assert_eq!(&data[52..66], b"\x01\x0akyc_record\x03\x03");
}

#[test]
fn kyc_statistics_report_the_counters() {
    let mut system = initialize_kyc_system(user(1), 8);
    let rec = create_kyc_record(&mut system, user(5), true, 1, 9);
    transfer_hook_execute(&mut system, &rec, &user(5), 5).unwrap();
    transfer_hook_execute(&mut system, &rec, &user(5), 5_000_000).unwrap_err();
    assert_eq!(
        get_kyc_stats(&system),
        KYCStats { total_users: 1, total_transfers_validated: 1, total_transfers_blocked: 1, created_at: 8 }
    );
}

#[test]
fn an_execute_instruction_is_read_whatever_follows_the_amount() {
    let program = user(77);
    let good = accounts(7, record_account(1, 2, 74));
    let mut data = vec![105, 37, 101, 197, 75, 251, 102, 26];
    data.extend_from_slice(&100_000_000u64.to_le_bytes());
    assert_eq!(fallback(&program, &good, &data), Ok(()));
    data.extend_from_slice(&[9, 9, 9]);
    assert_eq!(fallback(&program, &good, &data), Ok(()));
    let mut more = vec![105, 37, 101, 197, 75, 251, 102, 26];
    more.extend_from_slice(&100_000_001u64.to_le_bytes());
    more.push(0);
    assert_eq!(fallback(&program, &good, &more), Err(HookError::Hook(KYCError::TransferAmountExceedsLimit)));
    // the amount is read with the lowest byte first
    let mut low = vec![105, 37, 101, 197, 75, 251, 102, 26];
    low.extend_from_slice(&[0x40, 0x42, 0x0f, 0, 0, 0, 0, 0]);
    assert_eq!(fallback(&program, &accounts(7, record_account(1, 1, 74)), &low), Ok(()));
    low[8] = 0x41;
    assert_eq!(
        fallback(&program, &accounts(7, record_account(1, 1, 74)), &low),
        Err(HookError::Hook(KYCError::TransferAmountExceedsLimit))
    );
    // seven bytes are no instruction, nor are the marking bytes with half an amount
    assert_eq!(
        fallback(&program, &good, &data[..7]),
        Err(HookError::Interface(InterfaceError::InvalidInstructionData))
    );
    assert_eq!(
        fallback(&program, &good, &data[..12]),
        Err(HookError::Interface(InterfaceError::InvalidInstructionData))
    );
}

#[test]
fn the_raw_path_judges_as_the_record_does() {
    for level in [0u8, 1, 2, 3, 200] {
        for verified in [false, true] {
            for amount in [0u64, 1, 1_000_000, 1_000_001, 100_000_000, 100_000_001, u64::MAX] {
                for of in [3u8, 9] {
                    let mut system = initialize_kyc_system(user(1), 0);
                    let rec = create_kyc_record(&mut system, user(of), verified, level, 10);
                    let direct = transfer_hook_execute(&mut system, &rec, &user(3), amount);
                    let raw = dispatch(
                        Some(HookInstruction::Execute { amount }),
                        &accounts(7, record_account_of(of, verified as u8, level, 74)),
                    );
                    assert_eq!(raw, direct.map_err(HookError::Hook));
                }
            }
        }
    }
}

#[test]
fn kyc_counters_stay_at_their_largest_value() {
    let mut system = initialize_kyc_system(user(1), 0);
    system.total_users = u64::MAX;
    system.total_transfers_validated = u64::MAX;
    system.total_transfers_blocked = u64::MAX;
    let rec = create_kyc_record(&mut system, user(5), true, 1, 10);
    assert_eq!(system.total_users, u64::MAX);
    assert_eq!(transfer_hook_execute(&mut system, &rec, &user(5), 1), Ok(()));
    assert_eq!(
        transfer_hook_execute(&mut system, &rec, &user(5), 1_000_001),
        Err(KYCError::TransferAmountExceedsLimit)
    );
    assert_eq!(system.total_transfers_validated, u64::MAX);
    assert_eq!(system.total_transfers_blocked, u64::MAX);
}
