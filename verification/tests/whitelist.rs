use hookswap::hook_interface::{HookError, HookInstruction, InterfaceError};
use hookswap::host::AccountView;
use hookswap::pubkey::Pubkey;
use hookswap::whitelist_hook::{
    add_to_whitelist, bulk_add_to_whitelist, dispatch, fallback, get_whitelist_stats,
    initialize_extra_account_meta_list, initialize_whitelist, is_whitelisted, read_whitelist,
    remove_from_whitelist, set_whitelist_enabled, transfer_hook_execute, Whitelist, WhitelistError,
};
use spl_tlv_account_resolution::{account::ExtraAccountMeta, seeds::Seed, state::ExtraAccountMetaList};
use spl_transfer_hook_interface::instruction::{ExecuteInstruction, TransferHookInstruction};

fn address(b: u8) -> Pubkey {
    Pubkey::new_from_array([b; 32])
}

/// The data of the account of a whitelist: eight marking bytes, the record
/// as the host's framework writes it, and `padding` unused bytes.
fn account_data(whitelist: &Whitelist, padding: usize) -> Vec<u8> {
    let listed: Vec<[u8; 32]> = whitelist.approved_addresses.iter().map(|a| a.to_bytes()).collect();
    let record = anchor_lang::prelude::borsh::to_vec(&(
        whitelist.authority.to_bytes(),
        whitelist.max_addresses,
        listed,
        whitelist.created_at,
        whitelist.total_transfers_validated,
        whitelist.total_transfers_blocked,
        whitelist.is_enabled,
    ))
    .unwrap();
    let mut data = vec![0xa5u8; 8];
    data.extend_from_slice(&record);
    data.extend_from_slice(&vec![0u8; padding]);
    data
}

fn listing(enabled: bool, listed: &[u8]) -> Whitelist {
    Whitelist {
        authority: address(1),
        max_addresses: 100,
        approved_addresses: listed.iter().map(|b| address(*b)).collect(),
        created_at: -5,
        total_transfers_validated: 7,
        total_transfers_blocked: u64::MAX,
        is_enabled: enabled,
    }
}

/// `count` accounts of a transfer by the owner whose bytes are all `owner`,
/// with `data` in the account of the whitelist.
fn accounts(count: usize, owner: u8, data: Vec<u8>) -> Vec<AccountView> {
    (0..count)
        .map(|i| AccountView {
            key: if i == 3 { address(owner) } else { address(90 + i as u8) },
            owner: address(91),
            executable: false,
            data: if i == 4 { data.clone() } else { vec![] },
        })
        .collect()
}

#[test]
fn a_new_whitelist_is_enforced_and_empty() {
    let whitelist = initialize_whitelist(address(1), 100, 42);
    assert_eq!(
        whitelist,
        Whitelist {
            authority: address(1),
            max_addresses: 100,
            approved_addresses: vec![],
            created_at: 42,
            total_transfers_validated: 0,
            total_transfers_blocked: 0,
            is_enabled: true,
        }
    );
    assert_eq!(Whitelist::SPACE, 3263);
}

#[test]
fn an_added_address_is_listed_last() {
    let mut whitelist = initialize_whitelist(address(1), 3, 0);
    assert_eq!(add_to_whitelist(&mut whitelist, address(5)), Ok(()));
    assert_eq!(add_to_whitelist(&mut whitelist, address(4)), Ok(()));
    assert_eq!(whitelist.approved_addresses, vec![address(5), address(4)]);
    assert!(is_whitelisted(&whitelist, &address(4)));
    assert!(!is_whitelisted(&whitelist, &address(6)));
}

#[test]
fn adding_twice_is_refused() {
    let mut whitelist = initialize_whitelist(address(1), 1, 0);
    assert_eq!(add_to_whitelist(&mut whitelist, address(5)), Ok(()));
    assert_eq!(add_to_whitelist(&mut whitelist, address(5)), Err(WhitelistError::AddressAlreadyWhitelisted));
    assert_eq!(whitelist.approved_addresses, vec![address(5)]);
}

#[test]
fn one_address_more_than_the_maximum_is_refused_as_full() {
    let mut whitelist = initialize_whitelist(address(1), 2, 0);
    assert_eq!(add_to_whitelist(&mut whitelist, address(5)), Ok(()));
    assert_eq!(add_to_whitelist(&mut whitelist, address(6)), Ok(()));
    assert_eq!(add_to_whitelist(&mut whitelist, address(7)), Err(WhitelistError::WhitelistFull));
    assert_eq!(whitelist.approved_addresses, vec![address(5), address(6)]);
}

#[test]
fn removing_an_address_twice_succeeds_once() {
    let mut whitelist = initialize_whitelist(address(1), 3, 0);
    for b in 5..8 {
        add_to_whitelist(&mut whitelist, address(b)).unwrap();
    }
    assert_eq!(remove_from_whitelist(&mut whitelist, address(6)), Ok(()));
    assert_eq!(whitelist.approved_addresses, vec![address(5), address(7)]);
    assert_eq!(remove_from_whitelist(&mut whitelist, address(6)), Err(WhitelistError::AddressNotWhitelisted));
    assert_eq!(whitelist.approved_addresses, vec![address(5), address(7)]);
    assert_eq!(add_to_whitelist(&mut whitelist, address(6)), Ok(()));
    assert_eq!(whitelist.approved_addresses, vec![address(5), address(7), address(6)]);
}

#[test]
fn an_address_is_listed_when_added_more_often_than_removed() {
    let mut whitelist = initialize_whitelist(address(1), 1, 0);
    assert!(!is_whitelisted(&whitelist, &address(5)));
    add_to_whitelist(&mut whitelist, address(5)).unwrap();
    assert!(is_whitelisted(&whitelist, &address(5)));
    // refused: the count of additions stays
    assert!(add_to_whitelist(&mut whitelist, address(6)).is_err());
    assert!(!is_whitelisted(&whitelist, &address(6)));
    remove_from_whitelist(&mut whitelist, address(5)).unwrap();
    assert!(!is_whitelisted(&whitelist, &address(5)));
    add_to_whitelist(&mut whitelist, address(6)).unwrap();
    assert!(is_whitelisted(&whitelist, &address(6)));
}

#[test]
fn a_batch_of_addresses_is_added_in_order_and_passes_over_what_is_listed() {
    let mut whitelist = initialize_whitelist(address(1), 6, 0);
    add_to_whitelist(&mut whitelist, address(5)).unwrap();
    let batch = vec![address(6), address(5), address(7), address(6)];
    assert_eq!(bulk_add_to_whitelist(&mut whitelist, batch), Ok(()));
    assert_eq!(whitelist.approved_addresses, vec![address(5), address(6), address(7)]);
}

#[test]
fn a_batch_of_addresses_that_may_not_fit_is_refused_as_a_whole() {
    let mut whitelist = initialize_whitelist(address(1), 3, 0);
    add_to_whitelist(&mut whitelist, address(5)).unwrap();
    add_to_whitelist(&mut whitelist, address(6)).unwrap();
    // the length as it stands is what counts, not what would be added
    assert_eq!(
        bulk_add_to_whitelist(&mut whitelist, vec![address(5), address(7)]),
        Err(WhitelistError::WhitelistFull)
    );
    assert_eq!(whitelist.approved_addresses, vec![address(5), address(6)]);
    assert_eq!(bulk_add_to_whitelist(&mut whitelist, vec![address(7)]), Ok(()));
    assert_eq!(whitelist.approved_addresses, vec![address(5), address(6), address(7)]);
    assert_eq!(bulk_add_to_whitelist(&mut whitelist, vec![]), Ok(()));
}

#[test]
fn a_transfer_passes_for_a_listed_owner_only() {
    let mut whitelist = initialize_whitelist(address(1), 3, 0);
    add_to_whitelist(&mut whitelist, address(5)).unwrap();
    assert_eq!(transfer_hook_execute(&mut whitelist, &address(5), 10), Ok(()));
    assert_eq!(transfer_hook_execute(&mut whitelist, &address(6), 10), Err(WhitelistError::TransferNotAllowed));
    assert_eq!(transfer_hook_execute(&mut whitelist, &address(5), u64::MAX), Ok(()));
    assert_eq!(whitelist.total_transfers_validated, 2);
    assert_eq!(whitelist.total_transfers_blocked, 1);
    assert_eq!(whitelist.approved_addresses, vec![address(5)]);
}

#[test]
fn a_whitelist_that_is_not_enforced_passes_every_transfer() {
    let mut whitelist = initialize_whitelist(address(1), 3, 0);
    set_whitelist_enabled(&mut whitelist, false);
    assert!(!whitelist.is_enabled);
    assert_eq!(transfer_hook_execute(&mut whitelist, &address(6), 10), Ok(()));
    assert_eq!(whitelist.total_transfers_validated, 1);
    assert_eq!(whitelist.total_transfers_blocked, 0);
    set_whitelist_enabled(&mut whitelist, true);
    assert_eq!(transfer_hook_execute(&mut whitelist, &address(6), 10), Err(WhitelistError::TransferNotAllowed));
}

#[test]
fn whitelist_statistics_show_the_first_five_addresses() {
    let mut whitelist = initialize_whitelist(address(1), 10, 9);
    let stats = get_whitelist_stats(&whitelist);
    assert_eq!(stats.whitelisted, 0);
    assert!(stats.sample.is_empty());
    for b in 20..23 {
        add_to_whitelist(&mut whitelist, address(b)).unwrap();
    }
    assert_eq!(get_whitelist_stats(&whitelist).sample, vec![address(20), address(21), address(22)]);
    for b in 23..27 {
        add_to_whitelist(&mut whitelist, address(b)).unwrap();
    }
    transfer_hook_execute(&mut whitelist, &address(20), 1).unwrap();
    let stats = get_whitelist_stats(&whitelist);
    assert_eq!(stats.whitelisted, 7);
    assert_eq!(stats.max_addresses, 10);
    assert_eq!(stats.total_transfers_validated, 1);
    assert_eq!(stats.total_transfers_blocked, 0);
    assert!(stats.is_enabled);
    assert_eq!(stats.created_at, 9);
    assert_eq!(stats.sample, vec![address(20), address(21), address(22), address(23), address(24)]);
}

#[test]
fn a_whitelist_is_read_from_the_data_of_its_account() {
    for whitelist in [listing(true, &[]), listing(false, &[5]), listing(true, &[5, 6, 7])] {
        assert_eq!(read_whitelist(&account_data(&whitelist, 0)).unwrap(), whitelist);
        assert_eq!(read_whitelist(&account_data(&whitelist, 3200)).unwrap(), whitelist);
    }
    let data = account_data(&listing(true, &[5, 6]), 0);
    assert_eq!(data.len(), 71 + 64);
    assert_eq!(&data[40..46], &[100, 0, 2, 0, 0, 0]);
    assert_eq!(&data[46..78], &[5u8; 32]);
    assert_eq!(data[134], 1);
    // too short for the addresses that it announces
    assert_eq!(read_whitelist(&data[..134]), None);
    assert_eq!(read_whitelist(&data[..70]), None);
    assert_eq!(read_whitelist(&[]), None);
    let mut more = data.clone();
    more[42] = 3;
    assert_eq!(read_whitelist(&more), None);
    let mut many = data.clone();
    many[45] = 255;
    assert_eq!(read_whitelist(&many), None);
    // a mark of enforcement that is neither 0 nor 1
    let mut odd = data.clone();
    odd[134] = 2;
    assert_eq!(read_whitelist(&odd), None);
}

#[test]
fn the_whitelist_answers_an_unpacked_instruction() {
    let execute = Some(HookInstruction::Execute { amount: 5 });
    let enforced = account_data(&listing(true, &[5, 6]), 3000);
    let open = account_data(&listing(false, &[5, 6]), 3000);
    assert_eq!(
        dispatch(None, &accounts(5, 5, enforced.clone())),
        Err(HookError::Interface(InterfaceError::InvalidInstructionData))
    );
    assert_eq!(
        dispatch(execute, &accounts(4, 5, enforced.clone())),
        Err(HookError::Interface(InterfaceError::NotEnoughAccountKeys))
    );
    assert_eq!(
        dispatch(execute, &accounts(5, 5, enforced[..70].to_vec())),
        Err(HookError::Hook(WhitelistError::InvalidWhitelistAccount))
    );
    assert_eq!(
        dispatch(execute, &accounts(5, 5, vec![1u8; 3271])),
        Err(HookError::Hook(WhitelistError::InvalidWhitelistAccount))
    );
    // a listed owner passes, another does not, while the whitelist is enforced
    assert_eq!(dispatch(execute, &accounts(5, 5, enforced.clone())), Ok(()));
    assert_eq!(dispatch(execute, &accounts(9, 6, enforced.clone())), Ok(()));
    assert_eq!(
        dispatch(execute, &accounts(5, 7, enforced.clone())),
        Err(HookError::Hook(WhitelistError::TransferNotAllowed))
    );
    assert_eq!(
        dispatch(execute, &accounts(5, 0, enforced.clone())),
        Err(HookError::Hook(WhitelistError::TransferNotAllowed))
    );
    assert_eq!(
        dispatch(execute, &accounts(5, 7, account_data(&listing(true, &[]), 0))),
        Err(HookError::Hook(WhitelistError::TransferNotAllowed))
    );
    // every owner passes while it is not
    assert_eq!(dispatch(execute, &accounts(5, 7, open.clone())), Ok(()));
    assert_eq!(dispatch(execute, &accounts(5, 5, open)), Ok(()));
    assert_eq!(dispatch(Some(HookInstruction::InitializeExtraAccountMetaList), &[]), Ok(()));
    assert_eq!(dispatch(Some(HookInstruction::UpdateExtraAccountMetaList), &[]), Ok(()));
}

#[test]
fn the_raw_path_judges_as_the_whitelist_does() {
    for enabled in [false, true] {
        for owner in [5u8, 6, 7] {
            let mut whitelist = listing(enabled, &[5, 6]);
            let raw = dispatch(
                Some(HookInstruction::Execute { amount: 1 }),
                &accounts(5, owner, account_data(&whitelist, 10)),
            );
            let direct = transfer_hook_execute(&mut whitelist, &address(owner), 1);
            assert_eq!(raw, direct.map_err(HookError::Hook));
        }
    }
}

#[test]
fn the_whitelist_answers_a_raw_instruction() {
    let program = address(77);
    let enforced = account_data(&listing(true, &[5]), 3168);
    let execute = TransferHookInstruction::Execute { amount: 1_000 }.pack();
    assert_eq!(fallback(&program, &accounts(5, 5, enforced.clone()), &execute), Ok(()));
    assert_eq!(
        fallback(&program, &accounts(5, 6, enforced.clone()), &execute),
        Err(HookError::Hook(WhitelistError::TransferNotAllowed))
    );
    assert_eq!(
        fallback(&program, &accounts(4, 5, enforced.clone()), &execute),
        Err(HookError::Interface(InterfaceError::NotEnoughAccountKeys))
    );
    assert_eq!(
        fallback(&program, &accounts(5, 5, vec![0u8; 10]), &execute),
        Err(HookError::Hook(WhitelistError::InvalidWhitelistAccount))
    );
    assert_eq!(
        fallback(&program, &accounts(5, 5, enforced.clone()), &[1, 2, 3]),
        Err(HookError::Interface(InterfaceError::InvalidInstructionData))
    );
    assert_eq!(
        fallback(&program, &accounts(5, 5, enforced), &execute[..12]),
        Err(HookError::Interface(InterfaceError::InvalidInstructionData))
    );
    let init = TransferHookInstruction::InitializeExtraAccountMetaList { extra_account_metas: vec![] }.pack();
    assert_eq!(fallback(&program, &[], &init), Ok(()));
    let update = TransferHookInstruction::UpdateExtraAccountMetaList { extra_account_metas: vec![] }.pack();
    assert_eq!(fallback(&program, &[], &update), Ok(()));
}

#[test]
fn whitelist_counters_stay_at_their_largest_value() {
    let mut whitelist = listing(true, &[5]);
    whitelist.total_transfers_validated = u64::MAX;
    assert_eq!(transfer_hook_execute(&mut whitelist, &address(5), 1), Ok(()));
    assert_eq!(transfer_hook_execute(&mut whitelist, &address(6), 1), Err(WhitelistError::TransferNotAllowed));
    assert_eq!(whitelist.total_transfers_validated, u64::MAX);
    assert_eq!(whitelist.total_transfers_blocked, u64::MAX);
}

#[test]
fn the_whitelist_asks_for_its_own_account() {
    let data = initialize_extra_account_meta_list().unwrap();
    let metas = [ExtraAccountMeta::new_with_seeds(&[Seed::Literal { bytes: b"whitelist".to_vec() }], false, true).unwrap()];
    let mut expected = vec![0u8; ExtraAccountMetaList::size_of(1).unwrap()];
    ExtraAccountMetaList::init::<ExecuteInstruction>(&mut expected, &metas).unwrap();
    assert_eq!(data, expected);
    assert_eq!(data.len(), 51);
    assert_eq!(&data[..8], &[105, 37, 101, 197, 75, 251, 102, 26]);
    // one entry: a derived address, of the literal of nine bytes, writable and no signer
    assert_eq!(&data[12..16], &[1, 0, 0, 0]);
    assert_eq!(data[16], 1);
    assert_eq!(&data[17..28], b"\x01\x09whitelist");
    assert_eq!(&data[49..], &[0, 1]);
}
