use transactions_listener::constants::{native_mint, token_2022_program, token_program};
use transactions_listener::transfer::{
    CompiledIx, InnerIxGroup, ReconcileError, TokenBalance, extract_spl_token_info,
    is_transfer_check_instruction, is_transfer_instruction, process_transfer, reconcile_swap,
};
use transactions_listener::types::SwapPlatform;

fn transfer_data_bytes(amount: u64) -> Vec<u8> {
    let mut data = vec![3u8];
    data.extend_from_slice(&amount.to_le_bytes());
    data
}

fn transfer_checked_data_bytes(amount: u64) -> Vec<u8> {
    let mut data = vec![12u8];
    data.extend_from_slice(&amount.to_le_bytes());
    // TransferChecked carries a trailing decimals byte.
    data.push(6u8);
    data
}

fn balance(account_index: u8, mint: &str, amount: &str, decimals: u8) -> TokenBalance {
    TokenBalance {
        account_index,
        mint: mint.to_string(),
        amount: amount.to_string(),
        decimals,
    }
}

/// The account list used by the swap scenarios:
/// 0 = token program, 1 = "A", 2 = "B", 3 = "P", 4 = "Q", 5 = authority.
fn scenario_accounts() -> Vec<String> {
    vec![
        token_program(),
        "A".to_string(),
        "B".to_string(),
        "P".to_string(),
        "Q".to_string(),
        "AUTH".to_string(),
    ]
}

/// One checked transfer A -> P of 1000 and one plain transfer Q -> B of
/// 2000, as inner instructions.
fn scenario_inner_instructions() -> Vec<InnerIxGroup> {
    let checked = CompiledIx {
        program_id_index: 0,
        // source, mint-ish slot, destination, authority
        accounts: vec![1, 3, 3, 5],
        data: transfer_checked_data_bytes(1000),
    };
    let plain = CompiledIx {
        program_id_index: 0,
        // source, destination, authority
        accounts: vec![4, 2, 5],
        data: transfer_data_bytes(2000),
    };
    vec![InnerIxGroup { instructions: vec![checked, plain] }]
}

#[test]
fn raydium_swap_scenario_reconciles() {
    let accounts = scenario_accounts();
    let post = vec![
        balance(3, "M1", "500000", 6),
        balance(4, "M2", "750000", 6),
    ];
    let pre: Vec<TokenBalance> = vec![];
    let swap = reconcile_swap(
        &accounts,
        &Some(pre),
        &Some(post),
        &Some(scenario_inner_instructions()),
        &"A".to_string(),
        &"B".to_string(),
        SwapPlatform::RaydiumCpmm,
    )
    .unwrap();
    assert_eq!(swap.token_in_amount, 1000);
    assert_eq!(swap.token_in_mint, "M1");
    assert_eq!(swap.token_in_decimals, 6);
    assert_eq!(swap.token_in_reserve, 500000);
    assert_eq!(swap.token_out_amount, 2000);
    // The receive leg's destination "B" has no balance record, so its mint
    // resolves to the native pseudo-mint with nine decimals.
    assert_eq!(swap.token_out_mint, native_mint());
    assert_eq!(swap.token_out_decimals, 9);
    assert_eq!(swap.token_out_reserve, 750000);
    assert!(matches!(swap.platform, SwapPlatform::RaydiumCpmm));
}

#[test]
fn raydium_swap_scenario_with_recorded_destination() {
    let accounts = scenario_accounts();
    let post = vec![
        balance(3, "M1", "500000", 6),
        balance(4, "M2", "750000", 6),
        balance(2, "M2", "1", 6),
    ];
    let pre: Vec<TokenBalance> = vec![];
    let swap = reconcile_swap(
        &accounts,
        &Some(pre),
        &Some(post),
        &Some(scenario_inner_instructions()),
        &"A".to_string(),
        &"B".to_string(),
        SwapPlatform::RaydiumCpmm,
    )
    .unwrap();
    assert_eq!(swap.token_in_mint, "M1");
    assert_eq!(swap.token_out_mint, "M2");
    assert_eq!(swap.token_out_decimals, 6);
    assert_ne!(swap.token_in_mint, swap.token_out_mint);
    assert_eq!(swap.token_in_reserve, 500000);
    assert_eq!(swap.token_out_reserve, 750000);
}

#[test]
fn reconcile_is_deterministic() {
    let accounts = scenario_accounts();
    let post = vec![
        balance(3, "M1", "500000", 6),
        balance(4, "M2", "750000", 6),
    ];
    let pre: Vec<TokenBalance> = vec![];
    let run = || {
        reconcile_swap(
            &accounts,
            &Some(pre.clone()),
            &Some(post.clone()),
            &Some(scenario_inner_instructions()),
            &"A".to_string(),
            &"B".to_string(),
            SwapPlatform::RaydiumCpmm,
        )
        .unwrap()
    };
    let first = run();
    let second = run();
    assert!(transactions_listener::types::swap_eq(&first, &second));
}

#[test]
fn reconcile_missing_metadata() {
    let accounts = scenario_accounts();
    let post = vec![balance(3, "M1", "500000", 6)];
    let pre: Vec<TokenBalance> = vec![];
    let inner = scenario_inner_instructions();
    let r = reconcile_swap(
        &accounts,
        &Some(pre.clone()),
        &None,
        &Some(inner.clone()),
        &"A".to_string(),
        &"B".to_string(),
        SwapPlatform::RaydiumCpmm,
    );
    assert_eq!(r.unwrap_err(), ReconcileError::MissingMetadata);
    let r = reconcile_swap(
        &accounts,
        &None,
        &Some(post.clone()),
        &Some(inner),
        &"A".to_string(),
        &"B".to_string(),
        SwapPlatform::RaydiumCpmm,
    );
    assert_eq!(r.unwrap_err(), ReconcileError::MissingMetadata);
    let r = reconcile_swap(
        &accounts,
        &Some(pre),
        &Some(post),
        &None,
        &"A".to_string(),
        &"B".to_string(),
        SwapPlatform::RaydiumCpmm,
    );
    assert_eq!(r.unwrap_err(), ReconcileError::MissingMetadata);
}

#[test]
fn reconcile_no_qualifying_transfers() {
    let accounts = scenario_accounts();
    // An inner instruction of the wrong program does not qualify.
    let not_a_transfer = CompiledIx {
        program_id_index: 1,
        accounts: vec![1, 2, 5],
        data: transfer_data_bytes(7),
    };
    let inner = vec![InnerIxGroup { instructions: vec![not_a_transfer] }];
    let r = reconcile_swap(
        &accounts,
        &Some(vec![]),
        &Some(vec![]),
        &Some(inner),
        &"A".to_string(),
        &"B".to_string(),
        SwapPlatform::RaydiumCpmm,
    );
    assert_eq!(r.unwrap_err(), ReconcileError::NoTransfersFound);
}

#[test]
fn reconcile_pay_and_receive_legs_required() {
    let accounts = scenario_accounts();
    // Only the Q -> B transfer: no leg pays out of "A".
    let plain = CompiledIx {
        program_id_index: 0,
        accounts: vec![4, 2, 5],
        data: transfer_data_bytes(2000),
    };
    let inner = vec![InnerIxGroup { instructions: vec![plain.clone()] }];
    let r = reconcile_swap(
        &accounts,
        &Some(vec![]),
        &Some(vec![]),
        &Some(inner),
        &"A".to_string(),
        &"B".to_string(),
        SwapPlatform::RaydiumCpmm,
    );
    assert_eq!(r.unwrap_err(), ReconcileError::PayTransferNotFound);
    // Only a transfer out of "A" that does not land in "B".
    let pay_only = CompiledIx {
        program_id_index: 0,
        accounts: vec![1, 3, 5],
        data: transfer_data_bytes(1000),
    };
    let inner = vec![InnerIxGroup { instructions: vec![pay_only] }];
    let r = reconcile_swap(
        &accounts,
        &Some(vec![]),
        &Some(vec![]),
        &Some(inner),
        &"A".to_string(),
        &"B".to_string(),
        SwapPlatform::RaydiumCpmm,
    );
    assert_eq!(r.unwrap_err(), ReconcileError::ReceiveTransferNotFound);
}

#[test]
fn reconcile_refuses_indistinct_mints() {
    // Neither leg's destination has a balance record, so both mints fall
    // back to the native pseudo-mint: no valid swap exchanges a token for
    // itself, so reconciliation fails instead of emitting equal mints.
    let accounts = scenario_accounts();
    let post: Vec<TokenBalance> = vec![];
    let pre: Vec<TokenBalance> = vec![];
    let r = reconcile_swap(
        &accounts,
        &Some(pre),
        &Some(post),
        &Some(scenario_inner_instructions()),
        &"A".to_string(),
        &"B".to_string(),
        SwapPlatform::RaydiumCpmm,
    );
    assert_eq!(r.unwrap_err(), ReconcileError::IndistinctMints);
}

#[test]
fn reconcile_malformed_reserve_amount() {
    let accounts = scenario_accounts();
    let post = vec![balance(3, "M1", "not-a-number", 6)];
    let r = reconcile_swap(
        &accounts,
        &Some(vec![]),
        &Some(post),
        &Some(scenario_inner_instructions()),
        &"A".to_string(),
        &"B".to_string(),
        SwapPlatform::RaydiumCpmm,
    );
    assert_eq!(r.unwrap_err(), ReconcileError::MalformedData);
}

#[test]
fn transfer_qualification() {
    let accounts = scenario_accounts();
    let good = CompiledIx {
        program_id_index: 0,
        accounts: vec![1, 2, 5],
        data: transfer_data_bytes(1),
    };
    assert!(is_transfer_instruction(&good, &accounts));
    // Wrong discriminator.
    let mut bad = good.clone();
    bad.data[0] = 9;
    assert!(!is_transfer_instruction(&bad, &accounts));
    // Too few account references.
    let mut bad = good.clone();
    bad.accounts = vec![1, 2];
    assert!(!is_transfer_instruction(&bad, &accounts));
    // Too few data bytes.
    let mut bad = good.clone();
    bad.data = vec![3, 0, 0];
    assert!(!is_transfer_instruction(&bad, &accounts));
    // Account reference out of range.
    let mut bad = good.clone();
    bad.accounts = vec![1, 200, 5];
    assert!(!is_transfer_instruction(&bad, &accounts));
    // Not the token program.
    let mut bad = good.clone();
    bad.program_id_index = 1;
    assert!(!is_transfer_instruction(&bad, &accounts));
}

#[test]
fn transfer_check_qualification() {
    let mut accounts = scenario_accounts();
    accounts.push(token_2022_program());
    let good = CompiledIx {
        program_id_index: 0,
        accounts: vec![1, 3, 3, 5],
        data: transfer_checked_data_bytes(1),
    };
    assert!(is_transfer_check_instruction(&good, &accounts));
    // The extended token program qualifies too.
    let mut extended = good.clone();
    extended.program_id_index = 6;
    assert!(is_transfer_check_instruction(&extended, &accounts));
    // A checked transfer needs four account references.
    let mut bad = good.clone();
    bad.accounts = vec![1, 3, 3];
    assert!(!is_transfer_check_instruction(&bad, &accounts));
    // Wrong discriminator.
    let mut bad = good.clone();
    bad.data[0] = 3;
    assert!(!is_transfer_check_instruction(&bad, &accounts));
}

#[test]
fn process_transfer_resolves_and_normalizes() {
    let accounts = scenario_accounts();
    // "P" carries an empty mint string: it is normalized to the sentinel.
    let post = vec![balance(3, "", "10", 4)];
    let pre: Vec<TokenBalance> = vec![];
    let map = extract_spl_token_info(&post, &pre, &accounts);
    let ix = CompiledIx {
        program_id_index: 0,
        accounts: vec![1, 3, 5],
        data: transfer_data_bytes(77),
    };
    let t = process_transfer(&ix, &accounts, &map);
    assert_eq!(t.info.amount, 77);
    assert_eq!(t.info.source, "A");
    assert_eq!(t.info.destination, "P");
    assert_eq!(t.info.authority, "AUTH");
    assert_eq!(t.mint, "Unknown");
    assert_eq!(t.decimals, 4);
    // A destination with no balance record falls back to the native
    // pseudo-mint with nine decimals.
    let ix = CompiledIx {
        program_id_index: 0,
        accounts: vec![1, 2, 5],
        data: transfer_data_bytes(5),
    };
    let t = process_transfer(&ix, &accounts, &map);
    assert_eq!(t.mint, native_mint());
    assert_eq!(t.decimals, 9);
}

#[test]
fn balance_lookup_prefers_pre_trade_record() {
    let accounts = scenario_accounts();
    let post = vec![balance(3, "POST", "1", 2)];
    let pre = vec![balance(3, "PRE", "2", 8)];
    let map = extract_spl_token_info(&post, &pre, &accounts);
    let info = map.get(&"P".to_string()).unwrap();
    assert_eq!(info.mint, "PRE");
    assert_eq!(info.decimals, 8);
    assert_eq!(info.amount, "2");
}
