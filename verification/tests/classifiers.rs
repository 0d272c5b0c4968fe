use transactions_listener::ata::SplAssociatedTokenAccountInstruction;
use transactions_listener::constants::{native_mint, token_program};
use transactions_listener::dedup::DedupCache;
use transactions_listener::pumpfun::{PumpFunMonitor, PumpfunInstruction};
use transactions_listener::raydium_cpmm::{RaydiumCpmmInstruction, RaydiumCpmmMonitor};
use transactions_listener::transfer::{CompiledIx, InnerIxGroup, ReconcileError, TokenBalance};
use transactions_listener::types::{EventType, SwapPlatform, TransactionMeta};

fn meta(signature: &str, failed: bool) -> TransactionMeta {
    TransactionMeta {
        signature: signature.to_string(),
        failed,
        static_account_keys: vec![],
        loaded_writable: vec![],
        loaded_readonly: vec![],
        pre_token_balances: None,
        post_token_balances: None,
        inner_instructions: None,
    }
}

fn trade(is_buy: bool) -> PumpfunInstruction {
    PumpfunInstruction::TradeEvent {
        mint: "MINT".to_string(),
        user: "USER".to_string(),
        is_buy,
        sol_amount: 111,
        token_amount: 222,
        virtual_sol_reserves: 1000,
        virtual_token_reserves: 2000,
    }
}

#[test]
fn pumpfun_buy_trade_native_input_leg() {
    let mut monitor = PumpFunMonitor { parsed_events: DedupCache::new() };
    let event = monitor.process(&meta("sig1", false), &trade(true), 42).unwrap();
    assert_eq!(event.signature, "sig1");
    assert_eq!(event.user, "USER");
    assert_eq!(event.timestamp, 42);
    match event.event_type {
        EventType::Swap(swap) => {
            assert_eq!(swap.token_in_mint, native_mint());
            assert_eq!(swap.token_in_decimals, 9);
            assert_eq!(swap.token_in_amount, 111);
            assert_eq!(swap.token_out_mint, "MINT");
            assert_eq!(swap.token_out_decimals, 6);
            assert_eq!(swap.token_out_amount, 222);
            assert_eq!(swap.token_in_reserve, 1000);
            assert_eq!(swap.token_out_reserve, 2000);
            assert_ne!(swap.token_in_mint, swap.token_out_mint);
        }
        _ => panic!("expected a swap event"),
    }
}

#[test]
fn pumpfun_sell_trade_native_output_leg() {
    let mut monitor = PumpFunMonitor { parsed_events: DedupCache::new() };
    let event = monitor.process(&meta("sig2", false), &trade(false), 42).unwrap();
    match event.event_type {
        EventType::Swap(swap) => {
            assert_eq!(swap.token_in_mint, "MINT");
            assert_eq!(swap.token_in_decimals, 6);
            assert_eq!(swap.token_in_amount, 222);
            assert_eq!(swap.token_out_mint, native_mint());
            assert_eq!(swap.token_out_decimals, 9);
            assert_eq!(swap.token_out_amount, 111);
            assert_eq!(swap.token_in_reserve, 2000);
            assert_eq!(swap.token_out_reserve, 1000);
            assert_ne!(swap.token_in_mint, swap.token_out_mint);
        }
        _ => panic!("expected a swap event"),
    }
}

#[test]
fn pumpfun_create_yields_pool_creation() {
    let mut monitor = PumpFunMonitor { parsed_events: DedupCache::new() };
    let ix = PumpfunInstruction::CreateEvent {
        mint: "MINT".to_string(),
        user: "CREATOR".to_string(),
    };
    let event = monitor.process(&meta("sig3", false), &ix, 7).unwrap();
    assert_eq!(event.user, "CREATOR");
    match event.event_type {
        EventType::PoolCreation { mint, .. } => assert_eq!(mint, "MINT"),
        _ => panic!("expected a pool-creation event"),
    }
}

#[test]
fn pumpfun_failed_transaction_emits_nothing() {
    let mut monitor = PumpFunMonitor { parsed_events: DedupCache::new() };
    assert!(monitor.process(&meta("sig4", true), &trade(true), 1).is_none());
    let ix = PumpfunInstruction::CreateEvent {
        mint: "MINT".to_string(),
        user: "CREATOR".to_string(),
    };
    assert!(monitor.process(&meta("sig4", true), &ix, 1).is_none());
}

#[test]
fn pumpfun_native_mint_trade_ignored() {
    // A trade whose token mint is the native pseudo-mint itself would give
    // a swap with one mint on both legs; it is not classified as a swap.
    let mut monitor = PumpFunMonitor { parsed_events: DedupCache::new() };
    let ix = PumpfunInstruction::TradeEvent {
        mint: native_mint(),
        user: "USER".to_string(),
        is_buy: true,
        sol_amount: 1,
        token_amount: 2,
        virtual_sol_reserves: 3,
        virtual_token_reserves: 4,
    };
    assert!(monitor.process(&meta("sig10", false), &ix, 1).is_none());
}

#[test]
fn pumpfun_other_instruction_ignored() {
    let mut monitor = PumpFunMonitor { parsed_events: DedupCache::new() };
    assert!(monitor.process(&meta("sig5", false), &PumpfunInstruction::Other, 1).is_none());
}

#[test]
fn pumpfun_redundant_delivery_emits_once() {
    // Two identical trade instructions, as delivered by two redundant
    // sources feeding the same classifier set: exactly one event comes out,
    // even though each delivery carries a fresh ingestion timestamp.
    let mut monitor = PumpFunMonitor { parsed_events: DedupCache::new() };
    let first = monitor.process(&meta("sig6", false), &trade(true), 100);
    let second = monitor.process(&meta("sig6", false), &trade(true), 200);
    assert!(first.is_some());
    assert!(second.is_none());
}

#[test]
fn ata_create_and_idempotent() {
    let mut monitor =
        transactions_listener::ata::PumpFunMonitor { parsed_events: DedupCache::new() };
    let accounts = vec!["ACCT".to_string(), "MINT".to_string(), "OWNER".to_string()];
    let event = monitor
        .process(
            &meta("sig7", false),
            &SplAssociatedTokenAccountInstruction::Create,
            &accounts,
            5,
        )
        .unwrap();
    assert_eq!(event.user, "OWNER");
    match event.event_type {
        EventType::AssociatedAccountCreation { mint, account, idempotent } => {
            assert_eq!(mint, "MINT");
            assert_eq!(account, "ACCT");
            assert!(!idempotent);
        }
        _ => panic!("expected an account-creation event"),
    }
    let event = monitor
        .process(
            &meta("sig8", false),
            &SplAssociatedTokenAccountInstruction::CreateIdempotent,
            &accounts,
            5,
        )
        .unwrap();
    match event.event_type {
        EventType::AssociatedAccountCreation { idempotent, .. } => assert!(idempotent),
        _ => panic!("expected an account-creation event"),
    }
    assert!(monitor
        .process(
            &meta("sig9", false),
            &SplAssociatedTokenAccountInstruction::Other,
            &accounts,
            5,
        )
        .is_none());
    assert!(monitor
        .process(
            &meta("sig9", true),
            &SplAssociatedTokenAccountInstruction::Create,
            &accounts,
            5,
        )
        .is_none());
}

fn raydium_meta(failed: bool) -> TransactionMeta {
    let checked = CompiledIx {
        program_id_index: 0,
        accounts: vec![1, 3, 3, 5],
        data: {
            let mut d = vec![12u8];
            d.extend_from_slice(&1000u64.to_le_bytes());
            d.push(6);
            d
        },
    };
    let plain = CompiledIx {
        program_id_index: 0,
        accounts: vec![4, 2, 5],
        data: {
            let mut d = vec![3u8];
            d.extend_from_slice(&2000u64.to_le_bytes());
            d
        },
    };
    TransactionMeta {
        signature: "raysig".to_string(),
        failed,
        static_account_keys: vec![token_program(), "A".to_string(), "B".to_string()],
        loaded_writable: vec!["P".to_string(), "Q".to_string()],
        loaded_readonly: vec!["AUTH".to_string()],
        pre_token_balances: Some(vec![]),
        post_token_balances: Some(vec![
            TokenBalance {
                account_index: 3,
                mint: "M1".to_string(),
                amount: "500000".to_string(),
                decimals: 6,
            },
            TokenBalance {
                account_index: 4,
                mint: "M2".to_string(),
                amount: "750000".to_string(),
                decimals: 6,
            },
        ]),
        inner_instructions: Some(vec![InnerIxGroup { instructions: vec![checked, plain] }]),
    }
}

fn raydium_ix_accounts() -> Vec<String> {
    // The swap instruction's account references: the fifth is the input
    // token account, the sixth the output one.
    vec![
        "PAYER".to_string(),
        "X1".to_string(),
        "X2".to_string(),
        "X3".to_string(),
        "A".to_string(),
        "B".to_string(),
    ]
}

#[test]
fn raydium_swap_classifies_through_reconciliation() {
    let mut monitor = RaydiumCpmmMonitor { parsed_events: DedupCache::new() };
    let event = monitor
        .process(
            &raydium_meta(false),
            &RaydiumCpmmInstruction::SwapBaseInput,
            &raydium_ix_accounts(),
            9,
        )
        .unwrap()
        .unwrap();
    assert_eq!(event.signature, "raysig");
    assert_eq!(event.user, "PAYER");
    assert_eq!(event.timestamp, 9);
    match event.event_type {
        EventType::Swap(swap) => {
            assert_eq!(swap.token_in_amount, 1000);
            assert_eq!(swap.token_in_mint, "M1");
            assert_eq!(swap.token_in_reserve, 500000);
            assert_eq!(swap.token_out_amount, 2000);
            assert_eq!(swap.token_out_reserve, 750000);
            assert!(matches!(swap.platform, SwapPlatform::RaydiumCpmm));
        }
        _ => panic!("expected a swap event"),
    }
}

#[test]
fn raydium_initialize_yields_pool_creation() {
    let mut monitor = RaydiumCpmmMonitor { parsed_events: DedupCache::new() };
    let event = monitor
        .process(
            &raydium_meta(false),
            &RaydiumCpmmInstruction::Initialize,
            &raydium_ix_accounts(),
            9,
        )
        .unwrap()
        .unwrap();
    assert_eq!(event.user, "PAYER");
    match event.event_type {
        EventType::PoolCreation { mint, .. } => assert_eq!(mint, "PAYER"),
        _ => panic!("expected a pool-creation event"),
    }
}

#[test]
fn raydium_failed_transaction_emits_nothing() {
    let mut monitor = RaydiumCpmmMonitor { parsed_events: DedupCache::new() };
    let r = monitor
        .process(
            &raydium_meta(true),
            &RaydiumCpmmInstruction::SwapBaseInput,
            &raydium_ix_accounts(),
            9,
        )
        .unwrap();
    assert!(r.is_none());
}

#[test]
fn raydium_missing_metadata_is_reported() {
    let mut monitor = RaydiumCpmmMonitor { parsed_events: DedupCache::new() };
    let mut m = raydium_meta(false);
    m.post_token_balances = None;
    let r = monitor.process(
        &m,
        &RaydiumCpmmInstruction::SwapBaseOutput,
        &raydium_ix_accounts(),
        9,
    );
    assert_eq!(r.unwrap_err(), ReconcileError::MissingMetadata);
}

#[test]
fn raydium_no_transfers_is_reported() {
    let mut monitor = RaydiumCpmmMonitor { parsed_events: DedupCache::new() };
    let mut m = raydium_meta(false);
    m.inner_instructions = Some(vec![]);
    let r = monitor.process(
        &m,
        &RaydiumCpmmInstruction::SwapBaseInput,
        &raydium_ix_accounts(),
        9,
    );
    assert_eq!(r.unwrap_err(), ReconcileError::NoTransfersFound);
}

#[test]
fn raydium_other_instruction_ignored() {
    let mut monitor = RaydiumCpmmMonitor { parsed_events: DedupCache::new() };
    let r = monitor
        .process(
            &raydium_meta(false),
            &RaydiumCpmmInstruction::Other,
            &raydium_ix_accounts(),
            9,
        )
        .unwrap();
    assert!(r.is_none());
}

#[test]
fn raydium_redundant_delivery_emits_once() {
    let mut monitor = RaydiumCpmmMonitor { parsed_events: DedupCache::new() };
    let first = monitor
        .process(
            &raydium_meta(false),
            &RaydiumCpmmInstruction::SwapBaseInput,
            &raydium_ix_accounts(),
            31,
        )
        .unwrap();
    let second = monitor
        .process(
            &raydium_meta(false),
            &RaydiumCpmmInstruction::SwapBaseInput,
            &raydium_ix_accounts(),
            32,
        )
        .unwrap();
    assert!(first.is_some());
    assert!(second.is_none());
}
