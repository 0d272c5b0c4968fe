use transactions_listener::dedup::DedupCache;
use transactions_listener::transfer::parse_u64;
use transactions_listener::types::{Event, EventType, Swap, SwapPlatform, event_key_eq, event_type_eq, swap_eq};
use transactions_listener::{SourceConfig, SourceMap, TransactionsListener};

fn sample_swap() -> Swap {
    Swap {
        token_in_amount: 1,
        token_in_decimals: 9,
        token_in_mint: "IN".to_string(),
        token_out_amount: 2,
        token_out_decimals: 6,
        token_out_mint: "OUT".to_string(),
        platform: SwapPlatform::PumpFun,
        token_in_reserve: 3,
        token_out_reserve: 4,
    }
}

fn sample_event(signature: &str, timestamp: u64) -> Event {
    Event {
        signature: signature.to_string(),
        event_type: EventType::Swap(sample_swap()),
        user: "USER".to_string(),
        timestamp,
    }
}

#[test]
fn dedup_admits_then_refuses() {
    let mut cache = DedupCache::new();
    let event = sample_event("sig", 10);
    assert!(cache.should_emit(&event));
    assert!(!cache.should_emit(&event));
}

#[test]
fn dedup_ignores_timestamp_jitter() {
    // The identity is signature + payload + user; a fresh ingestion
    // timestamp on a redundant delivery must not defeat deduplication.
    let mut cache = DedupCache::new();
    assert!(cache.should_emit(&sample_event("sig", 10)));
    assert!(!cache.should_emit(&sample_event("sig", 999)));
}

#[test]
fn dedup_distinguishes_identities() {
    let mut cache = DedupCache::new();
    assert!(cache.should_emit(&sample_event("sig-a", 1)));
    assert!(cache.should_emit(&sample_event("sig-b", 1)));
    let mut other_user = sample_event("sig-a", 1);
    other_user.user = "SOMEONE".to_string();
    assert!(cache.should_emit(&other_user));
    let pool = Event {
        signature: "sig-a".to_string(),
        event_type: EventType::PoolCreation {
            mint: "M".to_string(),
            platform: SwapPlatform::PumpFun,
        },
        user: "USER".to_string(),
        timestamp: 1,
    };
    assert!(cache.should_emit(&pool));
}

#[test]
fn event_equality_helpers() {
    let a = sample_event("sig", 1);
    let b = sample_event("sig", 2);
    assert!(event_key_eq(&a, &b));
    assert!(event_type_eq(&a.event_type, &b.event_type));
    assert!(swap_eq(&sample_swap(), &sample_swap()));
    let mut c = sample_event("sig", 1);
    c.event_type = EventType::PoolCreation {
        mint: "IN".to_string(),
        platform: SwapPlatform::PumpFun,
    };
    assert!(!event_key_eq(&a, &c));
    let mut different = sample_swap();
    different.token_out_amount = 99;
    assert!(!swap_eq(&sample_swap(), &different));
}

#[test]
fn event_duplicate_preserves_identity() {
    let e = sample_event("sig", 5);
    let d = e.duplicate();
    assert!(event_key_eq(&e, &d));
    assert_eq!(d.timestamp, 5);
}

fn source(url: &str) -> SourceConfig {
    SourceConfig { url: url.to_string(), x_token: None }
}

#[test]
fn source_map_insert_get_remove() {
    let mut m = SourceMap::new();
    assert!(m.get(&"a".to_string()).is_none());
    m.insert("a".to_string(), source("grpc://one"));
    m.insert("b".to_string(), source("grpc://two"));
    assert_eq!(m.get(&"a".to_string()).unwrap().url, "grpc://one");
    // A later insert under the same identifier replaces the earlier one.
    m.insert(
        "a".to_string(),
        SourceConfig { url: "grpc://three".to_string(), x_token: Some("tok".to_string()) },
    );
    let c = m.get(&"a".to_string()).unwrap();
    assert_eq!(c.url, "grpc://three");
    assert_eq!(c.x_token.as_deref(), Some("tok"));
    m.remove(&"a".to_string());
    assert!(m.get(&"a".to_string()).is_none());
    assert_eq!(m.get(&"b".to_string()).unwrap().url, "grpc://two");
}

#[test]
fn listener_starts_once() {
    let mut listener = TransactionsListener::new(SourceMap::new());
    assert!(!listener.is_running());
    assert!(listener.run().is_ok());
    assert!(listener.is_running());
    // A second start is refused: two pipelines would double-process every
    // source.
    assert!(listener.run().is_err());
    assert!(listener.is_running());
    listener.stop();
    assert!(!listener.is_running());
    // Stopping again is idempotent.
    listener.stop();
    assert!(!listener.is_running());
    assert!(listener.run().is_ok());
}

#[test]
fn listener_add_source_while_running() {
    let mut sources = SourceMap::new();
    sources.insert("old".to_string(), source("grpc://old"));
    let mut listener = TransactionsListener::new(sources);
    listener.run().unwrap();
    listener.add_grpc_url("new".to_string(), "grpc://new".to_string(), None);
    // The listener ends running, on the updated source set.
    assert!(listener.is_running());
    assert_eq!(listener.grpc_urls.get(&"new".to_string()).unwrap().url, "grpc://new");
    assert_eq!(listener.grpc_urls.get(&"old".to_string()).unwrap().url, "grpc://old");
    listener.delete_grpc_url("old".to_string());
    assert!(listener.is_running());
    assert!(listener.grpc_urls.get(&"old".to_string()).is_none());
}

#[test]
fn listener_configure_replaces_set_without_starting() {
    let mut old_set = SourceMap::new();
    old_set.insert("old".to_string(), source("grpc://old"));
    let mut listener = TransactionsListener::new(old_set);
    let mut new_set = SourceMap::new();
    new_set.insert("fresh".to_string(), source("grpc://fresh"));
    listener.configure(new_set);
    assert!(!listener.is_running());
    assert!(listener.grpc_urls.get(&"old".to_string()).is_none());
    assert_eq!(listener.grpc_urls.get(&"fresh".to_string()).unwrap().url, "grpc://fresh");
    let endpoints = listener.grpc_urls.endpoints();
    assert_eq!(endpoints.len(), 1);
    assert_eq!(endpoints[0].0, "fresh");
}

#[test]
fn listener_replaces_source_under_same_id() {
    let mut sources = SourceMap::new();
    sources.insert("main".to_string(), source("grpc://before"));
    let mut listener = TransactionsListener::new(sources);
    listener.run().unwrap();
    listener.add_grpc_url("main".to_string(), "grpc://after".to_string(), None);
    assert!(listener.is_running());
    assert_eq!(listener.grpc_urls.get(&"main".to_string()).unwrap().url, "grpc://after");
}

#[test]
fn platform_names_and_enumeration() {
    assert_eq!(SwapPlatform::PumpFun.name(), "PumpFun");
    assert_eq!(SwapPlatform::Raydium.name(), "Raydium");
    assert_eq!(SwapPlatform::RaydiumCpmm.name(), "RaydiumCpmm");
    assert_eq!(SwapPlatform::RaydiumClmm.name(), "RaydiumClmm");
    let all = SwapPlatform::all();
    assert_eq!(all.len(), 4);
    assert_eq!(all[0], SwapPlatform::PumpFun);
    assert_eq!(all[1], SwapPlatform::Raydium);
    assert_eq!(all[2], SwapPlatform::RaydiumCpmm);
    assert_eq!(all[3], SwapPlatform::RaydiumClmm);
}

#[test]
fn parse_u64_accepts_digits_and_leading_plus() {
    assert_eq!(parse_u64("0"), Some(0));
    assert_eq!(parse_u64("750000"), Some(750000));
    assert_eq!(parse_u64("+750000"), Some(750000));
    assert_eq!(parse_u64("18446744073709551615"), Some(u64::MAX));
    assert_eq!(parse_u64("18446744073709551616"), None);
    assert_eq!(parse_u64(""), None);
    assert_eq!(parse_u64("+"), None);
    assert_eq!(parse_u64("++1"), None);
    assert_eq!(parse_u64("12a"), None);
    assert_eq!(parse_u64("-1"), None);
    assert_eq!(parse_u64(" 1"), None);
}
