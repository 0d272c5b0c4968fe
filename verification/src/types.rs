//! The event model: the normalized vocabulary of recognized on-chain
//! activity, and the identity under which events are deduplicated.
//!
//! Account addresses, mints and transaction signatures are carried as their
//! rendered string forms; in specifications they appear as `Seq<char>` views.

use vstd::prelude::*;

use crate::transfer::{
    CompiledIxV, InnerIxGroup, TokenBalance, TokenBalanceV, spec_addresses, spec_opt_balances,
    spec_opt_groups,
};

verus! {

/// The decentralized-exchange protocols this engine recognizes.
#[derive(Clone, Copy, Debug, PartialEq, Eq, Structural)]
pub enum SwapPlatform {
    PumpFun,
    Raydium,
    RaydiumCpmm,
    RaydiumClmm,
}

impl SwapPlatform {
    /// The stable string rendering of a platform, usable as a map key.
    pub open spec fn spec_name(self) -> Seq<char> {
        match self {
            SwapPlatform::PumpFun => "PumpFun"@,
            SwapPlatform::Raydium => "Raydium"@,
            SwapPlatform::RaydiumCpmm => "RaydiumCpmm"@,
            SwapPlatform::RaydiumClmm => "RaydiumClmm"@,
        }
    }

    /// Renders the platform name.
    pub fn name(&self) -> (r: &'static str)
        ensures
            r@ == self.spec_name(),
    {
        match self {
            SwapPlatform::PumpFun => "PumpFun",
            SwapPlatform::Raydium => "Raydium",
            SwapPlatform::RaydiumCpmm => "RaydiumCpmm",
            SwapPlatform::RaydiumClmm => "RaydiumClmm",
        }
    }

    /// Every platform, once, in declaration order; used to pre-provision
    /// per-platform state.
    pub fn all() -> (r: Vec<SwapPlatform>)
        ensures
            r@ == seq![
                SwapPlatform::PumpFun,
                SwapPlatform::Raydium,
                SwapPlatform::RaydiumCpmm,
                SwapPlatform::RaydiumClmm,
            ],
    {
        let mut v: Vec<SwapPlatform> = Vec::new();
        v.push(SwapPlatform::PumpFun);
        v.push(SwapPlatform::Raydium);
        v.push(SwapPlatform::RaydiumCpmm);
        v.push(SwapPlatform::RaydiumClmm);
        proof {
            assert(v@ =~= seq![
                SwapPlatform::PumpFun,
                SwapPlatform::Raydium,
                SwapPlatform::RaydiumCpmm,
                SwapPlatform::RaydiumClmm,
            ]);
        }
        v
    }
}

/// The economic terms of one token-for-token exchange.  Every swap the
/// engine emits exchanges two different tokens: the classifiers and the
/// reconciliation engine refuse a candidate whose two mints coincide.
#[derive(Clone, Debug)]
pub struct Swap {
    pub token_in_amount: u64,
    pub token_in_decimals: u8,
    pub token_in_mint: String,

    pub token_out_amount: u64,
    pub token_out_decimals: u8,
    pub token_out_mint: String,

    pub platform: SwapPlatform,
    /// Post-trade pool reserve on the input side, in raw token units.
    pub token_in_reserve: u64,
    /// Post-trade pool reserve on the output side, in raw token units.
    pub token_out_reserve: u64,
}

/// Mathematical value of a `Swap`.
#[verifier::ext_equal]
pub struct SwapV {
    pub token_in_amount: u64,
    pub token_in_decimals: u8,
    pub token_in_mint: Seq<char>,

    pub token_out_amount: u64,
    pub token_out_decimals: u8,
    pub token_out_mint: Seq<char>,

    pub platform: SwapPlatform,
    pub token_in_reserve: u64,
    pub token_out_reserve: u64,
}

impl View for Swap {
    type V = SwapV;

    open spec fn view(&self) -> SwapV {
        SwapV {
            token_in_amount: self.token_in_amount,
            token_in_decimals: self.token_in_decimals,
            token_in_mint: self.token_in_mint@,
            token_out_amount: self.token_out_amount,
            token_out_decimals: self.token_out_decimals,
            token_out_mint: self.token_out_mint@,
            platform: self.platform,
            token_in_reserve: self.token_in_reserve,
            token_out_reserve: self.token_out_reserve,
        }
    }
}

/// What kind of activity an event reports.
#[derive(Clone, Debug)]
pub enum EventType {
    Swap(Swap),
    PoolCreation { mint: String, platform: SwapPlatform },
    AssociatedAccountCreation { mint: String, account: String, idempotent: bool },
}

/// Mathematical value of an `EventType`.
#[verifier::ext_equal]
pub enum EventTypeV {
    Swap(SwapV),
    PoolCreation { mint: Seq<char>, platform: SwapPlatform },
    AssociatedAccountCreation { mint: Seq<char>, account: Seq<char>, idempotent: bool },
}

impl View for EventType {
    type V = EventTypeV;

    open spec fn view(&self) -> EventTypeV {
        match self {
            EventType::Swap(s) => EventTypeV::Swap(s@),
            EventType::PoolCreation { mint, platform } => EventTypeV::PoolCreation {
                mint: mint@,
                platform: *platform,
            },
            EventType::AssociatedAccountCreation { mint, account, idempotent } => {
                EventTypeV::AssociatedAccountCreation {
                    mint: mint@,
                    account: account@,
                    idempotent: *idempotent,
                }
            },
        }
    }
}

/// One normalized unit of output.
#[derive(Clone, Debug)]
pub struct Event {
    /// Identifier of the enclosing transaction.
    pub signature: String,
    pub event_type: EventType,
    /// The account considered the initiator or beneficiary of the activity.
    pub user: String,
    /// Ingestion-time Unix seconds, assigned by the classifier.
    pub timestamp: u64,
}

/// Mathematical value of an `Event`.
#[verifier::ext_equal]
pub struct EventV {
    pub signature: Seq<char>,
    pub event_type: EventTypeV,
    pub user: Seq<char>,
    pub timestamp: u64,
}

impl View for Event {
    type V = EventV;

    open spec fn view(&self) -> EventV {
        EventV {
            signature: self.signature@,
            event_type: self.event_type@,
            user: self.user@,
            timestamp: self.timestamp,
        }
    }
}

/// The canonical identity under which events are deduplicated: signature,
/// payload and user.  The ingestion timestamp is deliberately left out, so
/// that redundant deliveries of the same transaction agree on it.
#[verifier::ext_equal]
pub struct EventKey {
    pub signature: Seq<char>,
    pub event_type: EventTypeV,
    pub user: Seq<char>,
}

impl EventV {
    /// The deduplication identity of this event.
    pub open spec fn key(self) -> EventKey {
        EventKey { signature: self.signature, event_type: self.event_type, user: self.user }
    }
}

impl Swap {
    /// A copy of this swap, equal in value.
    pub fn duplicate(&self) -> (r: Swap)
        ensures
            r@ == self@,
    {
        Swap {
            token_in_amount: self.token_in_amount,
            token_in_decimals: self.token_in_decimals,
            token_in_mint: self.token_in_mint.clone(),
            token_out_amount: self.token_out_amount,
            token_out_decimals: self.token_out_decimals,
            token_out_mint: self.token_out_mint.clone(),
            platform: self.platform,
            token_in_reserve: self.token_in_reserve,
            token_out_reserve: self.token_out_reserve,
        }
    }
}

impl EventType {
    /// A copy of this payload, equal in value.
    pub fn duplicate(&self) -> (r: EventType)
        ensures
            r@ == self@,
    {
        match self {
            EventType::Swap(s) => EventType::Swap(s.duplicate()),
            EventType::PoolCreation { mint, platform } => EventType::PoolCreation {
                mint: mint.clone(),
                platform: *platform,
            },
            EventType::AssociatedAccountCreation { mint, account, idempotent } => {
                EventType::AssociatedAccountCreation {
                    mint: mint.clone(),
                    account: account.clone(),
                    idempotent: *idempotent,
                }
            },
        }
    }
}

impl Event {
    /// A copy of this event, equal in value.
    pub fn duplicate(&self) -> (r: Event)
        ensures
            r@ == self@,
    {
        Event {
            signature: self.signature.clone(),
            event_type: self.event_type.duplicate(),
            user: self.user.clone(),
            timestamp: self.timestamp,
        }
    }
}

/// The transaction context an instruction is classified in: its signature,
/// whether its execution failed, the account lists the transaction resolved,
/// its token-balance snapshots, and its inner instructions.
#[derive(Clone, Debug)]
pub struct TransactionMeta {
    pub signature: String,
    /// Whether the transaction's execution status was a failure.
    pub failed: bool,
    /// The accounts the transaction references statically.
    pub static_account_keys: Vec<String>,
    /// The writable accounts resolved from address-table lookups.
    pub loaded_writable: Vec<String>,
    /// The read-only accounts resolved from address-table lookups.
    pub loaded_readonly: Vec<String>,
    pub pre_token_balances: Option<Vec<TokenBalance>>,
    pub post_token_balances: Option<Vec<TokenBalance>>,
    pub inner_instructions: Option<Vec<InnerIxGroup>>,
}

/// Mathematical value of a `TransactionMeta`.
#[verifier::ext_equal]
pub struct TransactionMetaV {
    pub signature: Seq<char>,
    pub failed: bool,
    pub static_account_keys: Seq<Seq<char>>,
    pub loaded_writable: Seq<Seq<char>>,
    pub loaded_readonly: Seq<Seq<char>>,
    pub pre_token_balances: Option<Seq<TokenBalanceV>>,
    pub post_token_balances: Option<Seq<TokenBalanceV>>,
    pub inner_instructions: Option<Seq<Seq<CompiledIxV>>>,
}

impl View for TransactionMeta {
    type V = TransactionMetaV;

    open spec fn view(&self) -> TransactionMetaV {
        TransactionMetaV {
            signature: self.signature@,
            failed: self.failed,
            static_account_keys: spec_addresses(self.static_account_keys@),
            loaded_writable: spec_addresses(self.loaded_writable@),
            loaded_readonly: spec_addresses(self.loaded_readonly@),
            pre_token_balances: spec_opt_balances(self.pre_token_balances),
            post_token_balances: spec_opt_balances(self.post_token_balances),
            inner_instructions: spec_opt_groups(self.inner_instructions),
        }
    }
}

impl TransactionMetaV {
    /// The full resolved account address list: statically referenced
    /// accounts, then writable address-table lookups, then read-only ones.
    /// Account indices in compiled instructions reference this list.
    pub open spec fn account_list(self) -> Seq<Seq<char>> {
        self.static_account_keys + self.loaded_writable + self.loaded_readonly
    }
}

impl TransactionMeta {
    /// Builds the full resolved account address list of this transaction.
    pub fn build_account_list(&self) -> (r: Vec<String>)
        ensures
            spec_addresses(r@) == self@.account_list(),
    {
        let mut r: Vec<String> = Vec::new();
        append_addresses(&mut r, &self.static_account_keys);
        append_addresses(&mut r, &self.loaded_writable);
        append_addresses(&mut r, &self.loaded_readonly);
        proof {
            assert(r@ =~= self.static_account_keys@ + self.loaded_writable@
                + self.loaded_readonly@);
            assert(spec_addresses(r@) =~= self@.account_list());
        }
        r
    }
}

/// Appends copies of the given addresses, in order.
fn append_addresses(r: &mut Vec<String>, more: &Vec<String>)
    ensures
        final(r)@ == old(r)@ + more@,
{
    let n = more.len();
    let mut i: usize = 0;
    proof {
        assert(r@ =~= old(r)@ + more@.take(0));
    }
    while i < n
        invariant
            0 <= i <= n == more@.len(),
            r@ == old(r)@ + more@.take(i as int),
        decreases n - i,
    {
        let ghost prev = r@;
        r.push(more[i].clone());
        proof {
            assert(more@.take(i + 1).drop_last() =~= more@.take(i as int));
            assert(r@ =~= old(r)@ + more@.take(i + 1));
        }
        i = i + 1;
    }
    proof {
        assert(more@.take(n as int) =~= more@);
    }
}

/// Decides whether two swaps carry the same terms.
pub fn swap_eq(a: &Swap, b: &Swap) -> (r: bool)
    ensures
        r == (a@ == b@),
{
    let r = a.token_in_amount == b.token_in_amount && a.token_in_decimals == b.token_in_decimals
        && a.token_in_mint == b.token_in_mint && a.token_out_amount == b.token_out_amount
        && a.token_out_decimals == b.token_out_decimals && a.token_out_mint == b.token_out_mint
        && a.platform == b.platform && a.token_in_reserve == b.token_in_reserve
        && a.token_out_reserve == b.token_out_reserve;
    proof {
        if r {
            assert(a@ =~= b@);
        }
    }
    r
}

/// Decides whether two event payloads are the same.
pub fn event_type_eq(a: &EventType, b: &EventType) -> (r: bool)
    ensures
        r == (a@ == b@),
{
    match (a, b) {
        (EventType::Swap(x), EventType::Swap(y)) => swap_eq(x, y),
        (
            EventType::PoolCreation { mint: m1, platform: p1 },
            EventType::PoolCreation { mint: m2, platform: p2 },
        ) => *m1 == *m2 && *p1 == *p2,
        (
            EventType::AssociatedAccountCreation { mint: m1, account: a1, idempotent: i1 },
            EventType::AssociatedAccountCreation { mint: m2, account: a2, idempotent: i2 },
        ) => *m1 == *m2 && *a1 == *a2 && *i1 == *i2,
        _ => false,
    }
}

/// Decides whether two events share one deduplication identity.
pub fn event_key_eq(a: &Event, b: &Event) -> (r: bool)
    ensures
        r == (a@.key() == b@.key()),
{
    let r = a.signature == b.signature && event_type_eq(&a.event_type, &b.event_type)
        && a.user == b.user;
    proof {
        if r {
            assert(a@.key() =~= b@.key());
        }
    }
    r
}

} // verus!
