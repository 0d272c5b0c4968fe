//! The PumpFun classifier: maps decoded PumpFun instructions to pool-creation
//! and swap events.  This protocol reports its pool reserves inline, so no
//! transfer reconciliation is needed.

use vstd::prelude::*;

use crate::constants::{native_mint, spec_native_mint};
use crate::dedup::{DedupCache, spec_emit_step, spec_opt_event};
use crate::types::{
    Event, EventType, EventTypeV, EventV, Swap, SwapPlatform, SwapV, TransactionMeta,
    TransactionMetaV,
};

verus! {

/// The decoded PumpFun instructions this classifier reads: a bonding-curve
/// creation, a trade with its self-reported virtual reserves, or anything
/// else, which is ignored.
#[derive(Clone, Debug)]
pub enum PumpfunInstruction {
    CreateEvent { mint: String, user: String },
    TradeEvent {
        mint: String,
        user: String,
        is_buy: bool,
        sol_amount: u64,
        token_amount: u64,
        virtual_sol_reserves: u64,
        virtual_token_reserves: u64,
    },
    Other,
}

/// Mathematical value of a `PumpfunInstruction`.
#[verifier::ext_equal]
pub enum PumpfunInstructionV {
    CreateEvent { mint: Seq<char>, user: Seq<char> },
    TradeEvent {
        mint: Seq<char>,
        user: Seq<char>,
        is_buy: bool,
        sol_amount: u64,
        token_amount: u64,
        virtual_sol_reserves: u64,
        virtual_token_reserves: u64,
    },
    Other,
}

impl View for PumpfunInstruction {
    type V = PumpfunInstructionV;

    open spec fn view(&self) -> PumpfunInstructionV {
        match self {
            PumpfunInstruction::CreateEvent { mint, user } => PumpfunInstructionV::CreateEvent {
                mint: mint@,
                user: user@,
            },
            PumpfunInstruction::TradeEvent {
                mint,
                user,
                is_buy,
                sol_amount,
                token_amount,
                virtual_sol_reserves,
                virtual_token_reserves,
            } => PumpfunInstructionV::TradeEvent {
                mint: mint@,
                user: user@,
                is_buy: *is_buy,
                sol_amount: *sol_amount,
                token_amount: *token_amount,
                virtual_sol_reserves: *virtual_sol_reserves,
                virtual_token_reserves: *virtual_token_reserves,
            },
            PumpfunInstruction::Other => PumpfunInstructionV::Other,
        }
    }
}

/// The swap terms of one PumpFun trade.  On a buy the input leg is the
/// native currency (nine decimals, native pseudo-mint) and the output leg
/// the traded token (six decimals); on a sell the legs are swapped.  The
/// reserves are the trade's self-reported virtual reserves, assigned to the
/// same sides as the legs.
pub open spec fn spec_pumpfun_swap(
    mint: Seq<char>,
    is_buy: bool,
    sol_amount: u64,
    token_amount: u64,
    virtual_sol_reserves: u64,
    virtual_token_reserves: u64,
) -> SwapV {
    if is_buy {
        SwapV {
            token_in_amount: sol_amount,
            token_in_decimals: 9,
            token_in_mint: spec_native_mint(),
            token_out_amount: token_amount,
            token_out_decimals: 6,
            token_out_mint: mint,
            platform: SwapPlatform::PumpFun,
            token_in_reserve: virtual_sol_reserves,
            token_out_reserve: virtual_token_reserves,
        }
    } else {
        SwapV {
            token_in_amount: token_amount,
            token_in_decimals: 6,
            token_in_mint: mint,
            token_out_amount: sol_amount,
            token_out_decimals: 9,
            token_out_mint: spec_native_mint(),
            platform: SwapPlatform::PumpFun,
            token_in_reserve: virtual_token_reserves,
            token_out_reserve: virtual_sol_reserves,
        }
    }
}

/// The event a PumpFun instruction classifies to: none for an instruction
/// of a failed transaction, a pool creation for a bonding-curve creation, a
/// swap for a trade — unless the traded mint is the native pseudo-mint
/// itself, whose swap would carry one mint on both legs — and none for any
/// other instruction kind.
pub open spec fn spec_pumpfun_event(
    meta: TransactionMetaV,
    ix: PumpfunInstructionV,
    now: u64,
) -> Option<EventV> {
    if meta.failed {
        None
    } else {
        match ix {
            PumpfunInstructionV::CreateEvent { mint, user } => Some(
                EventV {
                    signature: meta.signature,
                    event_type: EventTypeV::PoolCreation {
                        mint,
                        platform: SwapPlatform::PumpFun,
                    },
                    user,
                    timestamp: now,
                },
            ),
            PumpfunInstructionV::TradeEvent {
                mint,
                user,
                is_buy,
                sol_amount,
                token_amount,
                virtual_sol_reserves,
                virtual_token_reserves,
            } => {
                if mint == spec_native_mint() {
                    None
                } else {
                    Some(
                        EventV {
                            signature: meta.signature,
                            event_type: EventTypeV::Swap(
                                spec_pumpfun_swap(
                                    mint,
                                    is_buy,
                                    sol_amount,
                                    token_amount,
                                    virtual_sol_reserves,
                                    virtual_token_reserves,
                                ),
                            ),
                            user,
                            timestamp: now,
                        },
                    )
                }
            },
            PumpfunInstructionV::Other => None,
        }
    }
}

/// The PumpFun classifier, bound to its platform's deduplication cache.
pub struct PumpFunMonitor {
    pub parsed_events: DedupCache,
}

impl PumpFunMonitor {
    /// Classifies one decoded PumpFun instruction and deduplicates the
    /// candidate event; what is returned is owed to the outbound channel.
    pub fn process(
        &mut self,
        meta: &TransactionMeta,
        instruction: &PumpfunInstruction,
        now_timestamp: u64,
    ) -> (r: Option<Event>)
        ensures
            spec_emit_step(
                old(self).parsed_events@,
                final(self).parsed_events@,
                spec_pumpfun_event(meta@, instruction@, now_timestamp),
                spec_opt_event(r),
            ),
            (match r {
                Some(e) => match e@.event_type {
                    EventTypeV::Swap(swap) => swap.token_in_mint != swap.token_out_mint,
                    _ => true,
                },
                None => true,
            }),
    {
        if meta.failed {
            return None;
        }
        let event = match instruction {
            PumpfunInstruction::CreateEvent { mint, user } => Event {
                signature: meta.signature.clone(),
                event_type: EventType::PoolCreation {
                    mint: mint.clone(),
                    platform: SwapPlatform::PumpFun,
                },
                user: user.clone(),
                timestamp: now_timestamp,
            },
            PumpfunInstruction::TradeEvent {
                mint,
                user,
                is_buy,
                sol_amount,
                token_amount,
                virtual_sol_reserves,
                virtual_token_reserves,
            } => {
                if *mint == native_mint() {
                    return None;
                }
                let swap = if *is_buy {
                    Swap {
                        token_in_amount: *sol_amount,
                        token_in_decimals: 9,
                        token_in_mint: native_mint(),
                        token_out_amount: *token_amount,
                        token_out_decimals: 6,
                        token_out_mint: mint.clone(),
                        platform: SwapPlatform::PumpFun,
                        token_in_reserve: *virtual_sol_reserves,
                        token_out_reserve: *virtual_token_reserves,
                    }
                } else {
                    Swap {
                        token_in_amount: *token_amount,
                        token_in_decimals: 6,
                        token_in_mint: mint.clone(),
                        token_out_amount: *sol_amount,
                        token_out_decimals: 9,
                        token_out_mint: native_mint(),
                        platform: SwapPlatform::PumpFun,
                        token_in_reserve: *virtual_token_reserves,
                        token_out_reserve: *virtual_sol_reserves,
                    }
                };
                Event {
                    signature: meta.signature.clone(),
                    event_type: EventType::Swap(swap),
                    user: user.clone(),
                    timestamp: now_timestamp,
                }
            },
            PumpfunInstruction::Other => {
                return None;
            },
        };
        proof {
            assert(event@ =~= spec_pumpfun_event(meta@, instruction@, now_timestamp).unwrap());
        }
        if self.parsed_events.should_emit(&event) {
            Some(event)
        } else {
            None
        }
    }
}

/// On every PumpFun buy trade the input leg is the native currency: native
/// pseudo-mint, nine decimals.  On every sell trade the output leg is.
/// (A trade on the native pseudo-mint itself classifies to no event.)
pub proof fn lemma_pumpfun_trade_native_leg(
    meta: TransactionMetaV,
    mint: Seq<char>,
    user: Seq<char>,
    is_buy: bool,
    sol_amount: u64,
    token_amount: u64,
    virtual_sol_reserves: u64,
    virtual_token_reserves: u64,
    now: u64,
)
    requires
        !meta.failed,
        mint != spec_native_mint(),
    ensures
        ({
            let ix = PumpfunInstructionV::TradeEvent {
                mint,
                user,
                is_buy,
                sol_amount,
                token_amount,
                virtual_sol_reserves,
                virtual_token_reserves,
            };
            let swap = spec_pumpfun_swap(
                mint,
                is_buy,
                sol_amount,
                token_amount,
                virtual_sol_reserves,
                virtual_token_reserves,
            );
            &&& spec_pumpfun_event(meta, ix, now).unwrap().event_type == EventTypeV::Swap(swap)
            &&& (is_buy ==> swap.token_in_mint == spec_native_mint() && swap.token_in_decimals
                == 9)
            &&& (!is_buy ==> swap.token_out_mint == spec_native_mint() && swap.token_out_decimals
                == 9)
        }),
{
}

/// Every swap event this classifier yields exchanges two different tokens,
/// whichever instruction and direction produced it: a trade on the native
/// pseudo-mint itself is not classified as a swap.
pub proof fn lemma_pumpfun_swap_mints_distinct(
    meta: TransactionMetaV,
    ix: PumpfunInstructionV,
    now: u64,
)
    ensures
        (match spec_pumpfun_event(meta, ix, now) {
            Some(ev) => match ev.event_type {
                EventTypeV::Swap(swap) => swap.token_in_mint != swap.token_out_mint,
                _ => true,
            },
            None => true,
        }),
{
}

/// An instruction of a failed transaction classifies to no event.
pub proof fn lemma_pumpfun_failed_tx_no_event(
    meta: TransactionMetaV,
    ix: PumpfunInstructionV,
    now: u64,
)
    requires
        meta.failed,
    ensures
        spec_pumpfun_event(meta, ix, now) is None,
{
}

} // verus!
