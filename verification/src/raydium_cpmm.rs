//! The Raydium constant-product-pool classifier: maps decoded pool
//! instructions to pool-creation and swap events, reconstructing a swap's
//! terms through the transfer-reconciliation engine.

use vstd::prelude::*;

use crate::dedup::{DedupCache, spec_emit_step, spec_opt_event};
use crate::transfer::{ReconcileError, reconcile_swap, spec_addresses, spec_reconcile_swap};
use crate::types::{
    Event, EventType, EventTypeV, EventV, SwapPlatform, TransactionMeta, TransactionMetaV,
};

verus! {

/// The decoded Raydium constant-product-pool instructions this classifier
/// reads: the two swap variants, a pool initialization, or anything else,
/// which is ignored.
#[derive(Clone, Copy, Debug, PartialEq, Eq, Structural)]
pub enum RaydiumCpmmInstruction {
    SwapBaseInput,
    SwapBaseOutput,
    Initialize,
    Other,
}

/// The result of classifying a Raydium constant-product-pool instruction:
/// no event for an instruction of a failed transaction or an ignored kind;
/// a pool creation on initialize; on either swap variant, the swap the
/// reconciliation engine reconstructs, with the instruction's fifth account
/// reference as the designated input token account and its sixth as the
/// output one; a reconciliation failure is propagated.  The user of every
/// emitted event is the instruction's first account reference.
pub open spec fn spec_raydium_event(
    meta: TransactionMetaV,
    ix: RaydiumCpmmInstruction,
    ix_accounts: Seq<Seq<char>>,
    now: u64,
) -> Result<Option<EventV>, ReconcileError> {
    if meta.failed {
        Ok(None)
    } else {
        match ix {
            RaydiumCpmmInstruction::SwapBaseInput | RaydiumCpmmInstruction::SwapBaseOutput => {
                match spec_reconcile_swap(
                    meta.account_list(),
                    meta.pre_token_balances,
                    meta.post_token_balances,
                    meta.inner_instructions,
                    ix_accounts[4],
                    ix_accounts[5],
                    SwapPlatform::RaydiumCpmm,
                ) {
                    Ok(swap) => Ok(
                        Some(
                            EventV {
                                signature: meta.signature,
                                event_type: EventTypeV::Swap(swap),
                                user: ix_accounts[0],
                                timestamp: now,
                            },
                        ),
                    ),
                    Err(e) => Err(e),
                }
            },
            RaydiumCpmmInstruction::Initialize => Ok(
                Some(
                    EventV {
                        signature: meta.signature,
                        event_type: EventTypeV::PoolCreation {
                            mint: ix_accounts[0],
                            platform: SwapPlatform::RaydiumCpmm,
                        },
                        user: ix_accounts[0],
                        timestamp: now,
                    },
                ),
            ),
            RaydiumCpmmInstruction::Other => Ok(None),
        }
    }
}

/// Whether a transaction's balance snapshots only reference accounts inside
/// its resolved account list.
pub open spec fn spec_meta_balances_in_range(meta: TransactionMetaV) -> bool {
    &&& (meta.pre_token_balances matches Some(pre)
        ==> crate::transfer::spec_balances_in_range(pre, meta.account_list().len() as nat))
    &&& (meta.post_token_balances matches Some(post)
        ==> crate::transfer::spec_balances_in_range(post, meta.account_list().len() as nat))
}

/// The Raydium constant-product-pool classifier, bound to its platform's
/// deduplication cache.
pub struct RaydiumCpmmMonitor {
    pub parsed_events: DedupCache,
}

impl RaydiumCpmmMonitor {
    /// Classifies one decoded pool instruction, reconciling a swap's legs
    /// from the transaction's inner transfers, and deduplicates the
    /// candidate event; what is returned in `Ok` is owed to the outbound
    /// channel, and a reconciliation failure is reported, not swallowed.
    pub fn process(
        &mut self,
        meta: &TransactionMeta,
        instruction: &RaydiumCpmmInstruction,
        instruction_accounts: &Vec<String>,
        now_timestamp: u64,
    ) -> (r: Result<Option<Event>, ReconcileError>)
        requires
            (*instruction is SwapBaseInput || *instruction is SwapBaseOutput)
                ==> instruction_accounts@.len() >= 6,
            *instruction is Initialize ==> instruction_accounts@.len() >= 1,
            spec_meta_balances_in_range(meta@),
        ensures
            match spec_raydium_event(
                meta@,
                *instruction,
                spec_addresses(instruction_accounts@),
                now_timestamp,
            ) {
                Err(e) => r == Err::<Option<Event>, ReconcileError>(e)
                    && final(self).parsed_events@ == old(self).parsed_events@,
                Ok(candidate) => r is Ok && spec_emit_step(
                    old(self).parsed_events@,
                    final(self).parsed_events@,
                    candidate,
                    spec_opt_event(r.unwrap()),
                ),
            },
            (match r {
                Ok(Some(e)) => match e@.event_type {
                    EventTypeV::Swap(swap) => swap.token_in_mint != swap.token_out_mint,
                    _ => true,
                },
                _ => true,
            }),
    {
        if meta.failed {
            return Ok(None);
        }
        let event_type = match instruction {
            RaydiumCpmmInstruction::SwapBaseInput | RaydiumCpmmInstruction::SwapBaseOutput => {
                let accounts = meta.build_account_list();
                match reconcile_swap(
                    &accounts,
                    &meta.pre_token_balances,
                    &meta.post_token_balances,
                    &meta.inner_instructions,
                    &instruction_accounts[4],
                    &instruction_accounts[5],
                    SwapPlatform::RaydiumCpmm,
                ) {
                    Ok(swap) => EventType::Swap(swap),
                    Err(e) => {
                        return Err(e);
                    },
                }
            },
            RaydiumCpmmInstruction::Initialize => EventType::PoolCreation {
                mint: instruction_accounts[0].clone(),
                platform: SwapPlatform::RaydiumCpmm,
            },
            RaydiumCpmmInstruction::Other => {
                return Ok(None);
            },
        };
        let event = Event {
            signature: meta.signature.clone(),
            event_type,
            user: instruction_accounts[0].clone(),
            timestamp: now_timestamp,
        };
        proof {
            assert(Some(event@) =~~= spec_raydium_event(
                meta@,
                *instruction,
                spec_addresses(instruction_accounts@),
                now_timestamp,
            ).unwrap());
        }
        if self.parsed_events.should_emit(&event) {
            Ok(Some(event))
        } else {
            Ok(None)
        }
    }
}

/// Every swap event this classifier yields exchanges two different tokens:
/// a reconciliation whose legs resolve to one mint fails instead.
pub proof fn lemma_raydium_swap_mints_distinct(
    meta: TransactionMetaV,
    ix: RaydiumCpmmInstruction,
    ix_accounts: Seq<Seq<char>>,
    now: u64,
)
    ensures
        (match spec_raydium_event(meta, ix, ix_accounts, now) {
            Ok(Some(ev)) => match ev.event_type {
                EventTypeV::Swap(swap) => swap.token_in_mint != swap.token_out_mint,
                _ => true,
            },
            _ => true,
        }),
{
    crate::transfer::lemma_reconcile_swap_mints_distinct(
        meta.account_list(),
        meta.pre_token_balances,
        meta.post_token_balances,
        meta.inner_instructions,
        ix_accounts[4],
        ix_accounts[5],
        SwapPlatform::RaydiumCpmm,
    );
}

/// An instruction of a failed transaction classifies to no event.
pub proof fn lemma_raydium_failed_tx_no_event(
    meta: TransactionMetaV,
    ix: RaydiumCpmmInstruction,
    ix_accounts: Seq<Seq<char>>,
    now: u64,
)
    requires
        meta.failed,
    ensures
        spec_raydium_event(meta, ix, ix_accounts, now) == Ok::<Option<EventV>, ReconcileError>(
            None,
        ),
{
}

} // verus!
