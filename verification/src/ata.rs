//! The associated-token-account classifier: maps account-creation
//! instructions to account-creation events.

use vstd::prelude::*;

use crate::dedup::{DedupCache, spec_emit_step, spec_opt_event};
use crate::transfer::spec_addresses;
use crate::types::{Event, EventType, EventTypeV, EventV, TransactionMeta, TransactionMetaV};

verus! {

/// The decoded associated-token-account instructions this classifier reads:
/// a plain creation, a create-if-absent, or anything else, which is ignored.
#[derive(Clone, Copy, Debug, PartialEq, Eq, Structural)]
pub enum SplAssociatedTokenAccountInstruction {
    Create,
    CreateIdempotent,
    Other,
}

/// The event an associated-token-account instruction classifies to: none
/// for an instruction of a failed transaction; an account creation with the
/// account at the instruction's first account reference, the mint at its
/// second and the user at its third, idempotent exactly for the
/// create-if-absent kind; none for any other instruction kind.
pub open spec fn spec_ata_event(
    meta: TransactionMetaV,
    ix: SplAssociatedTokenAccountInstruction,
    ix_accounts: Seq<Seq<char>>,
    now: u64,
) -> Option<EventV> {
    if meta.failed {
        None
    } else {
        match ix {
            SplAssociatedTokenAccountInstruction::Create => Some(
                spec_ata_creation_event(meta, ix_accounts, false, now),
            ),
            SplAssociatedTokenAccountInstruction::CreateIdempotent => Some(
                spec_ata_creation_event(meta, ix_accounts, true, now),
            ),
            SplAssociatedTokenAccountInstruction::Other => None,
        }
    }
}

/// The account-creation event built from an instruction's account
/// references.
pub open spec fn spec_ata_creation_event(
    meta: TransactionMetaV,
    ix_accounts: Seq<Seq<char>>,
    idempotent: bool,
    now: u64,
) -> EventV {
    EventV {
        signature: meta.signature,
        event_type: EventTypeV::AssociatedAccountCreation {
            mint: ix_accounts[1],
            account: ix_accounts[0],
            idempotent,
        },
        user: ix_accounts[2],
        timestamp: now,
    }
}

/// The associated-token-account classifier, bound to its deduplication
/// cache.
pub struct PumpFunMonitor {
    pub parsed_events: DedupCache,
}

impl PumpFunMonitor {
    /// Classifies one decoded account-creation instruction and deduplicates
    /// the candidate event; what is returned is owed to the outbound
    /// channel.
    pub fn process(
        &mut self,
        meta: &TransactionMeta,
        instruction: &SplAssociatedTokenAccountInstruction,
        instruction_accounts: &Vec<String>,
        now_timestamp: u64,
    ) -> (r: Option<Event>)
        requires
            !(*instruction is Other) ==> instruction_accounts@.len() >= 3,
        ensures
            spec_emit_step(
                old(self).parsed_events@,
                final(self).parsed_events@,
                spec_ata_event(
                    meta@,
                    *instruction,
                    spec_addresses(instruction_accounts@),
                    now_timestamp,
                ),
                spec_opt_event(r),
            ),
    {
        if meta.failed {
            return None;
        }
        let idempotent = match instruction {
            SplAssociatedTokenAccountInstruction::Create => false,
            SplAssociatedTokenAccountInstruction::CreateIdempotent => true,
            SplAssociatedTokenAccountInstruction::Other => {
                return None;
            },
        };
        let event = Event {
            signature: meta.signature.clone(),
            event_type: EventType::AssociatedAccountCreation {
                mint: instruction_accounts[1].clone(),
                account: instruction_accounts[0].clone(),
                idempotent,
            },
            user: instruction_accounts[2].clone(),
            timestamp: now_timestamp,
        };
        proof {
            assert(event@ =~= spec_ata_event(
                meta@,
                *instruction,
                spec_addresses(instruction_accounts@),
                now_timestamp,
            ).unwrap());
        }
        if self.parsed_events.should_emit(&event) {
            Some(event)
        } else {
            None
        }
    }
}

/// An instruction of a failed transaction classifies to no event.
pub proof fn lemma_ata_failed_tx_no_event(
    meta: TransactionMetaV,
    ix: SplAssociatedTokenAccountInstruction,
    ix_accounts: Seq<Seq<char>>,
    now: u64,
)
    requires
        meta.failed,
    ensures
        spec_ata_event(meta, ix, ix_accounts, now) is None,
{
}

} // verus!
