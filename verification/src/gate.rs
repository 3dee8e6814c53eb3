//! The proof admission gate: each proof of a lock event on the remote chain
//! is admitted at most once.

use crate::account::Account;
use vstd::prelude::*;

verus! {

/// The canonical identifier of a proof: where on the remote chain the event
/// that it proves was recorded.
#[derive(Clone, Copy, Debug, PartialEq, Eq, Structural)]
pub struct ProofId {
    pub chain_id: u64,
    pub block_height: u64,
    pub event_index: u64,
}

/// Why a proof was not admitted. Neither case changes any state.
#[derive(Clone, Copy, Debug, PartialEq, Eq, Structural)]
pub enum ProofError {
    /// The proof was admitted before.
    AlreadyUsed,
    /// The verifier of the remote chain rejected the proof.
    InvalidProof,
}

/// A lock event of the remote chain, as its verifier decoded it from a
/// proof.
#[derive(Clone, Debug, PartialEq, Eq)]
pub struct DepositedEvent {
    /// The chain on which the event was recorded.
    pub chain_id: u64,
    /// The height of the block that holds the event.
    pub block_height: u64,
    /// The position of the event within that block.
    pub event_index: u64,
    /// The account to credit.
    pub recipient: Account,
    /// The amount locked on the remote chain.
    pub amount: u128,
    /// The part of the amount that goes to the fee collector.
    pub fee: u128,
    /// A routing message for the recipient, if the event carries one.
    pub message: Option<Vec<u8>>,
}

/// A proof as it is presented: with the verdict of the remote chain's
/// verifier.
#[derive(Clone, Debug, PartialEq, Eq)]
pub enum ProofVerdict {
    /// The verifier rejected the proof.
    Invalid,
    /// The verifier accepted the proof, which proves this event.
    Valid(DepositedEvent),
}

/// An event whose proof was admitted: the caller now owes its recipient a
/// credit.
#[derive(Clone, Debug, PartialEq, Eq)]
pub struct AdmittedEvent {
    pub proof_id: ProofId,
    pub recipient: Account,
    pub amount: u128,
    pub fee: u128,
    pub message: Option<Vec<u8>>,
}

/// The identifier of the proof of `event`.
pub open spec fn proof_id_of(event: DepositedEvent) -> ProofId {
    ProofId {
        chain_id: event.chain_id,
        block_height: event.block_height,
        event_index: event.event_index,
    }
}

/// What is handed out when the proof of `event` is admitted.
pub open spec fn admitted(event: DepositedEvent) -> AdmittedEvent {
    AdmittedEvent {
        proof_id: proof_id_of(event),
        recipient: event.recipient,
        amount: event.amount,
        fee: event.fee,
        message: event.message,
    }
}

/// Admission as a function: the set of consumed identifiers after `verdict`
/// was presented, and the answer.
pub open spec fn admission(consumed: Set<ProofId>, verdict: ProofVerdict) -> (
    Set<ProofId>,
    Result<AdmittedEvent, ProofError>,
) {
    match verdict {
        ProofVerdict::Invalid => (consumed, Err(ProofError::InvalidProof)),
        ProofVerdict::Valid(event) => if consumed.contains(proof_id_of(event)) {
            (consumed, Err(ProofError::AlreadyUsed))
        } else {
            (consumed.insert(proof_id_of(event)), Ok(admitted(event)))
        },
    }
}

impl DepositedEvent {
    /// The identifier of the proof of this event.
    pub fn proof_id(&self) -> (r: ProofId)
        ensures
            r == proof_id_of(*self),
    {
        ProofId {
            chain_id: self.chain_id,
            block_height: self.block_height,
            event_index: self.event_index,
        }
    }
}

/// The set of proof identifiers that were admitted. It only grows.
pub struct ProofGate {
    consumed: Vec<ProofId>,
}

impl View for ProofGate {
    type V = Set<ProofId>;

    closed spec fn view(&self) -> Set<ProofId> {
        self.consumed@.to_set()
    }
}

impl ProofGate {
    /// A gate that has admitted nothing.
    pub fn new() -> (r: Self)
        ensures
            r@ == Set::<ProofId>::empty(),
    {
        let r = ProofGate { consumed: Vec::new() };
        assert(r@ =~= Set::<ProofId>::empty());
        r
    }

    /// A gate that has admitted exactly the proofs with these identifiers:
    /// the identifiers are what was stored of an earlier one.
    pub fn from_consumed(ids: Vec<ProofId>) -> (r: Self)
        ensures
            r@ == ids@.to_set(),
    {
        ProofGate { consumed: ids }
    }

    /// The identifiers of all proofs admitted so far, for storage outside.
    pub fn consumed_ids(&self) -> (r: Vec<ProofId>)
        ensures
            r@.to_set() == self@,
    {
        let mut ids: Vec<ProofId> = Vec::new();
        let mut i: usize = 0;
        while i < self.consumed.len()
            invariant
                i <= self.consumed.len(),
                ids@ == self.consumed@.take(i as int),
            decreases self.consumed.len() - i,
        {
            ids.push(self.consumed[i]);
            assert(ids@ =~= self.consumed@.take(i + 1));
            i += 1;
        }
        assert(ids@ =~= self.consumed@);
        ids
    }

    /// Whether the proof with this identifier was admitted.
    pub fn is_used(&self, id: &ProofId) -> (r: bool)
        ensures
            r == self@.contains(*id),
    {
        let mut i: usize = 0;
        while i < self.consumed.len()
            invariant
                i <= self.consumed.len(),
                forall|j: int| 0 <= j < i ==> self.consumed[j] != *id,
            decreases self.consumed.len() - i,
        {
            if self.consumed[i] == *id {
                assert(self.consumed@.contains(*id));
                return true;
            }
            i += 1;
        }
        false
    }

    /// Records an identifier that is known to be new.
    fn consume(&mut self, id: ProofId)
        ensures
            final(self)@ == old(self)@.insert(id),
    {
        self.consumed.push(id);
        proof {
            let before = old(self).consumed@;
            let after = self.consumed@;
            let grown = before.to_set().insert(id);
            assert forall|other: ProofId| after.to_set().contains(other) <==> grown.contains(
                other,
            ) by {
                if after.contains(other) {
                    let i = choose|i: int| 0 <= i < after.len() && after[i] == other;
                    if i < before.len() {
                        assert(before[i] == other);
                    }
                }
                if before.contains(other) {
                    let i = choose|i: int| 0 <= i < before.len() && before[i] == other;
                    assert(after[i] == other);
                }
                if other == id {
                    assert(after[before.len() as int] == id);
                }
            }
            assert(after.to_set() =~= grown);
        }
    }

    /// Admits a proof: refuses one that the verifier rejected with
    /// `InvalidProof` and one whose identifier was admitted before with
    /// `AlreadyUsed`, both without any change; otherwise records the
    /// identifier and hands out the event.
    pub fn admit_proof(&mut self, verdict: ProofVerdict) -> (r: Result<AdmittedEvent, ProofError>)
        ensures
            (final(self)@, r) == admission(old(self)@, verdict),
            old(self)@.subset_of(final(self)@),
    {
        match verdict {
            ProofVerdict::Invalid => Err(ProofError::InvalidProof),
            ProofVerdict::Valid(event) => {
                let id = event.proof_id();
                if self.is_used(&id) {
                    Err(ProofError::AlreadyUsed)
                } else {
                    self.consume(id);
                    Ok(
                        AdmittedEvent {
                            proof_id: id,
                            recipient: event.recipient,
                            amount: event.amount,
                            fee: event.fee,
                            message: event.message,
                        },
                    )
                }
            },
        }
    }
}

/// Exactly once: of two proofs with one identifier, presented one after the
/// other, the first is admitted exactly when the identifier is new, and the
/// second is refused with `AlreadyUsed` and changes nothing.
pub proof fn law_admitted_exactly_once(
    consumed: Set<ProofId>,
    first: DepositedEvent,
    second: DepositedEvent,
)
    requires
        proof_id_of(first) == proof_id_of(second),
    ensures
        admission(consumed, ProofVerdict::Valid(first)).1 is Ok <==> !consumed.contains(
            proof_id_of(first),
        ),
        admission(
            admission(consumed, ProofVerdict::Valid(first)).0,
            ProofVerdict::Valid(second),
        ) == (
            admission(consumed, ProofVerdict::Valid(first)).0,
            Err::<AdmittedEvent, ProofError>(ProofError::AlreadyUsed),
        ),
{
}

/// The set of consumed identifiers never shrinks, whatever is presented.
pub proof fn law_consumed_only_grows(consumed: Set<ProofId>, verdict: ProofVerdict)
    ensures
        consumed.subset_of(admission(consumed, verdict).0),
{
}

} // verus!
