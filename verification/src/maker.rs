//! Maker responder: the peer-side mirror of the Taker's per-hop logic. A
//! maker independently recomputes every proposed script and amount before
//! signing, verifies the funding it is shown, verifies any preimage before
//! claiming or forwarding, and refunds autonomously on lock-time maturity.

use vstd::prelude::*;

use crate::contract;
use crate::crypto;
use crate::error::SwapError;

verus! {

/// Checks a counterparty's proposed redeem script against the maker's own
/// recomputation from the negotiated material.
///
/// Succeeds exactly when the material is well-formed and the proposal is
/// byte-identical to the recomputed script; any divergence — a mismatched
/// public key, hash, or lock-time — is a protocol violation, and nothing is
/// signed.
pub fn validate_contract_proposal(
    proposal: &Vec<u8>,
    hashlock_pk: &Vec<u8>,
    timelock_pk: &Vec<u8>,
    hash_value: &Vec<u8>,
    locktime: u16,
) -> (r: Result<(), SwapError>)
    ensures
        r is Ok <==> contract::spec_valid_pubkey(hashlock_pk@) && contract::spec_valid_pubkey(
            timelock_pk@,
        ) && hash_value@.len() == 32 && proposal@ == contract::spec_redeem_script(
            hashlock_pk@,
            timelock_pk@,
            hash_value@,
            locktime,
        ),
        r matches Err(e) ==> e == SwapError::ProtocolViolation,
{
    let recomputed = match contract::build_redeem_script(
        hashlock_pk,
        timelock_pk,
        hash_value,
        locktime,
    ) {
        Ok(s) => s,
        Err(_) => {
            return Err(SwapError::ProtocolViolation);
        },
    };
    if crypto::bytes_eq(proposal, &recomputed) {
        Ok(())
    } else {
        Err(SwapError::ProtocolViolation)
    }
}

/// Checks that a funding transaction actually pays the agreed amount, less
/// the agreed fee, to the agreed contract script.
///
/// Succeeds exactly when the output value equals `amount - fee` and the
/// output's locking script is the pay-to-witness wrapping of the agreed
/// redeem script; any fee-computation divergence between the peers fails
/// here and is a protocol violation, never silently reconciled.
pub fn validate_funding(
    tx: &contract::ContractTransaction,
    redeemscript: &Vec<u8>,
    amount: u64,
    fee: u64,
) -> (r: Result<(), SwapError>)
    ensures
        r is Ok <==> fee < amount && tx.value == amount - fee && tx.locking_script@
            == contract::spec_funding_script(redeemscript@),
        r matches Err(e) ==> e == SwapError::ProtocolViolation,
{
    if fee >= amount || tx.value != amount - fee {
        return Err(SwapError::ProtocolViolation);
    }
    let expected = contract::funding_script_hash(redeemscript);
    if crypto::bytes_eq(&tx.locking_script, &expected) {
        Ok(())
    } else {
        Err(SwapError::ProtocolViolation)
    }
}

/// Where a maker stands on one hop.
#[derive(Clone, Copy, Debug, PartialEq, Eq, Structural)]
pub enum MakerState {
    /// Waiting for the hop proposal.
    AwaitingProposal,
    /// Proposal verified; waiting for the funding to confirm.
    AwaitingFunding,
    /// Funding verified and confirmed.
    Funded,
    /// Preimage verified; claiming the hashlock output and forwarding the
    /// preimage upstream.
    Claiming,
    /// Terminal success: claim confirmed, private key handed over.
    Claimed,
    /// Lock-time matured with no preimage; refunding autonomously.
    Refunding,
    /// Terminal recovery.
    Refunded,
}

/// An event delivered to the maker's hop machine. Validation events are
/// produced by the checking functions above, never assumed.
#[derive(Clone, Copy, Debug, PartialEq, Eq, Structural)]
pub enum MakerEvent {
    /// The proposal passed `validate_contract_proposal`.
    ProposalVerified,
    /// The funding passed `validate_funding` and confirmed.
    FundingVerified,
    /// A received preimage hashed to the agreed commitment.
    PreimageVerified,
    /// Our hashlock claim confirmed on-chain.
    ClaimConfirmed,
    /// The relative lock-time elapsed with no preimage seen.
    TimelockMatured,
    /// Our refund transaction confirmed.
    RefundConfirmed,
}

/// What the maker's runtime must do next.
#[derive(Clone, Copy, Debug, PartialEq, Eq, Structural)]
pub enum MakerAction {
    /// Sign and send the acceptance for the verified proposal.
    SendAcceptance,
    /// Acknowledge the verified funding.
    AcknowledgeFunding,
    /// Claim the hashlock output and forward the preimage upstream.
    ClaimAndForward,
    /// Hand over the private key of the no-longer-needed branch.
    HandOverPrivateKey,
    /// Broadcast the timelock refund.
    BroadcastRefund,
    /// Report the terminal outcome.
    ReportOutcome,
}

/// The responder's transition table, mirroring the Taker's per-hop logic
/// from the receiving side.
pub open spec fn spec_maker_step(s: MakerState, ev: MakerEvent) -> Option<
    (MakerState, MakerAction),
> {
    match (s, ev) {
        (MakerState::AwaitingProposal, MakerEvent::ProposalVerified) => Some(
            (MakerState::AwaitingFunding, MakerAction::SendAcceptance),
        ),
        (MakerState::AwaitingFunding, MakerEvent::FundingVerified) => Some(
            (MakerState::Funded, MakerAction::AcknowledgeFunding),
        ),
        (MakerState::Funded, MakerEvent::PreimageVerified) => Some(
            (MakerState::Claiming, MakerAction::ClaimAndForward),
        ),
        (MakerState::Claiming, MakerEvent::ClaimConfirmed) => Some(
            (MakerState::Claimed, MakerAction::HandOverPrivateKey),
        ),
        (MakerState::Funded, MakerEvent::TimelockMatured) => Some(
            (MakerState::Refunding, MakerAction::BroadcastRefund),
        ),
        (MakerState::Refunding, MakerEvent::RefundConfirmed) => Some(
            (MakerState::Refunded, MakerAction::ReportOutcome),
        ),
        _ => Option::None,
    }
}

/// One maker's view of one hop.
pub struct Maker {
    /// Current responder state.
    pub state: MakerState,
}

impl Maker {
    /// A fresh responder awaiting its hop proposal.
    pub fn new() -> (r: Maker)
        ensures
            r.state == MakerState::AwaitingProposal,
    {
        Maker { state: MakerState::AwaitingProposal }
    }

    /// Advances the responder by one verified event.
    ///
    /// Exactly the transitions of the responder table are accepted; an
    /// event that does not belong to the current state is a protocol
    /// violation and changes nothing.
    pub fn step(&mut self, event: MakerEvent) -> (r: Result<MakerAction, SwapError>)
        ensures
            r is Ok <==> spec_maker_step(old(self).state, event) is Some,
            r matches Ok(action) ==> spec_maker_step(old(self).state, event) matches Some(step)
                && final(self).state == step.0 && action == step.1,
            r is Err ==> *final(self) == *old(self),
            r matches Err(e) ==> e == SwapError::ProtocolViolation,
    {
        let next: Option<(MakerState, MakerAction)> = match (self.state, event) {
            (MakerState::AwaitingProposal, MakerEvent::ProposalVerified) => Some(
                (MakerState::AwaitingFunding, MakerAction::SendAcceptance),
            ),
            (MakerState::AwaitingFunding, MakerEvent::FundingVerified) => Some(
                (MakerState::Funded, MakerAction::AcknowledgeFunding),
            ),
            (MakerState::Funded, MakerEvent::PreimageVerified) => Some(
                (MakerState::Claiming, MakerAction::ClaimAndForward),
            ),
            (MakerState::Claiming, MakerEvent::ClaimConfirmed) => Some(
                (MakerState::Claimed, MakerAction::HandOverPrivateKey),
            ),
            (MakerState::Funded, MakerEvent::TimelockMatured) => Some(
                (MakerState::Refunding, MakerAction::BroadcastRefund),
            ),
            (MakerState::Refunding, MakerEvent::RefundConfirmed) => Some(
                (MakerState::Refunded, MakerAction::ReportOutcome),
            ),
            _ => Option::None,
        };
        match next {
            Some((state, action)) => {
                self.state = state;
                Ok(action)
            },
            None => Err(SwapError::ProtocolViolation),
        }
    }
}

/// Law: a maker claims only through a verified preimage — the only way into
/// `Claiming` or `Claimed` is the `PreimageVerified` event out of `Funded`
/// — and it refunds only through a matured lock-time.
pub proof fn lemma_maker_claims_need_preimage(s: MakerState, ev: MakerEvent)
    ensures
        (spec_maker_step(s, ev) matches Some(step) && step.0 == MakerState::Claiming) ==> s
            == MakerState::Funded && ev == MakerEvent::PreimageVerified,
        (spec_maker_step(s, ev) matches Some(step) && step.0 == MakerState::Refunding) ==> s
            == MakerState::Funded && ev == MakerEvent::TimelockMatured,
{
}

} // verus!
