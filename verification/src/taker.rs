//! Taker orchestrator: the per-session state machine that drives hop setup,
//! funding, preimage release, key handover, and abort/recovery. Decisions
//! are a pure function of state and event; the surrounding runtime performs
//! each returned action and feeds the next event back in.

use vstd::prelude::*;

use crate::error::SwapError;

verus! {

/// Where a session stands. Hop commitment is strictly sequential: funding of
/// hop `i + 1` can only be reached through the confirmed funding of hop `i`.
#[derive(Clone, Copy, Debug, PartialEq, Eq, Structural)]
pub enum TakerState {
    /// Querying the directory and picking a maker chain.
    SelectingMakers,
    /// Exchanging keys, amount and lock-time with the maker of this hop.
    NegotiatingHop { hop: usize },
    /// Broadcasting this hop's funding transaction.
    FundingHop { hop: usize },
    /// Waiting for this hop's funding confirmation.
    AwaitingConfirmation { hop: usize },
    /// All hops funded; revealing the preimage to the last maker.
    RevealingPreimage,
    /// Preimage propagated; exchanging the now-safe private keys.
    ExchangingKeys,
    /// Terminal success.
    Completed,
    /// A failure at this hop; no further hop is committed.
    Aborting { hop: usize },
    /// Releasing locks and broadcasting matured refunds.
    Recovering,
    /// Terminal recovery.
    Aborted,
}

/// An event delivered to the orchestrator by the runtime.
#[derive(Clone, Copy, Debug, PartialEq, Eq, Structural)]
pub enum TakerEvent {
    /// The directory returned a usable maker chain.
    MakersSelected,
    /// The current hop's maker replied and every check passed.
    NegotiationAccepted,
    /// The current hop's maker replied with mismatched material.
    NegotiationInvalid,
    /// The funding transaction was accepted by the network.
    FundingBroadcastOk,
    /// The funding transaction was rejected after bounded retries.
    FundingBroadcastFailed,
    /// The current hop's funding transaction confirmed.
    FundingConfirmed,
    /// The current peer exceeded its timeout and retry budget.
    PeerUnresponsive,
    /// The preimage was delivered and acknowledged.
    PreimageAccepted,
    /// Every private key was exchanged.
    KeysExchanged,
    /// Locks are released and every due refund is broadcast.
    RecoveryDone,
}

/// What the runtime must do next.
#[derive(Clone, Copy, Debug, PartialEq, Eq, Structural)]
pub enum TakerAction {
    /// Send the negotiation request for this hop.
    SendNegotiation { hop: usize },
    /// Build, sign and broadcast this hop's funding transaction.
    BroadcastFunding { hop: usize },
    /// Poll for this hop's funding confirmation.
    AwaitConfirmation { hop: usize },
    /// Reveal the preimage to the last hop's maker.
    RevealPreimage,
    /// Exchange private keys with every maker.
    ExchangePrivateKeys,
    /// Release registry locks and broadcast matured refunds.
    RecoverFunds,
    /// Report the terminal outcome.
    ReportOutcome,
}

/// One Taker session: the number of hops fixed at start, the current
/// state, and the reason the session is aborting, once it is.
pub struct Taker {
    /// Number of hops in the session, at least one.
    pub num_hops: usize,
    /// Current orchestration state.
    pub state: TakerState,
    /// Why the session entered its abort path, if it did; no terminal
    /// outcome is ever reported without a reason.
    pub abort_reason: Option<SwapError>,
}

/// The terminal outcome reported for a session.
#[derive(Clone, Copy, Debug, PartialEq, Eq, Structural)]
pub enum SwapResult {
    /// Every hop completed and every private key was received.
    Success,
    /// The session aborted for this reason.
    Aborted { reason: SwapError },
}

/// The failure that an event carries into the abort path, if any.
pub open spec fn spec_event_failure(ev: TakerEvent) -> Option<SwapError> {
    match ev {
        TakerEvent::NegotiationInvalid => Some(SwapError::ProtocolViolation),
        TakerEvent::PeerUnresponsive => Some(SwapError::NetworkError),
        TakerEvent::FundingBroadcastFailed => Some(SwapError::BroadcastFailure),
        _ => Option::None,
    }
}

/// The orchestrator's transition table: the successor state and the action
/// the runtime must perform, or nothing when the event does not belong to
/// the state.
pub open spec fn spec_taker_step(m: Taker, ev: TakerEvent) -> Option<(TakerState, TakerAction)> {
    match (m.state, ev) {
        (TakerState::SelectingMakers, TakerEvent::MakersSelected) => Some(
            (TakerState::NegotiatingHop { hop: 0 }, TakerAction::SendNegotiation { hop: 0 }),
        ),
        (TakerState::NegotiatingHop { hop }, TakerEvent::NegotiationAccepted) => Some(
            (TakerState::FundingHop { hop }, TakerAction::BroadcastFunding { hop }),
        ),
        (TakerState::NegotiatingHop { hop }, TakerEvent::NegotiationInvalid) => Some(
            (TakerState::Aborting { hop }, TakerAction::RecoverFunds),
        ),
        (TakerState::NegotiatingHop { hop }, TakerEvent::PeerUnresponsive) => Some(
            (TakerState::Aborting { hop }, TakerAction::RecoverFunds),
        ),
        (TakerState::FundingHop { hop }, TakerEvent::FundingBroadcastOk) => Some(
            (TakerState::AwaitingConfirmation { hop }, TakerAction::AwaitConfirmation { hop }),
        ),
        (TakerState::FundingHop { hop }, TakerEvent::FundingBroadcastFailed) => Some(
            (TakerState::Aborting { hop }, TakerAction::RecoverFunds),
        ),
        (TakerState::AwaitingConfirmation { hop }, TakerEvent::FundingConfirmed) => {
            if hop + 1 < m.num_hops {
                Some(
                    (
                        TakerState::NegotiatingHop { hop: (hop + 1) as usize },
                        TakerAction::SendNegotiation { hop: (hop + 1) as usize },
                    ),
                )
            } else {
                Some((TakerState::RevealingPreimage, TakerAction::RevealPreimage))
            }
        },
        (TakerState::AwaitingConfirmation { hop }, TakerEvent::PeerUnresponsive) => Some(
            (TakerState::Aborting { hop }, TakerAction::RecoverFunds),
        ),
        (TakerState::RevealingPreimage, TakerEvent::PreimageAccepted) => Some(
            (TakerState::ExchangingKeys, TakerAction::ExchangePrivateKeys),
        ),
        (TakerState::RevealingPreimage, TakerEvent::PeerUnresponsive) => {
            Some((TakerState::Aborting { hop: (m.num_hops - 1) as usize }, TakerAction::RecoverFunds))
        },
        (TakerState::ExchangingKeys, TakerEvent::KeysExchanged) => Some(
            (TakerState::Completed, TakerAction::ReportOutcome),
        ),
        (TakerState::ExchangingKeys, TakerEvent::PeerUnresponsive) => {
            Some((TakerState::Aborting { hop: (m.num_hops - 1) as usize }, TakerAction::RecoverFunds))
        },
        (TakerState::Aborting { .. }, TakerEvent::RecoveryDone) => Some(
            (TakerState::Recovering, TakerAction::RecoverFunds),
        ),
        (TakerState::Recovering, TakerEvent::RecoveryDone) => Some(
            (TakerState::Aborted, TakerAction::ReportOutcome),
        ),
        _ => Option::None,
    }
}

/// An abort path always carries its reason: no session stands in
/// `Aborting`, `Recovering` or `Aborted` without a recorded failure.
pub open spec fn spec_reason_recorded(m: Taker) -> bool {
    (m.state matches TakerState::Aborting { .. } || m.state == TakerState::Recovering || m.state
        == TakerState::Aborted) ==> m.abort_reason is Some
}

/// Every hop index mentioned by the state lies inside the session.
pub open spec fn spec_taker_wf(m: Taker) -> bool {
    &&& m.num_hops >= 1
    &&& match m.state {
        TakerState::NegotiatingHop { hop } => hop < m.num_hops,
        TakerState::FundingHop { hop } => hop < m.num_hops,
        TakerState::AwaitingConfirmation { hop } => hop < m.num_hops,
        TakerState::Aborting { hop } => hop < m.num_hops,
        _ => true,
    }
}

impl Taker {
    /// Starts a session over a fixed, non-empty maker chain.
    pub fn new(num_hops: usize) -> (r: Result<Taker, SwapError>)
        ensures
            r is Ok <==> num_hops >= 1,
            r matches Ok(m) ==> m.num_hops == num_hops && m.state == TakerState::SelectingMakers
                && m.abort_reason is None && spec_taker_wf(m) && spec_reason_recorded(m),
            r matches Err(e) ==> e == SwapError::ProtocolViolation,
    {
        if num_hops == 0 {
            return Err(SwapError::ProtocolViolation);
        }
        Ok(Taker { num_hops, state: TakerState::SelectingMakers, abort_reason: Option::None })
    }

    /// Advances the session by one event and returns the action to perform.
    ///
    /// Exactly the transitions of the orchestration table are accepted; an
    /// event that does not belong to the current state is a protocol
    /// violation and leaves the session where it was.
    pub fn step(&mut self, event: TakerEvent) -> (r: Result<TakerAction, SwapError>)
        requires
            spec_taker_wf(*old(self)),
        ensures
            r is Ok <==> spec_taker_step(*old(self), event) is Some,
            r matches Ok(action) ==> spec_taker_step(*old(self), event) matches Some(step)
                && final(self).state == step.0 && action == step.1 && final(self).num_hops == old(
                self,
            ).num_hops && final(self).abort_reason == (if step.0 matches TakerState::Aborting {
                ..
            } {
                spec_event_failure(event)
            } else {
                old(self).abort_reason
            }),
            r is Err ==> *final(self) == *old(self),
            r matches Err(e) ==> e == SwapError::ProtocolViolation,
            spec_taker_wf(*final(self)),
            spec_reason_recorded(*old(self)) ==> spec_reason_recorded(*final(self)),
    {
        let next: Option<(TakerState, TakerAction)> = match (self.state, event) {
            (TakerState::SelectingMakers, TakerEvent::MakersSelected) => Some(
                (TakerState::NegotiatingHop { hop: 0 }, TakerAction::SendNegotiation { hop: 0 }),
            ),
            (TakerState::NegotiatingHop { hop }, TakerEvent::NegotiationAccepted) => Some(
                (TakerState::FundingHop { hop }, TakerAction::BroadcastFunding { hop }),
            ),
            (TakerState::NegotiatingHop { hop }, TakerEvent::NegotiationInvalid) => Some(
                (TakerState::Aborting { hop }, TakerAction::RecoverFunds),
            ),
            (TakerState::NegotiatingHop { hop }, TakerEvent::PeerUnresponsive) => Some(
                (TakerState::Aborting { hop }, TakerAction::RecoverFunds),
            ),
            (TakerState::FundingHop { hop }, TakerEvent::FundingBroadcastOk) => Some(
                (TakerState::AwaitingConfirmation { hop }, TakerAction::AwaitConfirmation { hop }),
            ),
            (TakerState::FundingHop { hop }, TakerEvent::FundingBroadcastFailed) => Some(
                (TakerState::Aborting { hop }, TakerAction::RecoverFunds),
            ),
            (TakerState::AwaitingConfirmation { hop }, TakerEvent::FundingConfirmed) => {
                if hop + 1 < self.num_hops {
                    Some(
                        (
                            TakerState::NegotiatingHop { hop: hop + 1 },
                            TakerAction::SendNegotiation { hop: hop + 1 },
                        ),
                    )
                } else {
                    Some((TakerState::RevealingPreimage, TakerAction::RevealPreimage))
                }
            },
            (TakerState::AwaitingConfirmation { hop }, TakerEvent::PeerUnresponsive) => Some(
                (TakerState::Aborting { hop }, TakerAction::RecoverFunds),
            ),
            (TakerState::RevealingPreimage, TakerEvent::PreimageAccepted) => Some(
                (TakerState::ExchangingKeys, TakerAction::ExchangePrivateKeys),
            ),
            (TakerState::RevealingPreimage, TakerEvent::PeerUnresponsive) => Some(
                (TakerState::Aborting { hop: self.num_hops - 1 }, TakerAction::RecoverFunds),
            ),
            (TakerState::ExchangingKeys, TakerEvent::KeysExchanged) => Some(
                (TakerState::Completed, TakerAction::ReportOutcome),
            ),
            (TakerState::ExchangingKeys, TakerEvent::PeerUnresponsive) => Some(
                (TakerState::Aborting { hop: self.num_hops - 1 }, TakerAction::RecoverFunds),
            ),
            (TakerState::Aborting { .. }, TakerEvent::RecoveryDone) => Some(
                (TakerState::Recovering, TakerAction::RecoverFunds),
            ),
            (TakerState::Recovering, TakerEvent::RecoveryDone) => Some(
                (TakerState::Aborted, TakerAction::ReportOutcome),
            ),
            _ => Option::None,
        };
        match next {
            Some((state, action)) => {
                if matches!(state, TakerState::Aborting { .. }) {
                    self.abort_reason = match event {
                        TakerEvent::NegotiationInvalid => Some(SwapError::ProtocolViolation),
                        TakerEvent::PeerUnresponsive => Some(SwapError::NetworkError),
                        TakerEvent::FundingBroadcastFailed => Some(SwapError::BroadcastFailure),
                        _ => Option::None,
                    };
                }
                self.state = state;
                Ok(action)
            },
            None => Err(SwapError::ProtocolViolation),
        }
    }

    /// The terminal outcome of the session, once there is one: success out
    /// of `Completed`, and the recorded abort reason out of `Aborted`. A
    /// session still in flight has no outcome yet.
    pub fn outcome(&self) -> (r: Option<SwapResult>)
        ensures
            r == (match self.state {
                TakerState::Completed => Some(SwapResult::Success),
                TakerState::Aborted => Some(
                    SwapResult::Aborted {
                        reason: match self.abort_reason {
                            Some(e) => e,
                            Option::None => SwapError::NetworkError,
                        },
                    },
                ),
                _ => Option::None,
            }),
    {
        match self.state {
            TakerState::Completed => Some(SwapResult::Success),
            TakerState::Aborted => {
                let reason = match self.abort_reason {
                    Some(e) => e,
                    None => SwapError::NetworkError,
                };
                Some(SwapResult::Aborted { reason })
            },
            _ => None,
        }
    }
}

/// Law: hop commitment is strictly sequential — the only way the session
/// can come to negotiate a later hop is through the confirmed funding of
/// the hop immediately before it.
pub proof fn lemma_sequential_commitment(m: Taker, ev: TakerEvent, hop: usize)
    requires
        spec_taker_step(m, ev) matches Some(step) && step.0 == (TakerState::NegotiatingHop {
            hop,
        }) && hop > 0,
    ensures
        m.state == (TakerState::AwaitingConfirmation { hop: (hop - 1) as usize }),
        ev == TakerEvent::FundingConfirmed,
{
}

/// Law: both terminal states accept no further event, and an abort can only
/// end in `Aborted`, never in `Completed`.
pub proof fn lemma_terminal_states(m: Taker, ev: TakerEvent)
    ensures
        m.state == TakerState::Completed || m.state == TakerState::Aborted ==> spec_taker_step(
            m,
            ev,
        ) is None,
        (m.state matches TakerState::Aborting { .. }) ==> (spec_taker_step(m, ev) matches Some(
            step,
        ) ==> step.0 == TakerState::Recovering),
{
}

} // verus!
