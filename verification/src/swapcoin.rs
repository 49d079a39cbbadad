//! The per-leg swap-coin lifecycle: one tagged value for the incoming and
//! outgoing variants, stepped by confirmed on-chain and peer events through
//! a one-directional state machine.

use vstd::prelude::*;

use crate::contract;
use crate::crypto;
use crate::error::SwapError;

verus! {

/// Lifecycle phase of one swap coin. Transitions are one-directional; no
/// phase is ever revisited.
#[derive(Clone, Copy, Debug, PartialEq, Eq, Structural)]
pub enum CoinPhase {
    Created,
    Funded,
    ContractBroadcastConfirmed,
    PreimageRevealed,
    PrivateKeyReceived,
    TimelockMatured,
    Refunded,
}

/// Which side of the leg this coin is seen from.
#[derive(Clone, Copy, Debug, PartialEq, Eq, Structural)]
pub enum CoinSide {
    /// We are the hashlock claimant of this leg.
    Incoming,
    /// We funded this leg and own its timelock refund branch.
    Outgoing,
}

/// One leg of one hop, with everything needed to spend either branch.
#[derive(Clone, Debug, PartialEq, Eq)]
#[verifier::ext_equal]
pub struct SwapCoin {
    /// Incoming or outgoing variant; both share the same capability set.
    pub side: CoinSide,
    /// Our compressed public key in this leg's contract.
    pub my_pubkey: Vec<u8>,
    /// The counterparty's compressed public key.
    pub other_pubkey: Vec<u8>,
    /// Our private key, always known.
    pub my_privkey: Vec<u8>,
    /// The counterparty's private key, unknown until handed over.
    pub other_privkey: Option<Vec<u8>>,
    /// The agreed contract redeem script.
    pub contract_redeemscript: Vec<u8>,
    /// The agreed funding amount, in satoshis.
    pub funding_amount: u64,
    /// The shared 32-byte hash commitment.
    pub hash_value: Vec<u8>,
    /// The preimage, once revealed and checked.
    pub preimage: Option<Vec<u8>>,
    /// The relative lock-time of the refund branch, in confirmations.
    pub locktime: u16,
    /// Height at which the funding transaction confirmed, once it has.
    pub funding_height: Option<u32>,
    /// Current lifecycle phase.
    pub phase: CoinPhase,
}

/// A confirmed on-chain or peer event delivered to one coin.
pub enum CoinEvent {
    /// The funding transaction confirmed, paying `amount` to
    /// `locking_script` at `height`.
    FundingConfirmed { amount: u64, locking_script: Vec<u8>, height: u32 },
    /// The contract transaction confirmed.
    ContractConfirmed,
    /// The counterparty revealed a claimed preimage.
    PreimageReceived { preimage: Vec<u8> },
    /// The counterparty handed over its private key.
    PrivkeyHandover { privkey: Vec<u8> },
    /// The chain reached `height` with no preimage seen.
    HeightReached { height: u32 },
    /// Our refund transaction confirmed.
    RefundConfirmed,
}

/// The relative lock-time has elapsed: the chain is at least `locktime`
/// confirmations past the funding height.
pub open spec fn spec_timelock_matured(c: SwapCoin, height: u32) -> bool {
    c.funding_height matches Some(h) && h + c.locktime <= height
}

/// The guard of the transition table: whether `c` in its current phase
/// accepts `ev`.
pub open spec fn spec_coin_accepts(c: SwapCoin, ev: CoinEvent) -> bool {
    match (c.phase, ev) {
        (CoinPhase::Created, CoinEvent::FundingConfirmed { amount, locking_script, .. }) => {
            amount == c.funding_amount && locking_script@ == contract::spec_funding_script(
                c.contract_redeemscript@,
            )
        },
        (CoinPhase::Funded, CoinEvent::ContractConfirmed) => true,
        (CoinPhase::ContractBroadcastConfirmed, CoinEvent::PreimageReceived { preimage }) => {
            crypto::spec_sha256(preimage@) == c.hash_value@
        },
        (CoinPhase::PreimageRevealed, CoinEvent::PrivkeyHandover { privkey }) => {
            privkey@.len() == 32 && crypto::spec_valid_seckey(privkey@) && crypto::spec_pubkey_of(
                privkey@,
            ) == c.other_pubkey@
        },
        (CoinPhase::ContractBroadcastConfirmed, CoinEvent::HeightReached { height }) => {
            spec_timelock_matured(c, height)
        },
        (CoinPhase::TimelockMatured, CoinEvent::RefundConfirmed) => true,
        _ => false,
    }
}

/// The successor coin when the guard holds.
pub open spec fn spec_coin_apply(c: SwapCoin, ev: CoinEvent) -> SwapCoin {
    match ev {
        CoinEvent::FundingConfirmed { height, .. } => SwapCoin {
            phase: CoinPhase::Funded,
            funding_height: Some(height),
            ..c
        },
        CoinEvent::ContractConfirmed => SwapCoin {
            phase: CoinPhase::ContractBroadcastConfirmed,
            ..c
        },
        CoinEvent::PreimageReceived { preimage } => SwapCoin {
            phase: CoinPhase::PreimageRevealed,
            preimage: Some(preimage),
            ..c
        },
        CoinEvent::PrivkeyHandover { privkey } => SwapCoin {
            phase: CoinPhase::PrivateKeyReceived,
            other_privkey: Some(privkey),
            ..c
        },
        CoinEvent::HeightReached { .. } => SwapCoin { phase: CoinPhase::TimelockMatured, ..c },
        CoinEvent::RefundConfirmed => SwapCoin { phase: CoinPhase::Refunded, ..c },
    }
}

/// The error reported when the guard fails: a premature refund attempt is a
/// deferral, every other failure is a protocol violation that halts this
/// coin's progress.
pub open spec fn spec_coin_error(c: SwapCoin, ev: CoinEvent) -> SwapError {
    if c.phase is ContractBroadcastConfirmed && ev is HeightReached {
        SwapError::TimelockNotYetMatured
    } else {
        SwapError::ProtocolViolation
    }
}

/// Well-formed contract material: valid compressed keys on both sides, a
/// 32-byte own key and hash commitment.
pub open spec fn spec_coin_material_ok(c: SwapCoin) -> bool {
    &&& contract::spec_valid_pubkey(c.my_pubkey@)
    &&& contract::spec_valid_pubkey(c.other_pubkey@)
    &&& c.my_privkey@.len() == 32
    &&& c.hash_value@.len() == 32
}

/// Builds one leg's coin from the negotiated material, in its initial
/// phase.
///
/// Succeeds exactly when both public keys are well-formed compressed
/// encodings, the private key is 32 bytes and the hash commitment is 32
/// bytes; malformed material from a peer is a protocol violation before
/// anything is funded.
pub fn new_swap_coin(
    side: CoinSide,
    my_pubkey: Vec<u8>,
    other_pubkey: Vec<u8>,
    my_privkey: Vec<u8>,
    contract_redeemscript: Vec<u8>,
    funding_amount: u64,
    hash_value: Vec<u8>,
    locktime: u16,
) -> (r: Result<SwapCoin, SwapError>)
    ensures
        r is Ok <==> contract::spec_valid_pubkey(my_pubkey@) && contract::spec_valid_pubkey(
            other_pubkey@,
        ) && my_privkey@.len() == 32 && hash_value@.len() == 32,
        r matches Ok(c) ==> {
            &&& spec_coin_material_ok(c)
            &&& c.side == side
            &&& c.my_pubkey@ == my_pubkey@
            &&& c.other_pubkey@ == other_pubkey@
            &&& c.my_privkey@ == my_privkey@
            &&& c.other_privkey is None
            &&& c.contract_redeemscript@ == contract_redeemscript@
            &&& c.funding_amount == funding_amount
            &&& c.hash_value@ == hash_value@
            &&& c.preimage is None
            &&& c.locktime == locktime
            &&& c.funding_height is None
            &&& c.phase == CoinPhase::Created
        },
        r matches Err(e) ==> e == SwapError::ProtocolViolation,
{
    if !contract::is_valid_pubkey(&my_pubkey) || !contract::is_valid_pubkey(&other_pubkey)
        || my_privkey.len() != 32 || hash_value.len() != 32 {
        return Err(SwapError::ProtocolViolation);
    }
    Ok(
        SwapCoin {
            side,
            my_pubkey,
            other_pubkey,
            my_privkey,
            other_privkey: None,
            contract_redeemscript,
            funding_amount,
            hash_value,
            preimage: None,
            locktime,
            funding_height: None,
            phase: CoinPhase::Created,
        },
    )
}

impl SwapCoin {
    /// Steps the coin by one confirmed event.
    ///
    /// Exactly the transitions of the lifecycle table are accepted, each
    /// under its guard: a funding confirmation must pay the agreed amount to
    /// the contract's own locking script, a preimage must hash to the agreed
    /// commitment, a handed-over key must derive the counterparty's public
    /// key, and a refund needs the matured relative lock-time. A rejected
    /// event leaves the coin unchanged.
    pub fn step(&mut self, event: CoinEvent) -> (r: Result<(), SwapError>)
        ensures
            r is Ok <==> spec_coin_accepts(*old(self), event),
            r is Ok ==> *final(self) == spec_coin_apply(*old(self), event),
            r is Err ==> *final(self) == *old(self),
            r matches Err(e) ==> e == spec_coin_error(*old(self), event),
    {
        match event {
            CoinEvent::FundingConfirmed { amount, locking_script, height } => {
                if !matches!(self.phase, CoinPhase::Created) {
                    return Err(SwapError::ProtocolViolation);
                }
                let expected = contract::funding_script_hash(&self.contract_redeemscript);
                if amount != self.funding_amount || !crypto::bytes_eq(&locking_script, &expected) {
                    return Err(SwapError::ProtocolViolation);
                }
                self.phase = CoinPhase::Funded;
                self.funding_height = Some(height);
                Ok(())
            },
            CoinEvent::ContractConfirmed => {
                if !matches!(self.phase, CoinPhase::Funded) {
                    return Err(SwapError::ProtocolViolation);
                }
                self.phase = CoinPhase::ContractBroadcastConfirmed;
                Ok(())
            },
            CoinEvent::PreimageReceived { preimage } => {
                if !matches!(self.phase, CoinPhase::ContractBroadcastConfirmed) {
                    return Err(SwapError::ProtocolViolation);
                }
                if !crypto::check_preimage(&preimage, &self.hash_value) {
                    return Err(SwapError::ProtocolViolation);
                }
                self.phase = CoinPhase::PreimageRevealed;
                self.preimage = Some(preimage);
                Ok(())
            },
            CoinEvent::PrivkeyHandover { privkey } => {
                if !matches!(self.phase, CoinPhase::PreimageRevealed) {
                    return Err(SwapError::ProtocolViolation);
                }
                if privkey.len() != 32 {
                    return Err(SwapError::ProtocolViolation);
                }
                let derived = crypto::derive_pubkey(&privkey);
                let matches_other = match &derived {
                    Some(pk) => crypto::bytes_eq(pk, &self.other_pubkey),
                    None => false,
                };
                if !matches_other {
                    return Err(SwapError::ProtocolViolation);
                }
                self.phase = CoinPhase::PrivateKeyReceived;
                self.other_privkey = Some(privkey);
                Ok(())
            },
            CoinEvent::HeightReached { height } => {
                if !matches!(self.phase, CoinPhase::ContractBroadcastConfirmed) {
                    return Err(SwapError::ProtocolViolation);
                }
                if !self.is_timelock_matured(height) {
                    return Err(SwapError::TimelockNotYetMatured);
                }
                self.phase = CoinPhase::TimelockMatured;
                Ok(())
            },
            CoinEvent::RefundConfirmed => {
                if !matches!(self.phase, CoinPhase::TimelockMatured) {
                    return Err(SwapError::ProtocolViolation);
                }
                self.phase = CoinPhase::Refunded;
                Ok(())
            },
        }
    }

    /// Whether the refund branch is spendable at `height`.
    pub fn is_timelock_matured(&self, height: u32) -> (r: bool)
        ensures
            r == spec_timelock_matured(*self, height),
    {
        match self.funding_height {
            Some(h) => (h as u64) + (self.locktime as u64) <= (height as u64),
            None => false,
        }
    }

    /// The witness script that spends this coin's contract output.
    pub fn spending_script(&self) -> (r: Vec<u8>)
        ensures
            r@ == self.contract_redeemscript@,
    {
        crate::session::copy_bytes(&self.contract_redeemscript)
    }

    /// Signs a contract transaction with this coin's own key.
    pub fn sign(&self, tx: &contract::ContractTransaction) -> (r: Result<Vec<u8>, SwapError>)
        ensures
            r is Ok <==> self.my_privkey@.len() == 32 && crypto::spec_valid_seckey(
                self.my_privkey@,
            ),
            r matches Ok(sig) ==> sig@ == crypto::spec_ecdsa_sig(
                contract::spec_sighash(*tx),
                self.my_privkey@,
            ),
            r matches Err(e) ==> e == SwapError::WalletError,
    {
        contract::sign_contract_tx(tx, &self.my_privkey)
    }

    /// Verifies the counterparty's signature over a contract transaction.
    pub fn verify(&self, tx: &contract::ContractTransaction, sig: &Vec<u8>) -> (r: bool)
        ensures
            r == crypto::spec_ecdsa_verifies(
                contract::spec_sighash(*tx),
                self.other_pubkey@,
                sig@,
            ),
    {
        contract::verify_contract_sig(tx, &self.other_pubkey, sig)
    }
}

/// Position of a phase along the lifecycle; both terminal phases sit at the
/// same depth of their branch.
pub open spec fn spec_phase_rank(p: CoinPhase) -> int {
    match p {
        CoinPhase::Created => 0,
        CoinPhase::Funded => 1,
        CoinPhase::ContractBroadcastConfirmed => 2,
        CoinPhase::PreimageRevealed => 3,
        CoinPhase::TimelockMatured => 3,
        CoinPhase::PrivateKeyReceived => 4,
        CoinPhase::Refunded => 4,
    }
}

/// A terminal phase: completed success or completed recovery.
pub open spec fn spec_phase_terminal(p: CoinPhase) -> bool {
    p is PrivateKeyReceived || p is Refunded
}

/// Law: the lifecycle is one-directional and never revisits a phase — every
/// accepted event strictly advances the phase rank — and a terminal coin
/// accepts no further event.
pub proof fn lemma_lifecycle_one_directional(c: SwapCoin, ev: CoinEvent)
    ensures
        spec_coin_accepts(c, ev) ==> spec_phase_rank(spec_coin_apply(c, ev).phase)
            == spec_phase_rank(c.phase) + 1,
        spec_phase_terminal(c.phase) ==> !spec_coin_accepts(c, ev),
{
}

} // verus!
