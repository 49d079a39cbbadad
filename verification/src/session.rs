//! Swap session: the ordered hop chain, the shared hash commitment, the
//! strictly decreasing fee schedule and the strictly increasing (toward the
//! Taker) lock-time schedule.

use vstd::prelude::*;

use crate::contract;
use crate::error::SwapError;

verus! {

/// One Taker-Maker (or Maker-Maker) leg of the chain, as negotiated.
#[derive(Clone, Debug, PartialEq, Eq)]
pub struct Hop {
    /// The maker's compressed public key for this leg's contract.
    pub maker_pubkey: Vec<u8>,
    /// The fee this maker charges, in satoshis.
    pub fee: u64,
    /// The amount locked at this hop, in satoshis.
    pub amount: u64,
    /// The relative lock-time of this hop's refund branch, in confirmations.
    pub locktime: u16,
}

/// A maker's quote, the raw material a hop is negotiated from.
#[derive(Clone, Debug, PartialEq, Eq)]
pub struct MakerOffer {
    /// The maker's compressed public key.
    pub maker_pubkey: Vec<u8>,
    /// The fee the maker quotes, in satoshis.
    pub fee: u64,
    /// The relative lock-time the maker accepts for this leg.
    pub locktime: u16,
}

/// An ordered multi-hop swap session. Hop 0 is adjacent to the Taker; one
/// hash commitment is shared by every hop.
#[derive(Clone, Debug, PartialEq, Eq)]
pub struct SwapSession {
    /// The SHA-256 hash commitment shared by all hops, 32 bytes.
    pub hash_value: Vec<u8>,
    /// The hops, hop 0 first.
    pub hops: Vec<Hop>,
    /// The amount the Taker locks at hop 0, in satoshis.
    pub base_amount: u64,
}

/// The sum of the first `i` fees of the schedule.
pub open spec fn spec_fee_prefix_sum(fees: Seq<u64>, i: int) -> int
    decreases i,
{
    if i <= 0 {
        0
    } else {
        spec_fee_prefix_sum(fees, i - 1) + fees[i - 1]
    }
}

/// Lock-times strictly increase moving from the last hop back to hop 0,
/// i.e. strictly decrease in hop order.
pub open spec fn spec_locktimes_ordered(locktimes: Seq<u16>) -> bool {
    forall|i: int| 0 <= i < locktimes.len() - 1 ==> #[trigger] locktimes[i] > locktimes[i + 1]
}

/// Fee prefix sums grow with the prefix.
proof fn lemma_fee_prefix_sum_monotonic(fees: Seq<u64>, i: int, j: int)
    requires
        0 <= i <= j,
    ensures
        spec_fee_prefix_sum(fees, i) <= spec_fee_prefix_sum(fees, j),
    decreases j - i,
{
    if i < j {
        lemma_fee_prefix_sum_monotonic(fees, i, j - 1);
    }
}

/// Computes the per-hop amounts of a session funded with `base_amount`
/// under the fee schedule `fees`.
///
/// The amount at hop `i` is `base_amount` minus the fees of all earlier
/// hops. Succeeds exactly when even the final settled amount (after every
/// fee) is non-negative; otherwise no amount vector is produced and the
/// session must not fund anything.
pub fn hop_amounts(base_amount: u64, fees: &Vec<u64>) -> (r: Result<Vec<u64>, SwapError>)
    ensures
        r is Ok <==> spec_fee_prefix_sum(fees@, fees@.len() as int) <= base_amount,
        r matches Ok(v) ==> v@.len() == fees@.len() && forall|i: int|
            0 <= i < v@.len() ==> v@[i] == base_amount - spec_fee_prefix_sum(fees@, i),
        r matches Err(e) ==> e == SwapError::InsufficientFunds,
{
    let n = fees.len();
    let mut amounts: Vec<u64> = Vec::new();
    let mut remaining: u64 = base_amount;
    let mut i: usize = 0;
    while i < n
        invariant
            n == fees@.len(),
            0 <= i <= n,
            amounts@.len() == i,
            remaining == base_amount - spec_fee_prefix_sum(fees@, i as int),
            spec_fee_prefix_sum(fees@, i as int) <= base_amount,
            forall|k: int|
                0 <= k < i ==> amounts@[k] == base_amount - spec_fee_prefix_sum(fees@, k),
        decreases n - i,
    {
        amounts.push(remaining);
        let fee = fees[i];
        if fee > remaining {
            proof {
                lemma_fee_prefix_sum_monotonic(fees@, i + 1, fees@.len() as int);
            }
            return Err(SwapError::InsufficientFunds);
        }
        remaining = remaining - fee;
        i += 1;
    }
    Ok(amounts)
}

/// Returns whether a lock-time schedule is strictly decreasing in hop order.
pub fn validate_locktimes(locktimes: &Vec<u16>) -> (r: bool)
    ensures
        r == spec_locktimes_ordered(locktimes@),
{
    let n = locktimes.len();
    if n == 0 {
        return true;
    }
    let mut i: usize = 0;
    while i < n - 1
        invariant
            1 <= n == locktimes@.len(),
            0 <= i <= n,
            forall|k: int| 0 <= k < i ==> #[trigger] locktimes@[k] > locktimes@[k + 1],
        decreases n - i,
    {
        if locktimes[i] <= locktimes[i + 1] {
            return false;
        }
        i += 1;
    }
    true
}

/// Every offer's pubkey is a well-formed compressed encoding.
pub open spec fn spec_offers_keys_valid(offers: Seq<MakerOffer>) -> bool {
    forall|i: int| 0 <= i < offers.len() ==> contract::spec_valid_pubkey(offers[i].maker_pubkey@)
}

/// The lock-time schedule quoted by a sequence of offers.
pub open spec fn spec_offer_locktimes(offers: Seq<MakerOffer>) -> Seq<u16> {
    offers.map_values(|o: MakerOffer| o.locktime)
}

/// The fee schedule quoted by a sequence of offers.
pub open spec fn spec_offer_fees(offers: Seq<MakerOffer>) -> Seq<u64> {
    offers.map_values(|o: MakerOffer| o.fee)
}

/// A well-formed session: a 32-byte hash commitment, at least one hop,
/// valid maker keys, strictly ordered lock-times, and the exact fee
/// schedule of amounts.
pub open spec fn spec_session_wf(s: SwapSession) -> bool {
    &&& s.hash_value@.len() == 32
    &&& s.hops@.len() >= 1
    &&& forall|i: int|
        0 <= i < s.hops@.len() ==> contract::spec_valid_pubkey(s.hops@[i].maker_pubkey@)
    &&& spec_locktimes_ordered(s.hops@.map_values(|h: Hop| h.locktime))
    &&& forall|i: int|
        0 <= i < s.hops@.len() ==> s.hops@[i].amount == s.base_amount - spec_fee_prefix_sum(
            s.hops@.map_values(|h: Hop| h.fee),
            i,
        )
}

/// Builds and validates a swap session from the makers' offers, before any
/// coin is locked or any transaction broadcast.
///
/// Rejects with `ProtocolViolation` a hash commitment that is not 32 bytes,
/// an empty chain, a malformed maker key, or a lock-time schedule that is
/// not strictly increasing toward hop 0; rejects with `InsufficientFunds` a
/// fee schedule that would drive any hop amount (or the settled amount)
/// negative. On success every hop carries the shared hash schedule amount.
pub fn new_session(base_amount: u64, hash_value: Vec<u8>, offers: Vec<MakerOffer>) -> (r: Result<
    SwapSession,
    SwapError,
>)
    ensures
        r is Ok <==> hash_value@.len() == 32 && offers@.len() >= 1 && spec_offers_keys_valid(
            offers@,
        ) && spec_locktimes_ordered(spec_offer_locktimes(offers@)) && spec_fee_prefix_sum(
            spec_offer_fees(offers@),
            offers@.len() as int,
        ) <= base_amount,
        r matches Ok(s) ==> {
            &&& spec_session_wf(s)
            &&& s.hash_value@ == hash_value@
            &&& s.base_amount == base_amount
            &&& s.hops@.len() == offers@.len()
            &&& forall|i: int|
                0 <= i < offers@.len() ==> s.hops@[i].maker_pubkey@ == offers@[i].maker_pubkey@
                    && s.hops@[i].fee == offers@[i].fee && s.hops@[i].locktime
                    == offers@[i].locktime
        },
        r matches Err(e) ==> e == (if hash_value@.len() == 32 && offers@.len() >= 1
            && spec_offers_keys_valid(offers@) && spec_locktimes_ordered(
            spec_offer_locktimes(offers@),
        ) {
            SwapError::InsufficientFunds
        } else {
            SwapError::ProtocolViolation
        }),
{
    if hash_value.len() != 32 || offers.len() == 0 {
        return Err(SwapError::ProtocolViolation);
    }
    let n = offers.len();
    let mut locktimes: Vec<u16> = Vec::new();
    let mut fees: Vec<u64> = Vec::new();
    let mut i: usize = 0;
    while i < n
        invariant
            n == offers@.len(),
            0 <= i <= n,
            locktimes@ =~= spec_offer_locktimes(offers@).subrange(0, i as int),
            fees@ =~= spec_offer_fees(offers@).subrange(0, i as int),
            forall|k: int| 0 <= k < i ==> contract::spec_valid_pubkey(offers@[k].maker_pubkey@),
        decreases n - i,
    {
        if !contract::is_valid_pubkey(&offers[i].maker_pubkey) {
            return Err(SwapError::ProtocolViolation);
        }
        let lt = offers[i].locktime;
        let fee = offers[i].fee;
        locktimes.push(lt);
        fees.push(fee);
        assert(locktimes@ =~= spec_offer_locktimes(offers@).subrange(0, i + 1));
        assert(fees@ =~= spec_offer_fees(offers@).subrange(0, i + 1));
        i += 1;
    }
    assert(locktimes@ =~= spec_offer_locktimes(offers@));
    assert(fees@ =~= spec_offer_fees(offers@));
    if !validate_locktimes(&locktimes) {
        return Err(SwapError::ProtocolViolation);
    }
    let amounts = match hop_amounts(base_amount, &fees) {
        Ok(a) => a,
        Err(e) => {
            return Err(e);
        },
    };
    let mut hops: Vec<Hop> = Vec::new();
    let mut j: usize = 0;
    while j < n
        invariant
            n == offers@.len() == amounts@.len() == fees@.len() == locktimes@.len(),
            0 <= j <= n,
            hops@.len() == j,
            fees@ == spec_offer_fees(offers@),
            forall|k: int|
                0 <= k < n ==> amounts@[k] == base_amount - spec_fee_prefix_sum(fees@, k),
            forall|k: int|
                0 <= k < j ==> (#[trigger] hops@[k]).maker_pubkey@ == offers@[k].maker_pubkey@
                    && hops@[k].fee == offers@[k].fee && hops@[k].locktime == offers@[k].locktime
                    && hops@[k].amount == amounts@[k],
        decreases n - j,
    {
        let offer = &offers[j];
        let pk_copy = copy_bytes(&offer.maker_pubkey);
        let ghost prev = hops@;
        hops.push(
            Hop { maker_pubkey: pk_copy, fee: offer.fee, amount: amounts[j], locktime: offer.locktime },
        );
        proof {
            assert forall|k: int|
                0 <= k < j + 1 implies (#[trigger] hops@[k]).maker_pubkey@
                == offers@[k].maker_pubkey@ && hops@[k].fee == offers@[k].fee
                && hops@[k].locktime == offers@[k].locktime && hops@[k].amount
                == amounts@[k] by {
                if k < j {
                    assert(hops@[k] == prev[k]);
                    assert(prev[k].maker_pubkey@ == offers@[k].maker_pubkey@ && prev[k].fee
                        == offers@[k].fee && prev[k].locktime == offers@[k].locktime
                        && prev[k].amount == amounts@[k]);
                }
            }
        }
        j += 1;
    }
    let session = SwapSession { hash_value, hops, base_amount };
    proof {
        let lts = session.hops@.map_values(|h: Hop| h.locktime);
        assert forall|k: int| 0 <= k < n implies lts[k] == spec_offer_locktimes(offers@)[k] by {
            assert(lts[k] == session.hops@[k].locktime);
        }
        assert(lts =~= spec_offer_locktimes(offers@));
        let fs = session.hops@.map_values(|h: Hop| h.fee);
        assert forall|k: int| 0 <= k < n implies fs[k] == spec_offer_fees(offers@)[k] by {
            assert(fs[k] == session.hops@[k].fee);
        }
        assert(fs =~= spec_offer_fees(offers@));
    }
    Ok(session)
}

/// Byte-for-byte copy of a vector.
pub fn copy_bytes(src: &Vec<u8>) -> (r: Vec<u8>)
    ensures
        r@ == src@,
{
    let n = src.len();
    let mut out: Vec<u8> = Vec::new();
    let mut i: usize = 0;
    while i < n
        invariant
            n == src@.len(),
            0 <= i <= n,
            out@ =~= src@.subrange(0, i as int),
        decreases n - i,
    {
        let b = src[i];
        out.push(b);
        assert(out@ =~= src@.subrange(0, i + 1));
        i += 1;
    }
    assert(out@ =~= src@);
    out
}

/// The redeem script of hop `i` of a session, with the Taker side as the
/// timelock owner of hop 0 and each maker the hashlock claimant of its
/// incoming leg.
pub fn hop_redeem_script(session: &SwapSession, i: usize, timelock_pk: &Vec<u8>) -> (r: Result<
    Vec<u8>,
    SwapError,
>)
    requires
        i < session.hops@.len(),
    ensures
        r is Ok <==> contract::spec_valid_pubkey(session.hops@[i as int].maker_pubkey@)
            && contract::spec_valid_pubkey(timelock_pk@) && session.hash_value@.len() == 32,
        r matches Ok(s) ==> s@ == contract::spec_redeem_script(
            session.hops@[i as int].maker_pubkey@,
            timelock_pk@,
            session.hash_value@,
            session.hops@[i as int].locktime,
        ),
{
    contract::build_redeem_script(
        &session.hops[i].maker_pubkey,
        timelock_pk,
        &session.hash_value,
        session.hops[i].locktime,
    )
}

/// Law: the hash commitment is identical across every hop of a well-formed
/// session — the redeem script of each hop embeds, at its fixed offset, the
/// one hash value fixed at session start.
pub proof fn lemma_session_hash_uniform(s: SwapSession, timelock_pk: Seq<u8>, i: int)
    requires
        spec_session_wf(s),
        0 <= i < s.hops@.len(),
    ensures
        contract::spec_redeem_script(
            s.hops@[i].maker_pubkey@,
            timelock_pk,
            s.hash_value@,
            s.hops@[i].locktime,
        ).subrange(3, 35) == s.hash_value@,
{
    contract::lemma_script_embeds_hash(
        s.hops@[i].maker_pubkey@,
        timelock_pk,
        s.hash_value@,
        s.hops@[i].locktime,
    );
}

/// Law: in a well-formed session the amount at hop `i` is the base amount
/// minus the fees of all earlier hops, and is never negative; and lock-times
/// strictly increase moving from the last hop back to hop 0.
pub proof fn lemma_session_schedules(s: SwapSession, i: int)
    requires
        spec_session_wf(s),
        0 <= i < s.hops@.len(),
    ensures
        s.hops@[i].amount == s.base_amount - spec_fee_prefix_sum(
            s.hops@.map_values(|h: Hop| h.fee),
            i,
        ),
        spec_fee_prefix_sum(s.hops@.map_values(|h: Hop| h.fee), i) <= s.base_amount,
        i + 1 < s.hops@.len() ==> s.hops@[i].locktime > s.hops@[i + 1].locktime,
{
    assert(s.hops@.map_values(|h: Hop| h.locktime)[i] == s.hops@[i].locktime);
    if i + 1 < s.hops@.len() {
        assert(s.hops@.map_values(|h: Hop| h.locktime)[i + 1] == s.hops@[i + 1].locktime);
    }
}

} // verus!
