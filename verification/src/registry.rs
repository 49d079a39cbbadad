//! Coin registry: classifies every wallet-owned UTXO into its spend-info
//! tag, selects coins largest-first to fund a hop, and locks selected coins
//! until the owning hop confirms or aborts.

use vstd::prelude::*;

use crate::contract;
use crate::crypto;
use crate::error::SwapError;
use crate::session;

verus! {

/// A wallet-owned unspent output.
#[derive(Clone, Debug)]
#[verifier::ext_equal]
pub struct Utxo {
    /// Identity of the output.
    pub outpoint: contract::FundingOutPoint,
    /// Value in satoshis.
    pub value: u64,
    /// The locking script the output carries.
    pub locking_script: Vec<u8>,
}

/// What the wallet knows about a locking script it has generated.
#[derive(Clone, Debug, PartialEq, Eq)]
#[verifier::ext_equal]
pub enum ScriptKind {
    /// A seed-derived key, by derivation index.
    Seed { path: u32 },
    /// A swap multisig, by its redeem script.
    SwapMultisig { redeemscript: Vec<u8> },
    /// A timelock contract output, by its redeem script.
    TimelockContract { redeemscript: Vec<u8> },
    /// A hashlock contract output, by its redeem script.
    HashlockContract { redeemscript: Vec<u8> },
    /// A fidelity bond, by bond index.
    FidelityBond { index: u32 },
}

/// One script the wallet has generated, with what it knows about it.
#[derive(Clone, Debug)]
#[verifier::ext_equal]
pub struct KnownScript {
    /// The locking script as it appears on-chain.
    pub locking_script: Vec<u8>,
    /// The spend knowledge attached to it.
    pub kind: ScriptKind,
}

/// The extra data needed to spend a UTXO, beyond the raw output record.
/// Exactly one tag applies per UTXO; an unmatched output is reported, not
/// dropped.
#[derive(Clone, Debug, PartialEq, Eq)]
#[verifier::ext_equal]
pub enum SpendInfo {
    SeedCoin { path: u32, input_value: u64 },
    SwapCoin { multisig_redeemscript: Vec<u8> },
    TimelockContract { redeemscript: Vec<u8>, input_value: u64 },
    HashlockContract { redeemscript: Vec<u8>, input_value: u64 },
    FidelityBondCoin { index: u32, input_value: u64 },
    UnknownOutput,
}

/// The registry of scripts the wallet has generated, and of coins currently
/// locked by in-flight sessions.
pub struct CoinRegistry {
    /// Every script the wallet can recognize, with its spend knowledge.
    pub scripts: Vec<KnownScript>,
    /// Outpoints selected by a session and not yet released.
    pub locked: Vec<contract::FundingOutPoint>,
}

/// The tag a known script assigns to an output of a given value.
pub open spec fn spec_tag_of(kind: ScriptKind, value: u64) -> SpendInfo {
    match kind {
        ScriptKind::Seed { path } => SpendInfo::SeedCoin { path, input_value: value },
        ScriptKind::SwapMultisig { redeemscript } => SpendInfo::SwapCoin {
            multisig_redeemscript: redeemscript,
        },
        ScriptKind::TimelockContract { redeemscript } => SpendInfo::TimelockContract {
            redeemscript,
            input_value: value,
        },
        ScriptKind::HashlockContract { redeemscript } => SpendInfo::HashlockContract {
            redeemscript,
            input_value: value,
        },
        ScriptKind::FidelityBond { index } => SpendInfo::FidelityBondCoin {
            index,
            input_value: value,
        },
    }
}

/// Two tags carry the same classification: same variant, same values, same
/// script bytes.
pub open spec fn spec_same_tag(a: SpendInfo, b: SpendInfo) -> bool {
    match (a, b) {
        (
            SpendInfo::SeedCoin { path: p1, input_value: v1 },
            SpendInfo::SeedCoin { path: p2, input_value: v2 },
        ) => p1 == p2 && v1 == v2,
        (
            SpendInfo::SwapCoin { multisig_redeemscript: r1 },
            SpendInfo::SwapCoin { multisig_redeemscript: r2 },
        ) => r1@ == r2@,
        (
            SpendInfo::TimelockContract { redeemscript: r1, input_value: v1 },
            SpendInfo::TimelockContract { redeemscript: r2, input_value: v2 },
        ) => r1@ == r2@ && v1 == v2,
        (
            SpendInfo::HashlockContract { redeemscript: r1, input_value: v1 },
            SpendInfo::HashlockContract { redeemscript: r2, input_value: v2 },
        ) => r1@ == r2@ && v1 == v2,
        (
            SpendInfo::FidelityBondCoin { index: i1, input_value: v1 },
            SpendInfo::FidelityBondCoin { index: i2, input_value: v2 },
        ) => i1 == i2 && v1 == v2,
        (SpendInfo::UnknownOutput, SpendInfo::UnknownOutput) => true,
        _ => false,
    }
}

/// First-match classification of a locking script against the known set.
pub open spec fn spec_classify(scripts: Seq<KnownScript>, locking: Seq<u8>, value: u64) -> SpendInfo
    decreases scripts.len(),
{
    if scripts.len() == 0 {
        SpendInfo::UnknownOutput
    } else if scripts[0].locking_script@ == locking {
        spec_tag_of(scripts[0].kind, value)
    } else {
        spec_classify(scripts.drop_first(), locking, value)
    }
}

/// Some known script already uses this locking script.
pub open spec fn spec_has_script(scripts: Seq<KnownScript>, locking: Seq<u8>) -> bool {
    exists|i: int| 0 <= i < scripts.len() && (#[trigger] scripts[i]).locking_script@ == locking
}

/// Distinct known scripts carry distinct locking scripts, so classification
/// is unambiguous.
pub open spec fn spec_registry_wf(reg: CoinRegistry) -> bool {
    forall|i: int, j: int|
        0 <= i < j < reg.scripts@.len() ==> (#[trigger] reg.scripts@[i]).locking_script@ != (
        #[trigger] reg.scripts@[j]).locking_script@
}

/// The outpoint `(txid, vout)` occurs in the list.
pub open spec fn spec_outpoint_in(
    list: Seq<contract::FundingOutPoint>,
    txid: Seq<u8>,
    vout: u32,
) -> bool {
    exists|k: int|
        0 <= k < list.len() && (#[trigger] list[k]).txid@ == txid && list[k].vout == vout
}

/// Classification skips any prefix with no matching script.
proof fn lemma_classify_skip(scripts: Seq<KnownScript>, locking: Seq<u8>, value: u64, i: int)
    requires
        0 <= i <= scripts.len(),
        forall|k: int| 0 <= k < i ==> (#[trigger] scripts[k]).locking_script@ != locking,
    ensures
        spec_classify(scripts, locking, value) == spec_classify(scripts.skip(i), locking, value),
    decreases i,
{
    if i == 0 {
        assert(scripts.skip(0) =~= scripts);
    } else {
        lemma_classify_skip(scripts, locking, value, i - 1);
        assert(scripts.skip(i - 1)[0] == scripts[i - 1]);
        assert(scripts[i - 1].locking_script@ != locking);
        assert(scripts.skip(i - 1).drop_first() =~= scripts.skip(i));
        assert(spec_classify(scripts.skip(i - 1), locking, value) == spec_classify(
            scripts.skip(i),
            locking,
            value,
        ));
    }
}

impl CoinRegistry {
    /// An empty registry: no known scripts, nothing locked.
    pub fn new() -> (r: CoinRegistry)
        ensures
            r.scripts@.len() == 0,
            r.locked@.len() == 0,
            spec_registry_wf(r),
    {
        CoinRegistry { scripts: Vec::new(), locked: Vec::new() }
    }

    /// Records a locking script the wallet has generated.
    ///
    /// Succeeds exactly when the script is not already known, so the
    /// registry keeps classification unambiguous; a duplicate is a wallet
    /// bookkeeping failure and changes nothing.
    pub fn register_script(&mut self, locking_script: Vec<u8>, kind: ScriptKind) -> (r: Result<
        (),
        SwapError,
    >)
        ensures
            r is Ok <==> !spec_has_script(old(self).scripts@, locking_script@),
            r is Ok ==> final(self).scripts@.len() == old(self).scripts@.len() + 1
                && (forall|k: int|
                0 <= k < old(self).scripts@.len() ==> final(self).scripts@[k] == old(
                    self,
                ).scripts@[k]) && final(self).scripts@.last().locking_script@ == locking_script@
                && final(self).scripts@.last().kind == kind,
            r is Err ==> *final(self) == *old(self),
            r matches Err(e) ==> e == SwapError::WalletError,
            final(self).locked@ == old(self).locked@,
            spec_registry_wf(*old(self)) ==> spec_registry_wf(*final(self)),
    {
        let n = self.scripts.len();
        let mut i: usize = 0;
        while i < n
            invariant
                n == self.scripts@.len(),
                0 <= i <= n,
                forall|k: int|
                    0 <= k < i ==> (#[trigger] self.scripts@[k]).locking_script@
                        != locking_script@,
            decreases n - i,
        {
            if crypto::bytes_eq(&self.scripts[i].locking_script, &locking_script) {
                return Err(SwapError::WalletError);
            }
            i += 1;
        }
        self.scripts.push(KnownScript { locking_script, kind });
        Ok(())
    }

    /// Classifies one UTXO against the known scripts: the first match wins,
    /// and an output the wallet cannot recognize is `UnknownOutput`.
    pub fn classify(&self, utxo: &Utxo) -> (r: SpendInfo)
        ensures
            spec_same_tag(r, spec_classify(self.scripts@, utxo.locking_script@, utxo.value)),
    {
        let n = self.scripts.len();
        let mut i: usize = 0;
        while i < n
            invariant
                n == self.scripts@.len(),
                0 <= i <= n,
                forall|k: int|
                    0 <= k < i ==> (#[trigger] self.scripts@[k]).locking_script@
                        != utxo.locking_script@,
            decreases n - i,
        {
            if crypto::bytes_eq(&self.scripts[i].locking_script, &utxo.locking_script) {
                proof {
                    lemma_classify_skip(
                        self.scripts@,
                        utxo.locking_script@,
                        utxo.value,
                        i as int,
                    );
                    assert(self.scripts@.skip(i as int)[0] == self.scripts@[i as int]);
                }
                let tag = match &self.scripts[i].kind {
                    ScriptKind::Seed { path } => SpendInfo::SeedCoin {
                        path: *path,
                        input_value: utxo.value,
                    },
                    ScriptKind::SwapMultisig { redeemscript } => SpendInfo::SwapCoin {
                        multisig_redeemscript: session::copy_bytes(redeemscript),
                    },
                    ScriptKind::TimelockContract { redeemscript } => SpendInfo::TimelockContract {
                        redeemscript: session::copy_bytes(redeemscript),
                        input_value: utxo.value,
                    },
                    ScriptKind::HashlockContract { redeemscript } => SpendInfo::HashlockContract {
                        redeemscript: session::copy_bytes(redeemscript),
                        input_value: utxo.value,
                    },
                    ScriptKind::FidelityBond { index } => SpendInfo::FidelityBondCoin {
                        index: *index,
                        input_value: utxo.value,
                    },
                };
                assert(spec_same_tag(tag, spec_tag_of(self.scripts@[i as int].kind, utxo.value)));
                return tag;
            }
            i += 1;
        }
        proof {
            lemma_classify_skip(self.scripts@, utxo.locking_script@, utxo.value, n as int);
            assert(self.scripts@.skip(n as int) =~= Seq::<KnownScript>::empty());
        }
        SpendInfo::UnknownOutput
    }

    /// Classifies a whole UTXO set, in order.
    pub fn classify_all(&self, utxos: &Vec<Utxo>) -> (r: Vec<SpendInfo>)
        ensures
            r@.len() == utxos@.len(),
            forall|k: int|
                0 <= k < utxos@.len() ==> spec_same_tag(
                    #[trigger] r@[k],
                    spec_classify(self.scripts@, utxos@[k].locking_script@, utxos@[k].value),
                ),
    {
        let n = utxos.len();
        let mut out: Vec<SpendInfo> = Vec::new();
        let mut i: usize = 0;
        while i < n
            invariant
                n == utxos@.len(),
                0 <= i <= n,
                out@.len() == i,
                forall|k: int|
                    0 <= k < i ==> spec_same_tag(
                        #[trigger] out@[k],
                        spec_classify(self.scripts@, utxos@[k].locking_script@, utxos@[k].value),
                    ),
            decreases n - i,
        {
            let tag = self.classify(&utxos[i]);
            out.push(tag);
            i += 1;
        }
        out
    }

    /// Whether an outpoint is currently locked by some session.
    pub fn is_locked(&self, outpoint: &contract::FundingOutPoint) -> (r: bool)
        ensures
            r == spec_outpoint_in(self.locked@, outpoint.txid@, outpoint.vout),
    {
        outpoint_listed(&self.locked, outpoint)
    }
}

/// Scans a list for an outpoint, comparing by transaction id and index.
pub fn outpoint_listed(
    list: &Vec<contract::FundingOutPoint>,
    outpoint: &contract::FundingOutPoint,
) -> (r: bool)
    ensures
        r == spec_outpoint_in(list@, outpoint.txid@, outpoint.vout),
{
    let n = list.len();
    let mut i: usize = 0;
    while i < n
        invariant
            n == list@.len(),
            0 <= i <= n,
            forall|k: int|
                0 <= k < i ==> !((#[trigger] list@[k]).txid@ == outpoint.txid@ && list@[k].vout
                    == outpoint.vout),
        decreases n - i,
    {
        if list[i].vout == outpoint.vout && crypto::bytes_eq(&list[i].txid, &outpoint.txid) {
            return true;
        }
        i += 1;
    }
    false
}

/// Sum of the values of the indexed outputs, in order of the index list.
pub open spec fn spec_sum_values(utxos: Seq<Utxo>, idxs: Seq<usize>) -> int
    decreases idxs.len(),
{
    if idxs.len() == 0 {
        0
    } else {
        spec_sum_values(utxos, idxs.drop_last()) + utxos[idxs.last() as int].value
    }
}

/// Index `j` names an output a new session may spend: in range and not
/// locked by another session.
pub open spec fn spec_available(
    locked: Seq<contract::FundingOutPoint>,
    utxos: Seq<Utxo>,
    j: int,
) -> bool {
    0 <= j < utxos.len() && !spec_outpoint_in(
        locked,
        utxos[j].outpoint.txid@,
        utxos[j].outpoint.vout,
    )
}

/// The available indexes below `n`, ascending.
pub open spec fn spec_avail_idxs(
    locked: Seq<contract::FundingOutPoint>,
    utxos: Seq<Utxo>,
    n: int,
) -> Seq<usize>
    decreases n,
{
    if n <= 0 {
        Seq::empty()
    } else if spec_available(locked, utxos, n - 1) {
        spec_avail_idxs(locked, utxos, n - 1).push((n - 1) as usize)
    } else {
        spec_avail_idxs(locked, utxos, n - 1)
    }
}

/// A sum of output values is non-negative and at most one maximal value per
/// index.
proof fn lemma_sum_bounds(utxos: Seq<Utxo>, idxs: Seq<usize>)
    ensures
        0 <= spec_sum_values(utxos, idxs) <= idxs.len() * 0xffff_ffff_ffff_ffff,
    decreases idxs.len(),
{
    if idxs.len() > 0 {
        lemma_sum_bounds(utxos, idxs.drop_last());
    }
}

/// Removing one index removes exactly its value from the sum.
proof fn lemma_sum_remove(utxos: Seq<Utxo>, idxs: Seq<usize>, m: int)
    requires
        0 <= m < idxs.len(),
    ensures
        spec_sum_values(utxos, idxs.remove(m)) == spec_sum_values(utxos, idxs) - utxos[idxs[m] as int].value,
    decreases idxs.len(),
{
    if m == idxs.len() - 1 {
        assert(idxs.remove(m) =~= idxs.drop_last());
    } else {
        lemma_sum_remove(utxos, idxs.drop_last(), m);
        assert(idxs.remove(m).drop_last() =~= idxs.drop_last().remove(m));
        assert(idxs.remove(m).last() == idxs.last());
    }
}

/// Membership in the ascending available-index list is exactly
/// availability.
proof fn lemma_avail_idxs_membership(
    locked: Seq<contract::FundingOutPoint>,
    utxos: Seq<Utxo>,
    n: int,
)
    requires
        0 <= n <= utxos.len(),
        n <= usize::MAX,
    ensures
        forall|x: usize| #[trigger]
            spec_avail_idxs(locked, utxos, n).contains(x) <==> ((x as int) < n
                && spec_available(locked, utxos, x as int)),
    decreases n,
{
    broadcast use vstd::seq_lib::lemma_seq_contains_after_push;

    if n > 0 {
        lemma_avail_idxs_membership(locked, utxos, n - 1);
        let sp = spec_avail_idxs(locked, utxos, n - 1);
        let sc = spec_avail_idxs(locked, utxos, n);
        if spec_available(locked, utxos, n - 1) {
            assert(sc == sp.push((n - 1) as usize));
            assert forall|x: usize| #[trigger] sc.contains(x) implies ((x as int) < n
                && spec_available(locked, utxos, x as int)) by {
                assert(x == (n - 1) as usize || sp.contains(x));
            }
            assert forall|x: usize|
                (x as int) < n && spec_available(locked, utxos, x as int) implies #[trigger] sc.contains(
                x,
            ) by {
                if (x as int) < n - 1 {
                    assert(sp.contains(x));
                }
            }
        } else {
            assert(sc == sp);
            assert forall|x: usize|
                (x as int) < n && spec_available(locked, utxos, x as int) implies #[trigger] sc.contains(
                x,
            ) by {
                assert(x != (n - 1) as usize);
                assert(sp.contains(x));
            }
        }
    }
}

impl CoinRegistry {
    /// Selects coins to fund a hop, deterministic and largest-first, and
    /// locks them so no concurrent session can select them again.
    ///
    /// Succeeds exactly when the unlocked outputs of `utxos` together cover
    /// `target_amount + fee_estimate`; the selection is a duplicate-free set
    /// of unlocked outputs covering that goal in which every selected output
    /// is at least as valuable as every unlocked output left unselected.
    /// On success exactly the selected outpoints are appended to the lock
    /// list; on failure nothing changes and no coin is locked.
    pub fn select_funding_coins(
        &mut self,
        utxos: &Vec<Utxo>,
        target_amount: u64,
        fee_estimate: u64,
    ) -> (r: Result<Vec<usize>, SwapError>)
        ensures
            final(self).scripts@ == old(self).scripts@,
            r is Ok <==> spec_sum_values(
                utxos@,
                spec_avail_idxs(old(self).locked@, utxos@, utxos@.len() as int),
            ) >= target_amount + fee_estimate,
            r matches Ok(sel) ==> {
                &&& spec_sum_values(utxos@, sel@) >= target_amount + fee_estimate
                &&& forall|a: int, b: int| 0 <= a < b < sel@.len() ==> sel@[a] != sel@[b]
                &&& forall|a: int|
                    0 <= a < sel@.len() ==> spec_available(
                        old(self).locked@,
                        utxos@,
                        (#[trigger] sel@[a]) as int,
                    )
                &&& forall|a: int, j: int|
                    #![trigger sel@[a], utxos@[j]]
                    0 <= a < sel@.len() && spec_available(old(self).locked@, utxos@, j)
                        && !sel@.contains(j as usize) ==> utxos@[sel@[a] as int].value
                        >= utxos@[j].value
                &&& final(self).locked@.len() == old(self).locked@.len() + sel@.len()
                &&& forall|k: int|
                    0 <= k < old(self).locked@.len() ==> final(self).locked@[k] == old(
                        self,
                    ).locked@[k]
                &&& forall|k: int|
                    0 <= k < sel@.len() ==> (#[trigger] final(self).locked@[old(
                        self,
                    ).locked@.len() + k]).txid@ == utxos@[sel@[k] as int].outpoint.txid@
                        && final(self).locked@[old(self).locked@.len() + k].vout
                        == utxos@[sel@[k] as int].outpoint.vout
            },
            r matches Err(e) ==> e == SwapError::InsufficientFunds && *final(self) == *old(self),
    {
        broadcast use vstd::seq_lib::lemma_seq_contains_after_push;

        let goal: u128 = (target_amount as u128) + (fee_estimate as u128);
        let n = utxos.len();
        let mut candidates: Vec<usize> = Vec::new();
        let mut total: u128 = 0;
        let mut j: usize = 0;
        while j < n
            invariant
                n == utxos@.len(),
                0 <= j <= n,
                candidates@ == spec_avail_idxs(self.locked@, utxos@, j as int),
                candidates@.len() <= j,
                total == spec_sum_values(utxos@, candidates@),
            decreases n - j,
        {
            let avail = !outpoint_listed(&self.locked, &utxos[j].outpoint);
            if avail {
                let ghost prevc = candidates@;
                let v = utxos[j].value;
                candidates.push(j);
                proof {
                    lemma_sum_bounds(utxos@, prevc);
                    assert(candidates@.drop_last() =~= prevc);
                    assert(spec_sum_values(utxos@, candidates@) == total + v);
                }
                total = total + (v as u128);
            }
            j += 1;
        }
        proof {
            lemma_avail_idxs_membership(self.locked@, utxos@, n as int);
        }
        if total < goal {
            return Err(SwapError::InsufficientFunds);
        }
        let ghost cand0 = candidates@;
        let ghost grand_total = total as int;
        let mut remaining = candidates;
        let mut sel: Vec<usize> = Vec::new();
        let mut sum_sel: u128 = 0;
        proof {
            lemma_avail_strict(self.locked@, utxos@, n as int);
            assert forall|a: int, b: int|
                0 <= a < b < remaining@.len() implies remaining@[a] != remaining@[b] by {
                assert(spec_avail_idxs(self.locked@, utxos@, n as int)[a] < spec_avail_idxs(
                    self.locked@,
                    utxos@,
                    n as int,
                )[b]);
            }
            assert forall|k: int|
                0 <= k < remaining@.len() implies spec_available(
                self.locked@,
                utxos@,
                (#[trigger] remaining@[k]) as int,
            ) by {
                assert(remaining@.contains(remaining@[k]));
            }
        }
        while sum_sel < goal
            invariant
                n == utxos@.len(),
                goal == target_amount + fee_estimate,
                grand_total >= goal,
                sum_sel == spec_sum_values(utxos@, sel@),
                spec_sum_values(utxos@, sel@) + spec_sum_values(utxos@, remaining@)
                    == grand_total,
                forall|x: usize| #[trigger]
                    cand0.contains(x) <==> sel@.contains(x) || remaining@.contains(x),
                forall|x: usize| #[trigger] sel@.contains(x) ==> cand0.contains(x),
                forall|x: usize| #[trigger] remaining@.contains(x) ==> cand0.contains(x),
                forall|a: int, b: int| 0 <= a < b < sel@.len() ==> sel@[a] != sel@[b],
                forall|a: int, b: int|
                    0 <= a < b < remaining@.len() ==> remaining@[a] != remaining@[b],
                forall|a: int, b: int|
                    0 <= a < sel@.len() && 0 <= b < remaining@.len() ==> sel@[a]
                        != remaining@[b],
                forall|k: int|
                    0 <= k < sel@.len() ==> spec_available(
                        self.locked@,
                        utxos@,
                        (#[trigger] sel@[k]) as int,
                    ),
                forall|k: int|
                    0 <= k < remaining@.len() ==> spec_available(
                        self.locked@,
                        utxos@,
                        (#[trigger] remaining@[k]) as int,
                    ),
                forall|a: int, t: int|
                    0 <= a < sel@.len() && 0 <= t < remaining@.len() ==> utxos@[(
                    #[trigger] sel@[a]) as int].value >= utxos@[(#[trigger] remaining@[t]) as int].value,
            decreases remaining@.len(),
        {
            proof {
                if remaining@.len() == 0 {
                    assert(spec_sum_values(utxos@, remaining@) == 0);
                }
                lemma_sum_bounds(utxos@, remaining@);
            }
            let mut m: usize = 0;
            let mut t: usize = 1;
            let rn = remaining.len();
            while t < rn
                invariant
                    n == utxos@.len(),
                    rn == remaining@.len(),
                    0 < rn,
                    0 <= m < t <= rn,
                    forall|k: int|
                        0 <= k < remaining@.len() ==> spec_available(
                            self.locked@,
                            utxos@,
                            (#[trigger] remaining@[k]) as int,
                        ),
                    forall|k: int|
                        0 <= k < t ==> utxos@[remaining@[m as int] as int].value >= utxos@[(
                        #[trigger] remaining@[k]) as int].value,
                decreases rn - t,
            {
                if utxos[remaining[t]].value > utxos[remaining[m]].value {
                    m = t;
                }
                t += 1;
            }
            let idx = remaining[m];
            let v = utxos[idx].value;
            let ghost prev_sel = sel@;
            let ghost prev_rem = remaining@;
            sel.push(idx);
            remaining.remove(m);
            proof {
                lemma_sum_bounds(utxos@, prev_sel);
                lemma_sum_remove(utxos@, prev_rem, m as int);
                assert(sel@.drop_last() =~= prev_sel);
                assert(spec_sum_values(utxos@, sel@) == sum_sel + v);
                prev_rem.remove_ensures(m as int);
                assert forall|x: usize| #[trigger]
                    prev_rem.contains(x) implies (remaining@.contains(x) || x == idx) by {
                    let k = choose|k: int| 0 <= k < prev_rem.len() && prev_rem[k] == x;
                    if k < m {
                        assert(remaining@[k] == x);
                    } else if k > m {
                        assert(remaining@[k - 1] == x);
                    }
                }
                assert forall|x: usize| #[trigger]
                    remaining@.contains(x) implies prev_rem.contains(x) by {
                    let k = choose|k: int| 0 <= k < remaining@.len() && remaining@[k] == x;
                    if k < m {
                        assert(prev_rem[k] == x);
                    } else {
                        assert(prev_rem[k + 1] == x);
                    }
                }
                assert(!remaining@.contains(idx)) by {
                    if remaining@.contains(idx) {
                        let k = choose|k: int|
                            0 <= k < remaining@.len() && remaining@[k] == idx;
                        if k < m {
                            assert(prev_rem[k] == idx && prev_rem[m as int] == idx);
                        } else {
                            assert(prev_rem[k + 1] == idx && prev_rem[m as int] == idx);
                        }
                    }
                }
            }
            sum_sel = sum_sel + (v as u128);
        }
        let ghost old_locked = self.locked@;
        let sn = sel.len();
        let mut q: usize = 0;
        while q < sn
            invariant
                n == utxos@.len(),
                sn == sel@.len(),
                0 <= q <= sn,
                forall|k: int|
                    0 <= k < sel@.len() ==> ((#[trigger] sel@[k]) as int) < n,
                self.locked@.len() == old_locked.len() + q,
                forall|k: int| 0 <= k < old_locked.len() ==> self.locked@[k] == old_locked[k],
                forall|k: int|
                    0 <= k < q ==> (#[trigger] self.locked@[old_locked.len() + k]).txid@
                        == utxos@[sel@[k] as int].outpoint.txid@ && self.locked@[old_locked.len()
                        + k].vout == utxos@[sel@[k] as int].outpoint.vout,
                self.scripts@ == old(self).scripts@,
                old_locked == old(self).locked@,
            decreases sn - q,
        {
            let i2 = sel[q];
            let op = contract::FundingOutPoint {
                txid: session::copy_bytes(&utxos[i2].outpoint.txid),
                vout: utxos[i2].outpoint.vout,
            };
            self.locked.push(op);
            q += 1;
        }
        proof {
            lemma_avail_idxs_membership(old(self).locked@, utxos@, n as int);
            assert forall|a: int, j2: int|
                #![trigger sel@[a], utxos@[j2]]
                0 <= a < sel@.len() && spec_available(old(self).locked@, utxos@, j2)
                    && !sel@.contains(j2 as usize) implies utxos@[sel@[a] as int].value
                >= utxos@[j2].value by {
                assert(cand0.contains(j2 as usize));
                assert(remaining@.contains(j2 as usize));
                let k = choose|k: int|
                    0 <= k < remaining@.len() && remaining@[k] == j2 as usize;
                assert(utxos@[sel@[a] as int].value >= utxos@[remaining@[k] as int].value);
            }
        }
        Ok(sel)
    }

    /// Unlocks coins after an abort or after a refund confirms, returning
    /// them to selection for other sessions. Releasing is idempotent: an
    /// outpoint not locked stays unlocked.
    pub fn release(&mut self, coins: &Vec<contract::FundingOutPoint>)
        ensures
            final(self).scripts@ == old(self).scripts@,
            forall|t: Seq<u8>, v: u32|
                spec_outpoint_in(final(self).locked@, t, v) <==> (spec_outpoint_in(
                    old(self).locked@,
                    t,
                    v,
                ) && !spec_outpoint_in(coins@, t, v)),
    {
        let n = self.locked.len();
        let mut kept: Vec<contract::FundingOutPoint> = Vec::new();
        let mut i: usize = 0;
        while i < n
            invariant
                n == self.locked@.len(),
                0 <= i <= n,
                forall|t: Seq<u8>, v: u32|
                    spec_outpoint_in(kept@, t, v) ==> spec_outpoint_in(self.locked@, t, v)
                        && !spec_outpoint_in(coins@, t, v),
                forall|k: int|
                    0 <= k < i && !spec_outpoint_in(
                        coins@,
                        (#[trigger] self.locked@[k]).txid@,
                        self.locked@[k].vout,
                    ) ==> spec_outpoint_in(kept@, self.locked@[k].txid@, self.locked@[k].vout),
            decreases n - i,
        {
            if !outpoint_listed(coins, &self.locked[i]) {
                let ghost prev = kept@;
                let op = contract::FundingOutPoint {
                    txid: session::copy_bytes(&self.locked[i].txid),
                    vout: self.locked[i].vout,
                };
                kept.push(op);
                proof {
                    assert forall|t: Seq<u8>, v: u32|
                        spec_outpoint_in(prev, t, v) implies spec_outpoint_in(kept@, t, v) by {
                        let k = choose|k: int|
                            0 <= k < prev.len() && (#[trigger] prev[k]).txid@ == t && prev[k].vout
                                == v;
                        assert(kept@[k].txid@ == t && kept@[k].vout == v);
                    }
                    assert forall|t: Seq<u8>, v: u32|
                        spec_outpoint_in(kept@, t, v) implies spec_outpoint_in(
                        self.locked@,
                        t,
                        v,
                    ) && !spec_outpoint_in(coins@, t, v) by {
                        let k = choose|k: int|
                            0 <= k < kept@.len() && kept@[k].txid@ == t && kept@[k].vout == v;
                        if k < prev.len() {
                            assert(spec_outpoint_in(prev, t, v));
                        } else {
                            assert(self.locked@[i as int].txid@ == t && self.locked@[i as int].vout
                                == v);
                        }
                    }
                    assert(spec_outpoint_in(
                        kept@,
                        self.locked@[i as int].txid@,
                        self.locked@[i as int].vout,
                    )) by {
                        assert(kept@[prev.len() as int].txid@ == self.locked@[i as int].txid@
                            && kept@[prev.len() as int].vout == self.locked@[i as int].vout);
                    }
                }
            }
            i += 1;
        }
        self.locked = kept;
        proof {
            assert forall|t: Seq<u8>, v: u32|
                spec_outpoint_in(old(self).locked@, t, v) && !spec_outpoint_in(
                    coins@,
                    t,
                    v,
                ) implies spec_outpoint_in(self.locked@, t, v) by {
                let k = choose|k: int|
                    0 <= k < old(self).locked@.len() && old(self).locked@[k].txid@ == t && old(
                        self,
                    ).locked@[k].vout == v;
                assert(spec_outpoint_in(kept@, old(self).locked@[k].txid@, old(
                    self,
                ).locked@[k].vout));
            }
        }
    }
}

/// Entries of the available-index list strictly increase with position and
/// stay below the scanned bound, so they are distinct.
proof fn lemma_avail_strict(locked: Seq<contract::FundingOutPoint>, utxos: Seq<Utxo>, n: int)
    requires
        0 <= n <= usize::MAX,
    ensures
        forall|a: int, b: int|
            0 <= a < b < spec_avail_idxs(locked, utxos, n).len() ==> (#[trigger] spec_avail_idxs(
                locked,
                utxos,
                n,
            )[a]) < (#[trigger] spec_avail_idxs(locked, utxos, n)[b]),
        forall|a: int|
            0 <= a < spec_avail_idxs(locked, utxos, n).len() ==> (#[trigger] spec_avail_idxs(
                locked,
                utxos,
                n,
            )[a]) < n,
    decreases n,
{
    if n > 0 {
        lemma_avail_strict(locked, utxos, n - 1);
        let sp = spec_avail_idxs(locked, utxos, n - 1);
        let sc = spec_avail_idxs(locked, utxos, n);
        assert forall|a: int| 0 <= a < sc.len() implies (#[trigger] sc[a]) < n by {
            if a < sp.len() {
                assert(sc[a] == sp[a]);
            }
        }
        assert forall|a: int, b: int|
            0 <= a < b < sc.len() implies (#[trigger] sc[a]) < (#[trigger] sc[b]) by {
            assert(sc[a] == sp[a]);
            if b < sp.len() {
                assert(sc[b] == sp[b]);
            } else {
                assert(sp[a] < n - 1);
            }
        }
    }
}

/// Law: classification is a pure function of the known scripts and the UTXO
/// itself — classifying the same UTXO set twice yields identical tag
/// assignments.
pub proof fn lemma_classification_idempotent(
    scripts: Seq<KnownScript>,
    utxo: Utxo,
    first_run: SpendInfo,
    second_run: SpendInfo,
)
    requires
        spec_same_tag(first_run, spec_classify(scripts, utxo.locking_script@, utxo.value)),
        spec_same_tag(second_run, spec_classify(scripts, utxo.locking_script@, utxo.value)),
    ensures
        spec_same_tag(first_run, second_run),
{
}

/// Law: classification is the exact inverse of construction — in a
/// well-formed registry, a UTXO whose locking script equals a registered
/// script's locking script is assigned exactly that script's tag, whichever
/// position it was registered at.
pub proof fn lemma_classification_inverts_construction(reg: CoinRegistry, i: int, utxo: Utxo)
    requires
        spec_registry_wf(reg),
        0 <= i < reg.scripts@.len(),
        utxo.locking_script@ == reg.scripts@[i].locking_script@,
    ensures
        spec_classify(reg.scripts@, utxo.locking_script@, utxo.value) == spec_tag_of(
            reg.scripts@[i].kind,
            utxo.value,
        ),
{
    lemma_classify_skip(reg.scripts@, utxo.locking_script@, utxo.value, i);
    assert(reg.scripts@.skip(i)[0] == reg.scripts@[i]);
}

} // verus!
