//! Contract engine: the hashlock+timelock redeem script, its pay-to-witness
//! locking script, and the unsigned contract transaction with its signatures.

use vstd::prelude::*;

use crate::crypto;
use crate::error::SwapError;

verus! {

pub const OP_IF: u8 = 0x63;
pub const OP_ELSE: u8 = 0x67;
pub const OP_ENDIF: u8 = 0x68;
pub const OP_DROP: u8 = 0x75;
pub const OP_EQUALVERIFY: u8 = 0x88;
pub const OP_SHA256: u8 = 0xa8;
pub const OP_CHECKSIG: u8 = 0xac;
pub const OP_CSV: u8 = 0xb2;
pub const OP_PUSH0: u8 = 0x00;
pub const PUSH_2: u8 = 0x02;
pub const PUSH_32: u8 = 0x20;
pub const PUSH_33: u8 = 0x21;

/// A compressed secp256k1 public key encoding: 33 bytes beginning with 0x02
/// or 0x03.
pub open spec fn spec_valid_pubkey(pk: Seq<u8>) -> bool {
    pk.len() == 33 && (pk[0] == 0x02 || pk[0] == 0x03)
}

/// A relative lock-time encoded as two little-endian bytes.
pub open spec fn spec_le16(v: u16) -> Seq<u8> {
    seq![(v & 0xff) as u8, ((v >> 8) & 0xff) as u8]
}

/// The contract redeem script: a hashlock branch (reveal the SHA-256
/// preimage of `hash_value`, then a signature under `hashlock_pk`) and a
/// timelock branch (after `locktime` confirmations, a signature under
/// `timelock_pk`). Both public keys, the hash and the lock-time appear
/// verbatim, exactly as negotiated.
pub open spec fn spec_redeem_script(
    hashlock_pk: Seq<u8>,
    timelock_pk: Seq<u8>,
    hash_value: Seq<u8>,
    locktime: u16,
) -> Seq<u8> {
    seq![OP_IF, OP_SHA256, PUSH_32] + hash_value + seq![OP_EQUALVERIFY, PUSH_33] + hashlock_pk
        + seq![OP_ELSE, PUSH_2] + spec_le16(locktime) + seq![OP_CSV, OP_DROP, PUSH_33]
        + timelock_pk + seq![OP_ENDIF, OP_CHECKSIG]
}

/// The pay-to-witness-script-hash locking script for a witness script whose
/// SHA-256 digest is `script_hash`.
pub open spec fn spec_p2wsh(script_hash: Seq<u8>) -> Seq<u8> {
    seq![OP_PUSH0, PUSH_32] + script_hash
}

/// The locking script that funds a given redeem script.
pub open spec fn spec_funding_script(redeem_script: Seq<u8>) -> Seq<u8> {
    spec_p2wsh(crypto::spec_sha256(redeem_script))
}

/// Appends every byte of `src` to `dst`.
pub fn extend_bytes(dst: &mut Vec<u8>, src: &Vec<u8>)
    ensures
        final(dst)@ == old(dst)@ + src@,
{
    let n = src.len();
    let mut i: usize = 0;
    while i < n
        invariant
            n == src@.len(),
            0 <= i <= n,
            dst@ == old(dst)@ + src@.subrange(0, i as int),
        decreases n - i,
    {
        let b = src[i];
        dst.push(b);
        assert(old(dst)@ + src@.subrange(0, i as int) + seq![src@[i as int]] =~= old(
            dst,
        )@ + src@.subrange(0, i + 1));
        i += 1;
    }
    assert(src@.subrange(0, n as int) =~= src@);
}

/// Returns whether `pk` is a well-formed compressed public key encoding.
pub fn is_valid_pubkey(pk: &Vec<u8>) -> (r: bool)
    ensures
        r == spec_valid_pubkey(pk@),
{
    pk.len() == 33 && (pk[0] == 0x02 || pk[0] == 0x03)
}

/// Builds the redeem script for one contract output.
///
/// Succeeds exactly when both keys are well-formed compressed encodings and
/// the hash commitment is 32 bytes; the result is the byte-exact script of
/// [`spec_redeem_script`], so both sides of a hop derive identical bytes
/// from identical negotiated material.
pub fn build_redeem_script(
    hashlock_pk: &Vec<u8>,
    timelock_pk: &Vec<u8>,
    hash_value: &Vec<u8>,
    locktime: u16,
) -> (r: Result<Vec<u8>, SwapError>)
    ensures
        r is Ok <==> spec_valid_pubkey(hashlock_pk@) && spec_valid_pubkey(timelock_pk@)
            && hash_value@.len() == 32,
        r matches Ok(s) ==> s@ == spec_redeem_script(
            hashlock_pk@,
            timelock_pk@,
            hash_value@,
            locktime,
        ),
        r matches Err(e) ==> e == SwapError::ScriptConstruction,
{
    if !is_valid_pubkey(hashlock_pk) || !is_valid_pubkey(timelock_pk) || hash_value.len() != 32 {
        return Err(SwapError::ScriptConstruction);
    }
    let mut s: Vec<u8> = Vec::new();
    s.push(OP_IF);
    s.push(OP_SHA256);
    s.push(PUSH_32);
    extend_bytes(&mut s, hash_value);
    s.push(OP_EQUALVERIFY);
    s.push(PUSH_33);
    extend_bytes(&mut s, hashlock_pk);
    s.push(OP_ELSE);
    s.push(PUSH_2);
    s.push((locktime & 0xff) as u8);
    s.push(((locktime >> 8) & 0xff) as u8);
    s.push(OP_CSV);
    s.push(OP_DROP);
    s.push(PUSH_33);
    extend_bytes(&mut s, timelock_pk);
    s.push(OP_ENDIF);
    s.push(OP_CHECKSIG);
    assert(s@ =~= spec_redeem_script(hashlock_pk@, timelock_pk@, hash_value@, locktime));
    Ok(s)
}

/// Wraps a redeem script into the locking script its funding output carries.
pub fn funding_script_hash(redeem_script: &Vec<u8>) -> (r: Vec<u8>)
    ensures
        r@ == spec_funding_script(redeem_script@),
        r@.len() == 34,
{
    let digest = crypto::sha256(redeem_script);
    let mut s: Vec<u8> = Vec::new();
    s.push(OP_PUSH0);
    s.push(PUSH_32);
    extend_bytes(&mut s, &digest);
    assert(s@ =~= spec_p2wsh(crypto::spec_sha256(redeem_script@)));
    s
}

/// A reference to the funded output a contract transaction spends.
#[derive(Clone, Debug)]
pub struct FundingOutPoint {
    /// Transaction id of the funding transaction, 32 bytes.
    pub txid: Vec<u8>,
    /// Output index within the funding transaction.
    pub vout: u32,
}

/// The single-input, single-output unsigned contract transaction.
#[derive(Clone, Debug)]
pub struct ContractTransaction {
    /// The funding output being spent.
    pub input: FundingOutPoint,
    /// Value of the contract output: the funded amount less the mining fee.
    pub value: u64,
    /// Locking script of the contract output.
    pub locking_script: Vec<u8>,
}

pub open spec fn spec_le32(v: u32) -> Seq<u8> {
    seq![
        (v & 0xff) as u8,
        ((v >> 8) & 0xff) as u8,
        ((v >> 16) & 0xff) as u8,
        ((v >> 24) & 0xff) as u8,
    ]
}

pub open spec fn spec_le64(v: u64) -> Seq<u8> {
    seq![
        (v & 0xff) as u8,
        ((v >> 8) & 0xff) as u8,
        ((v >> 16) & 0xff) as u8,
        ((v >> 24) & 0xff) as u8,
        ((v >> 32) & 0xff) as u8,
        ((v >> 40) & 0xff) as u8,
        ((v >> 48) & 0xff) as u8,
        ((v >> 56) & 0xff) as u8,
    ]
}

/// The canonical byte serialization both parties sign: funding txid, output
/// index, output value and locking script, in that order.
pub open spec fn spec_tx_bytes(tx: ContractTransaction) -> Seq<u8> {
    tx.input.txid@ + spec_le32(tx.input.vout) + spec_le64(tx.value) + tx.locking_script@
}

/// Builds the unsigned contract transaction for one hop.
///
/// Succeeds exactly when the funding txid is 32 bytes and the mining fee
/// leaves a positive locked value; the fee is subtracted from the locked
/// amount, so two honest parties with the same negotiated material build
/// byte-identical transactions.
pub fn build_contract_transaction(
    funding: FundingOutPoint,
    amount: u64,
    fee: u64,
    locking_script: Vec<u8>,
) -> (r: Result<ContractTransaction, SwapError>)
    ensures
        r is Ok <==> funding.txid@.len() == 32 && fee < amount,
        r matches Ok(tx) ==> tx.input == funding && tx.value == amount - fee
            && tx.locking_script == locking_script,
        r matches Err(e) ==> e == (if funding.txid@.len() != 32 {
            SwapError::ScriptConstruction
        } else {
            SwapError::InsufficientFunds
        }),
{
    if funding.txid.len() != 32 {
        return Err(SwapError::ScriptConstruction);
    }
    if fee >= amount {
        return Err(SwapError::InsufficientFunds);
    }
    Ok(ContractTransaction { input: funding, value: amount - fee, locking_script })
}

/// Serializes a contract transaction into the byte string that is signed.
pub fn serialize_contract_tx(tx: &ContractTransaction) -> (r: Vec<u8>)
    ensures
        r@ == spec_tx_bytes(*tx),
{
    let mut s: Vec<u8> = Vec::new();
    extend_bytes(&mut s, &tx.input.txid);
    let vout = tx.input.vout;
    s.push((vout & 0xff) as u8);
    s.push(((vout >> 8) & 0xff) as u8);
    s.push(((vout >> 16) & 0xff) as u8);
    s.push(((vout >> 24) & 0xff) as u8);
    let v = tx.value;
    s.push((v & 0xff) as u8);
    s.push(((v >> 8) & 0xff) as u8);
    s.push(((v >> 16) & 0xff) as u8);
    s.push(((v >> 24) & 0xff) as u8);
    s.push(((v >> 32) & 0xff) as u8);
    s.push(((v >> 40) & 0xff) as u8);
    s.push(((v >> 48) & 0xff) as u8);
    s.push(((v >> 56) & 0xff) as u8);
    extend_bytes(&mut s, &tx.locking_script);
    assert(s@ =~= spec_tx_bytes(*tx));
    s
}

/// The digest both parties sign: the SHA-256 of the canonical serialization.
pub open spec fn spec_sighash(tx: ContractTransaction) -> Seq<u8> {
    crypto::spec_sha256(spec_tx_bytes(tx))
}

/// Computes the signature digest of a contract transaction.
pub fn contract_sighash(tx: &ContractTransaction) -> (r: Vec<u8>)
    ensures
        r@ == spec_sighash(*tx),
        r@.len() == 32,
{
    let bytes = serialize_contract_tx(tx);
    crypto::sha256(&bytes)
}

/// Signs a contract transaction with one's own private key.
///
/// Succeeds exactly when the key is a valid 32-byte secret scalar; the
/// signature is the deterministic ECDSA signature over the transaction's
/// digest. Signing never mutates shared state.
pub fn sign_contract_tx(tx: &ContractTransaction, privkey: &Vec<u8>) -> (r: Result<
    Vec<u8>,
    SwapError,
>)
    ensures
        r is Ok <==> privkey@.len() == 32 && crypto::spec_valid_seckey(privkey@),
        r matches Ok(sig) ==> sig@ == crypto::spec_ecdsa_sig(spec_sighash(*tx), privkey@),
        r matches Err(e) ==> e == SwapError::WalletError,
{
    if privkey.len() != 32 {
        return Err(SwapError::WalletError);
    }
    let digest = contract_sighash(tx);
    match crypto::ecdsa_sign(&digest, privkey) {
        Some(sig) => Ok(sig),
        None => Err(SwapError::WalletError),
    }
}

/// Verifies a counterparty's signature over a contract transaction.
pub fn verify_contract_sig(tx: &ContractTransaction, pubkey: &Vec<u8>, sig: &Vec<u8>) -> (r: bool)
    ensures
        r == crypto::spec_ecdsa_verifies(spec_sighash(*tx), pubkey@, sig@),
{
    let digest = contract_sighash(tx);
    crypto::ecdsa_verify(&digest, pubkey, sig)
}

/// The hash commitment embedded in a redeem script sits at bytes 3..35:
/// whatever material the script was built from, the commitment is carried
/// verbatim, so every hop of a session built from one hash value embeds that
/// same value.
pub proof fn lemma_script_embeds_hash(
    hashlock_pk: Seq<u8>,
    timelock_pk: Seq<u8>,
    hash_value: Seq<u8>,
    locktime: u16,
)
    requires
        hash_value.len() == 32,
    ensures
        spec_redeem_script(hashlock_pk, timelock_pk, hash_value, locktime).subrange(3, 35)
            == hash_value,
{
    assert(spec_redeem_script(hashlock_pk, timelock_pk, hash_value, locktime).subrange(3, 35)
        =~= hash_value);
}

} // verus!
