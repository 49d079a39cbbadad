//! Parsing of the `address:amount` command-line payment argument: the
//! split is verified here, the denominated amount itself is read through
//! the `bitcoin` crate.

use vstd::prelude::*;

verus! {

/// The byte value of the separating colon.
pub const COLON: u8 = 58;

/// The satoshi value that `bitcoin::Amount::from_str` reads from this
/// denominated text (for example `"0.001 BTC"`), if it reads one.
pub uninterp spec fn spec_amount_sats_of(text: Seq<u8>) -> Option<u64>;

/// Relies on `bitcoin::Amount::from_str`: the parse depends on the text
/// alone, and a parsed amount converts to satoshis with `to_sat`. Text that
/// is not UTF-8 or not a denominated amount reads as nothing.
#[verifier::external_body]
pub fn parse_amount(text: &Vec<u8>) -> (r: Option<u64>)
    ensures
        r == spec_amount_sats_of(text@),
{
    let s = match core::str::from_utf8(text.as_slice()) {
        Ok(s) => s,
        Err(_) => return None,
    };
    match <bitcoin::Amount as core::str::FromStr>::from_str(s) {
        Ok(a) => Some(a.to_sat()),
        Err(_) => None,
    }
}

/// How many colons the first `n` bytes hold.
pub open spec fn spec_colon_count_upto(s: Seq<u8>, n: int) -> int
    decreases n,
{
    if n <= 0 {
        0
    } else {
        spec_colon_count_upto(s, n - 1) + (if s[n - 1] == COLON {
            1int
        } else {
            0int
        })
    }
}

/// How many colons the input holds.
pub open spec fn spec_colon_count(s: Seq<u8>) -> int {
    spec_colon_count_upto(s, s.len() as int)
}

/// The index of the first colon.
pub open spec fn spec_first_colon(s: Seq<u8>) -> int
    decreases s.len(),
{
    if s.len() == 0 {
        0
    } else if s[0] == COLON {
        0
    } else {
        1 + spec_first_colon(s.drop_first())
    }
}

/// The bytes after the first colon.
pub open spec fn spec_after_first_colon(s: Seq<u8>) -> Seq<u8> {
    s.subrange(spec_first_colon(s) + 1, s.len() as int)
}

/// A colon count is never negative.
proof fn lemma_colon_count_nonneg(s: Seq<u8>, n: int)
    ensures
        spec_colon_count_upto(s, n) >= 0,
    decreases n,
{
    if n > 0 {
        lemma_colon_count_nonneg(s, n - 1);
    }
}

/// A prefix with colon count zero holds no colon.
proof fn lemma_no_colon_upto(s: Seq<u8>, n: int)
    requires
        spec_colon_count_upto(s, n) == 0,
    ensures
        forall|k: int| 0 <= k < n ==> s[k] != COLON,
    decreases n,
{
    if n > 0 {
        lemma_colon_count_nonneg(s, n - 1);
        lemma_no_colon_upto(s, n - 1);
    }
}

/// A position that holds a colon with none before it is the first colon.
proof fn lemma_first_colon_at(s: Seq<u8>, p: int)
    requires
        0 <= p < s.len(),
        s[p] == COLON,
        forall|k: int| 0 <= k < p ==> s[k] != COLON,
    ensures
        spec_first_colon(s) == p,
    decreases p,
{
    if p > 0 {
        assert(s[0] != COLON);
        assert(s.drop_first()[p - 1] == COLON);
        assert forall|k: int| 0 <= k < p - 1 implies s.drop_first()[k] != COLON by {
            assert(s.drop_first()[k] == s[k + 1]);
        }
        lemma_first_colon_at(s.drop_first(), p - 1);
    }
}

/// Copies the bytes of `src` between `from` (inclusive) and `to`
/// (exclusive).
pub fn slice_bytes(src: &Vec<u8>, from: usize, to: usize) -> (r: Vec<u8>)
    requires
        from <= to <= src@.len(),
    ensures
        r@ == src@.subrange(from as int, to as int),
{
    let mut out: Vec<u8> = Vec::new();
    let mut i: usize = from;
    while i < to
        invariant
            from <= i <= to <= src@.len(),
            out@ =~= src@.subrange(from as int, i as int),
        decreases to - i,
    {
        let b = src[i];
        out.push(b);
        assert(out@ =~= src@.subrange(from as int, i + 1));
        i += 1;
    }
    assert(out@ =~= src@.subrange(from as int, to as int));
    out
}

/// Splits an `address:amount` argument and reads the amount.
///
/// Succeeds exactly when the input holds exactly one colon and the text
/// after it reads as a denominated bitcoin amount; the address part is
/// everything before the colon, and the amount is returned in satoshis.
pub fn parse_address_amount(input: &Vec<u8>) -> (r: Option<(Vec<u8>, u64)>)
    ensures
        r is Some <==> spec_colon_count(input@) == 1 && spec_amount_sats_of(
            spec_after_first_colon(input@),
        ) is Some,
        r matches Some(pair) ==> pair.0@ == input@.subrange(0, spec_first_colon(input@)) && Some(
            pair.1,
        ) == spec_amount_sats_of(spec_after_first_colon(input@)),
{
    let n = input.len();
    let mut count: usize = 0;
    let mut first: usize = n;
    let mut i: usize = 0;
    while i < n
        invariant
            n == input@.len(),
            0 <= i <= n,
            count == spec_colon_count_upto(input@, i as int),
            count <= i,
            first == n <==> count == 0,
            count > 0 ==> first < i && input@[first as int] == COLON && forall|k: int|
                0 <= k < first ==> input@[k] != COLON,
        decreases n - i,
    {
        if input[i] == COLON {
            if count == 0 {
                proof {
                    lemma_no_colon_upto(input@, i as int);
                }
                first = i;
            }
            count += 1;
        }
        i += 1;
    }
    if count != 1 {
        return None;
    }
    proof {
        lemma_first_colon_at(input@, first as int);
    }
    let address = slice_bytes(input, 0, first);
    let amount_text = slice_bytes(input, first + 1, n);
    match parse_amount(&amount_text) {
        Some(sats) => Some((address, sats)),
        None => None,
    }
}

} // verus!
