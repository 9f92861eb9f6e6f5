//! Token amounts: integers of any size.

use vstd::prelude::*;

verus! {

/// The number that `bytes` spells in base 256, most significant byte first.
pub open spec fn unsigned_be(bytes: Seq<u8>) -> nat
    decreases bytes.len(),
{
    if bytes.len() == 0 {
        0
    } else {
        unsigned_be(bytes.drop_last()) * 256 + bytes.last() as nat
    }
}

/// 256 to the power of `n`.
pub open spec fn pow256(n: nat) -> nat
    decreases n,
{
    if n == 0 {
        1
    } else {
        256 * pow256((n - 1) as nat)
    }
}

/// The integer that `bytes` spells in two's complement, most significant byte
/// first. No bytes spell zero.
pub open spec fn signed_be(bytes: Seq<u8>) -> int {
    if bytes.len() > 0 && bytes[0] >= 128 {
        unsigned_be(bytes) - pow256(bytes.len())
    } else {
        unsigned_be(bytes) as int
    }
}

/// The integer that a decimal text spells, as `num_bigint` reads it; `None`
/// if it rejects the text.
pub uninterp spec fn decimal_value(text: Seq<char>) -> Option<int>;

/// The decimal text of an integer, as `num_bigint` writes it.
pub uninterp spec fn decimal_text(value: int) -> Seq<char>;

/// An amount of tokens in the smallest unit: an integer of any size, held in
/// two's complement with the most significant byte first.
#[derive(Debug)]
pub struct TokenAmount {
    pub atto: Vec<u8>,
}

impl View for TokenAmount {
    type V = int;

    open spec fn view(&self) -> int {
        signed_be(self.atto@)
    }
}

/// Calls `num_bigint::BigInt::parse_bytes` with radix 10 and
/// `BigInt::to_signed_bytes_be`: the two's complement bytes of the integer
/// that the text spells.
#[verifier::external_body]
fn parse_decimal(text: &str) -> (r: Option<Vec<u8>>)
    ensures
        r is Some <==> decimal_value(text@) is Some,
        r matches Some(bytes) ==> decimal_value(text@) == Some(signed_be(bytes@)),
{
    fvm_shared::bigint::BigInt::parse_bytes(text.as_bytes(), 10).map(|n| n.to_signed_bytes_be())
}

/// Calls `num_bigint::BigInt::from_signed_bytes_be` and `to_string`: the
/// decimal text of the integer that the bytes spell in two's complement.
#[verifier::external_body]
fn write_decimal(bytes: &[u8]) -> (text: String)
    ensures
        text@ == decimal_text(signed_be(bytes@)),
{
    fvm_shared::bigint::BigInt::from_signed_bytes_be(bytes).to_string()
}

impl TokenAmount {
    /// The amount zero.
    pub fn zero() -> (amount: TokenAmount)
        ensures
            amount@ == 0,
    {
        TokenAmount { atto: Vec::new() }
    }

    /// Reads an amount from decimal text. `None` exactly when the text is not
    /// a decimal integer.
    pub fn from_decimal(text: &str) -> (r: Option<TokenAmount>)
        ensures
            r is Some <==> decimal_value(text@) is Some,
            r matches Some(amount) ==> decimal_value(text@) == Some(amount@),
    {
        match parse_decimal(text) {
            Some(atto) => Some(TokenAmount { atto }),
            None => None,
        }
    }

    /// The amount as decimal text.
    pub fn to_decimal(&self) -> (text: String)
        ensures
            text@ == decimal_text(self@),
    {
        write_decimal(self.atto.as_slice())
    }

    /// Whether the amount is below zero.
    pub fn is_negative(&self) -> (negative: bool)
        ensures
            negative == (self@ < 0),
    {
        proof {
            lemma_unsigned_be_bound(self.atto@);
            if self.atto@.len() > 0 {
                lemma_unsigned_be_high(self.atto@);
            }
        }
        self.atto.len() > 0 && self.atto[0] >= 128
    }

    /// A copy of this amount.
    pub fn duplicate(&self) -> (amount: TokenAmount)
        ensures
            amount@ == self@,
            amount.atto@ == self.atto@,
    {
        TokenAmount { atto: self.atto.clone() }
    }
}

/// A number of `n` bytes is below 256 to the `n`.
pub proof fn lemma_unsigned_be_bound(bytes: Seq<u8>)
    ensures
        unsigned_be(bytes) < pow256(bytes.len()),
    decreases bytes.len(),
{
    if bytes.len() > 0 {
        lemma_unsigned_be_bound(bytes.drop_last());
        assert(pow256(bytes.len()) == 256 * pow256((bytes.len() - 1) as nat));
    }
}

/// The first byte decides the upper half: a number whose first byte is at
/// least 128 is at least half of 256 to the length, and one whose first byte
/// is below 128 is below that half.
pub proof fn lemma_unsigned_be_high(bytes: Seq<u8>)
    requires
        bytes.len() > 0,
    ensures
        bytes[0] >= 128 ==> 2 * unsigned_be(bytes) >= pow256(bytes.len()),
        bytes[0] < 128 ==> 2 * unsigned_be(bytes) < pow256(bytes.len()),
        unsigned_be(bytes) >= bytes[0] * pow256((bytes.len() - 1) as nat),
        unsigned_be(bytes) < (bytes[0] + 1) * pow256((bytes.len() - 1) as nat),
    decreases bytes.len(),
{
    let n = bytes.len();
    if n == 1 {
        assert(bytes.drop_last().len() == 0);
        assert(unsigned_be(bytes.drop_last()) == 0);
        assert(unsigned_be(bytes) == bytes[0] as nat);
        assert(pow256(1) == 256 * pow256(0));
        assert(pow256(0) == 1);
    } else {
        let front = bytes.drop_last();
        assert(front[0] == bytes[0]);
        lemma_unsigned_be_high(front);
        let p = pow256((n - 2) as nat);
        assert(pow256((n - 1) as nat) == 256 * p);
        assert(pow256(n) == 256 * pow256((n - 1) as nat));
        let u = unsigned_be(front);
        assert(unsigned_be(bytes) == u * 256 + bytes.last() as nat);
        assert(u >= bytes[0] * p);
        assert(u + 1 <= (bytes[0] + 1) * p);
        assert(u * 256 >= bytes[0] * (256 * p)) by (nonlinear_arith)
            requires
                u >= bytes[0] * p,
        ;
        assert((u + 1) * 256 <= (bytes[0] + 1) * (256 * p)) by (nonlinear_arith)
            requires
                u + 1 <= (bytes[0] + 1) * p,
        ;
        let q = pow256((n - 1) as nat);
        assert(bytes[0] >= 128 ==> 2 * (bytes[0] * q) >= 256 * q) by (nonlinear_arith);
        assert(bytes[0] < 128 ==> 2 * ((bytes[0] + 1) * q) <= 256 * q) by (nonlinear_arith);
    }
}

} // verus!
