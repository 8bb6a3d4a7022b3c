//! Amounts of native currency: unsigned integers of 256 bits.

use vstd::prelude::*;

verus! {

/// An unsigned integer of 256 bits, held as four limbs, least significant first.
#[derive(Debug, Clone, Copy, PartialEq, Eq)]
pub struct U256 {
    pub limbs: [u64; 4],
}

impl View for U256 {
    type V = Seq<u64>;

    open spec fn view(&self) -> Seq<u64> {
        self.limbs@
    }
}

/// The limbs, least significant first, of the number that `text` spells in the
/// given radix, where it spells one that fits in 256 bits.
pub uninterp spec fn uint_from_text(text: Seq<char>, radix: u64) -> Option<Seq<u64>>;

/// Calls `alloy_primitives::U256::from_str_radix`, which reads digits of the
/// radix in either case, skips underscores, and fails on another character or
/// on a number of more than 256 bits. The contract names the outcome.
#[verifier::external_body]
fn from_text_radix(text: &str, radix: u64) -> (r: Option<U256>)
    ensures
        r is Some <==> uint_from_text(text@, radix) is Some,
        r matches Some(v) ==> Some(v@) == uint_from_text(text@, radix),
{
    match alloy_primitives::U256::from_str_radix(text, radix) {
        Ok(v) => Some(U256 { limbs: v.into_limbs() }),
        Err(_) => None,
    }
}

/// The text without a leading `0x`.
pub open spec fn without_prefix(s: Seq<char>) -> Seq<char> {
    if s.len() >= 2 && s[0] == '0' && s[1] == 'x' {
        s.subrange(2, s.len() as int)
    } else {
        s
    }
}

/// What a numeric field stands for: the number it spells in decimal, or else
/// the number it spells in hexadecimal after an optional `0x`.
pub open spec fn parsed_value(text: Seq<char>) -> Option<Seq<u64>> {
    match uint_from_text(text, 10) {
        Some(limbs) => Some(limbs),
        None => uint_from_text(without_prefix(text), 16),
    }
}

/// Chooses between the decimal and the hexadecimal reading of a numeric field.
pub fn choose_reading(decimal: Option<U256>, hexadecimal: Option<U256>) -> (r: Option<U256>)
    ensures
        r == (match decimal {
            Some(v) => Some(v),
            None => hexadecimal,
        }),
{
    match decimal {
        Some(v) => Some(v),
        None => hexadecimal,
    }
}

fn strip_prefix(text: &str) -> (r: &str)
    ensures
        r@ == without_prefix(text@),
{
    let n: usize = text.unicode_len();
    if n >= 2 && text.get_char(0) == '0' && text.get_char(1) == 'x' {
        text.substring_char(2, n)
    } else {
        text
    }
}

/// Reads a numeric field that is written in decimal or in hexadecimal.
pub fn parse_value(text: &str) -> (r: Option<U256>)
    ensures
        r is Some <==> parsed_value(text@) is Some,
        r matches Some(v) ==> Some(v@) == parsed_value(text@),
{
    let decimal = from_text_radix(text, 10);
    if decimal.is_some() {
        return decimal;
    }
    let hexadecimal = from_text_radix(strip_prefix(text), 16);
    choose_reading(decimal, hexadecimal)
}

impl U256 {
    /// The number zero.
    pub fn zero() -> (r: U256)
        ensures
            r@ == seq![0u64, 0u64, 0u64, 0u64],
    {
        let r = U256 { limbs: [0u64, 0u64, 0u64, 0u64] };
        assert(r@ =~= seq![0u64, 0u64, 0u64, 0u64]);
        r
    }

    /// The number with the given limbs, least significant first.
    pub fn from_limbs(limbs: [u64; 4]) -> (r: U256)
        ensures
            r.limbs == limbs,
    {
        U256 { limbs }
    }

    /// The limbs, least significant first.
    pub fn into_limbs(self) -> (r: [u64; 4])
        ensures
            r == self.limbs,
    {
        self.limbs
    }
}

} // verus!
