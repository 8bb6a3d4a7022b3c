//! Account and contract addresses.

use vstd::prelude::*;

verus! {

/// An Ethereum address: twenty bytes.
#[derive(Debug, Clone, Copy, PartialEq, Eq)]
pub struct Address {
    pub bytes: [u8; 20],
}

/// The mixed-case checksummed text of the address made of `bytes`.
pub uninterp spec fn address_text(bytes: Seq<u8>) -> Seq<char>;

/// Calls `Display` of `alloy_primitives::Address`, which writes `0x` and the
/// forty hexadecimal digits of the address, letters in the case that the
/// address's checksum gives them. The contract names that text and states its
/// length.
#[verifier::external_body]
fn checksum_text(bytes: &[u8; 20]) -> (r: String)
    ensures
        r@ == address_text(bytes@),
        r@.len() == 42,
{
    alloy_primitives::Address::new(*bytes).to_string()
}

impl Address {
    /// The address made of the given bytes.
    pub fn new(bytes: [u8; 20]) -> (r: Address)
        ensures
            r.bytes == bytes,
    {
        Address { bytes }
    }

    /// The bytes of the address.
    pub fn as_bytes(&self) -> (r: [u8; 20])
        ensures
            r == self.bytes,
    {
        self.bytes
    }

    /// The address as checksummed text, as it is sent to the API.
    pub fn to_checksum(&self) -> (r: String)
        ensures
            r@ == address_text(self.bytes@),
            r@.len() == 42,
    {
        checksum_text(&self.bytes)
    }
}

} // verus!
