//! The values that travel between the caller, the client and the API.

use vstd::prelude::*;
use crate::address::Address;
use crate::json::JsonValue;
use crate::value::U256;

verus! {

/// One POST that the caller is to send: where to, and with which header. The
/// body is the JSON of the request value that the operation is about.
#[derive(Debug, Clone, PartialEq, Eq)]
pub struct PostRequest {
    pub url: String,
    pub header_name: String,
    pub header_value: String,
}

/// What came back for a POST: the status code, and the body as text unless it
/// could not be read.
#[derive(Debug, Clone, PartialEq, Eq)]
pub struct HttpReply {
    pub status: u16,
    pub body: Option<String>,
}

/// A quote: the document that the quote endpoint answered with, and the
/// identifier of the quoted path, which an assembly is later asked for.
#[derive(Debug, PartialEq, Eq)]
pub struct SingleQuoteResponse {
    pub path_id: String,
    pub document: JsonValue,
}

/// What the assemble endpoint is asked.
#[derive(Debug, Clone, PartialEq, Eq)]
pub struct AssembleRequest {
    pub user_addr: String,
    pub path_id: String,
    pub simulate: bool,
    pub receiver: Option<Address>,
}

/// The part of an assembly reply that a transaction is built from.
#[derive(Debug, Clone, PartialEq, Eq)]
pub struct TransactionData {
    /// The call data, as hexadecimal text.
    pub data: String,
    /// The native value to send along, as numeric text.
    pub value: String,
}

/// Who swaps, who receives, along which path and through which router.
#[derive(Debug, Clone, PartialEq, Eq)]
pub struct SwapContext {
    pub signer_address: Address,
    pub output_recipient: Address,
    pub router_address: Address,
    pub path_id: String,
}

/// A transaction that lacks only what the sender decides: gas price, gas limit
/// and nonce are unset.
#[derive(Debug, Clone, PartialEq, Eq)]
pub struct BaseTransaction {
    pub input: Vec<u8>,
    pub value: U256,
    pub to: Address,
    pub from: Address,
    pub gas_price: Option<u128>,
    pub gas_limit: Option<u64>,
    pub nonce: Option<u64>,
}

impl SwapContext {
    /// The context of one swap.
    pub fn new(
        signer_address: Address,
        output_recipient: Address,
        router_address: Address,
        path_id: String,
    ) -> (r: SwapContext)
        ensures
            r == (SwapContext { signer_address, output_recipient, router_address, path_id }),
    {
        SwapContext { signer_address, output_recipient, router_address, path_id }
    }

    /// The account that signs and sends the swap.
    pub fn signer_address(&self) -> (r: Address)
        ensures
            r == self.signer_address,
    {
        self.signer_address
    }

    /// The account that receives what the swap gives out.
    pub fn output_recipient(&self) -> (r: Address)
        ensures
            r == self.output_recipient,
    {
        self.output_recipient
    }

    /// The contract that carries out the swap.
    pub fn router_address(&self) -> (r: Address)
        ensures
            r == self.router_address,
    {
        self.router_address
    }

    /// The identifier of the quoted path.
    pub fn path_id(&self) -> (r: &str)
        ensures
            r@ == self.path_id@,
    {
        self.path_id.as_str()
    }
}

} // verus!
