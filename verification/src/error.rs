//! The ways in which an operation of the client can fail.

use vstd::prelude::*;

verus! {

/// A failed operation. Every variant carries a message for the caller.
#[derive(Debug, Clone, PartialEq, Eq)]
pub enum OdosError {
    /// The transport could not be set up.
    ClientInit(String),
    /// The quote endpoint answered with a status outside 200..=299.
    QuoteRequest(String),
    /// The assemble endpoint answered with a status outside 200..=299.
    TransactionAssembly(String),
    /// The network failed, or a reply's body could not be read.
    Transport(String),
    /// A reply's body is no JSON, or JSON of another shape than expected.
    Decoding(String),
    /// The call data of an assembled transaction is no hexadecimal text.
    Hex(String),
}

impl OdosError {
    /// The message that the error carries.
    pub open spec fn message_text(&self) -> Seq<char> {
        match self {
            OdosError::ClientInit(m) => m@,
            OdosError::QuoteRequest(m) => m@,
            OdosError::TransactionAssembly(m) => m@,
            OdosError::Transport(m) => m@,
            OdosError::Decoding(m) => m@,
            OdosError::Hex(m) => m@,
        }
    }

    /// A quote-request error with the given message.
    pub fn quote_request_error(message: String) -> (r: OdosError)
        ensures
            r == OdosError::QuoteRequest(message),
    {
        OdosError::QuoteRequest(message)
    }

    /// A transaction-assembly error with the given message.
    pub fn transaction_assembly_error(message: String) -> (r: OdosError)
        ensures
            r == OdosError::TransactionAssembly(message),
    {
        OdosError::TransactionAssembly(message)
    }

    /// A copy of the message that the error carries.
    pub fn message(&self) -> (r: String)
        ensures
            r@ == self.message_text(),
    {
        match self {
            OdosError::ClientInit(m) => m.clone(),
            OdosError::QuoteRequest(m) => m.clone(),
            OdosError::TransactionAssembly(m) => m.clone(),
            OdosError::Transport(m) => m.clone(),
            OdosError::Decoding(m) => m.clone(),
            OdosError::Hex(m) => m.clone(),
        }
    }
}

} // verus!
