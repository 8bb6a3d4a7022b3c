//! The client of the smart order routing API.
//!
//! Every operation has two halves. One says which POST to send. The other
//! takes what the transport made of that POST, either a reply or the message
//! of a failure that outlasted the transport's retries, and decides the
//! result.

use vstd::prelude::*;
use crate::address::{address_text, Address};
use crate::api::{
    AssembleRequest, BaseTransaction, HttpReply, PostRequest, SingleQuoteResponse, SwapContext,
    TransactionData,
};
use crate::config::ClientConfig;
use crate::error::OdosError;
use crate::hex::{hex_bytes, is_hex_text};
use crate::json::{document_of, JsonValue};
use crate::status::{is_success, status_is_success, status_string, status_text};
use crate::text::{decimal_text, lemma_occurs_in_middle, occurs_in};
use crate::value::parsed_value;

verus! {

/// The client: it owns the settings of its transport and nothing that changes.
#[derive(Debug, Clone)]
pub struct OdosSorV2 {
    config: ClientConfig,
}

/// The message of an error status: the status as text, then the detail.
pub open spec fn api_error_text(status: u16, detail: Seq<char>) -> Seq<char> {
    "API error (status: "@ + status_text(status) + "): "@ + detail
}

/// The message for a reply of error status: its detail is the reply's body,
/// or `fallback` where the body could not be read.
pub open spec fn reply_error_text(reply: HttpReply, fallback: Seq<char>) -> Seq<char> {
    api_error_text(reply.status, reply_detail(reply, fallback))
}

/// The body of a reply, or `fallback` where the body could not be read.
pub open spec fn reply_detail(reply: HttpReply, fallback: Seq<char>) -> Seq<char> {
    match reply.body {
        Some(body) => body@,
        None => fallback,
    }
}

/// The text of the member of an object under `key`, where it is a string.
pub open spec fn text_of(object: JsonValue, key: Seq<char>) -> Option<Seq<char>> {
    match object.member(key) {
        Some(item) => item.text(),
        None => None,
    }
}

/// The identifier of the quoted path: the text of a document's `pathId`.
pub open spec fn path_id_of(document: JsonValue) -> Option<Seq<char>> {
    text_of(document, "pathId"@)
}

/// `result` is what reading a quote makes of a document.
pub open spec fn quote_outcome(
    document: JsonValue,
    result: Result<SingleQuoteResponse, OdosError>,
) -> bool {
    match path_id_of(document) {
        Some(path_id) => result matches Ok(quote) && quote.path_id@ == path_id && quote.document
            == document,
        None => result matches Err(e) && e is Decoding,
    }
}

/// The call data and the value that a document holds under `transaction`, as
/// the texts of its members `data` and `value`; none unless both are strings.
pub open spec fn transaction_of(document: JsonValue) -> Option<(Seq<char>, Seq<char>)> {
    match document.member("transaction"@) {
        Some(transaction) => match (
            text_of(transaction, "data"@),
            text_of(transaction, "value"@),
        ) {
            (Some(data), Some(value)) => Some((data, value)),
            _ => None,
        },
        None => None,
    }
}

/// The call data and the value that the assemble endpoint's answer holds:
/// those of the document that the body of a reply of success spells.
pub open spec fn assembled_fields(outcome: Result<HttpReply, String>) -> Option<
    (Seq<char>, Seq<char>),
> {
    match outcome {
        Ok(reply) => if is_success(reply.status) {
            match reply.body {
                Some(body) => match document_of(body@) {
                    Some(document) => transaction_of(document),
                    None => None,
                },
                None => None,
            }
        } else {
            None
        },
        Err(_) => None,
    }
}

/// `error` is the one that assembly fails with on an answer without fields.
pub open spec fn assembly_failure(outcome: Result<HttpReply, String>, error: OdosError) -> bool {
    match outcome {
        Err(message) => error == OdosError::Transport(message),
        Ok(reply) => if !is_success(reply.status) {
            error is TransactionAssembly && error.message_text() == reply_error_text(
                reply,
                "Failed to get error message"@,
            )
        } else if reply.body is None {
            error is Transport && error.message_text() == "the body could not be read"@
        } else {
            error is Decoding
        },
    }
}

/// `result` is what building a transaction makes of the given fields.
pub open spec fn base_outcome(
    swap: SwapContext,
    data: Seq<char>,
    value: Seq<char>,
    result: Result<BaseTransaction, OdosError>,
) -> bool {
    if !is_hex_text(data) {
        result matches Err(e) && e is Hex
    } else if parsed_value(value) is None {
        result matches Err(e) && e is Decoding && e.message_text() == "value is not a number"@
    } else {
        result matches Ok(t) && t.input@ == hex_bytes(data) && Some(t.value@) == parsed_value(
            value,
        ) && t.to == swap.router_address && t.from == swap.signer_address && t.gas_price
            is None && t.gas_limit is None && t.nonce is None
    }
}

/// The message of an error status holds the status code, in decimal, and the
/// detail it was made with.
pub proof fn lemma_error_text_holds_status_and_detail(status: u16, detail: Seq<char>)
    ensures
        occurs_in(decimal_text(status as nat), api_error_text(status, detail)),
        occurs_in(detail, api_error_text(status, detail)),
{
    let head = "API error (status: "@;
    let code = decimal_text(status as nat);
    let shown = status_text(status);
    let phrase = shown.subrange(code.len() as int, shown.len() as int);
    let mid = "): "@;
    assert(shown =~= code + phrase);
    lemma_occurs_in_middle(head, code, phrase + mid + detail);
    assert(head + code + (phrase + mid + detail) =~= api_error_text(status, detail));
    lemma_occurs_in_middle(head + shown + mid, detail, Seq::<char>::empty());
    assert(head + shown + mid + detail + Seq::<char>::empty() =~= api_error_text(status, detail));
}

fn api_error_message(status: u16, detail: &str) -> (r: String)
    ensures
        r@ == api_error_text(status, detail@),
{
    let mut message = String::from_str("API error (status: ");
    let shown = status_string(status);
    message.append(shown.as_str());
    message.append("): ");
    message.append(detail);
    message
}

fn reply_error_message(reply: HttpReply, fallback: &str) -> (r: String)
    ensures
        r@ == reply_error_text(reply, fallback@),
{
    match reply.body {
        Some(body) => api_error_message(reply.status, body.as_str()),
        None => api_error_message(reply.status, fallback),
    }
}

fn text_member<'a>(object: &'a JsonValue, key: &str) -> (r: Option<&'a String>)
    ensures
        r is Some <==> text_of(*object, key@) is Some,
        r matches Some(s) ==> Some(s@) == text_of(*object, key@),
{
    match object.get(key) {
        Some(item) => item.as_text(),
        None => None,
    }
}

/// Reads a document as a quote. A document without a `pathId` that is a
/// string is a decoding error.
pub fn quote_response(document: JsonValue) -> (r: Result<SingleQuoteResponse, OdosError>)
    ensures
        quote_outcome(document, r),
{
    let path_id = match text_member(&document, "pathId") {
        Some(path_id) => path_id.clone(),
        None => {
            return Err(OdosError::Decoding(String::from_str("missing text field `pathId`")));
        },
    };
    Ok(SingleQuoteResponse { path_id, document })
}

/// Takes the transaction's fields out of an assembly document. Whatever else
/// the document holds is passed over. A document without a `transaction`
/// whose `data` and `value` are strings is a decoding error.
pub fn transaction_data(document: &JsonValue) -> (r: Result<TransactionData, OdosError>)
    ensures
        r is Ok <==> transaction_of(*document) is Some,
        r matches Ok(t) ==> Some((t.data@, t.value@)) == transaction_of(*document),
        r matches Err(e) ==> e is Decoding,
{
    let transaction = match document.get("transaction") {
        Some(transaction) => transaction,
        None => {
            return Err(OdosError::Decoding(String::from_str("missing field `transaction`")));
        },
    };
    let data = match text_member(transaction, "data") {
        Some(data) => data,
        None => {
            return Err(OdosError::Decoding(String::from_str("missing text field `data`")));
        },
    };
    let value = match text_member(transaction, "value") {
        Some(value) => value,
        None => {
            return Err(OdosError::Decoding(String::from_str("missing text field `value`")));
        },
    };
    Ok(TransactionData { data: data.clone(), value: value.clone() })
}

/// Builds the transaction of an assembled swap: the decoded call data as
/// input, the parsed value, the swap's router as destination and its signer
/// as sender. Call data that is no hexadecimal text is a hex error; after
/// that, a value that is no number is a decoding error.
pub fn base_transaction(swap: &SwapContext, transaction: &TransactionData) -> (r: Result<
    BaseTransaction,
    OdosError,
>)
    ensures
        base_outcome(*swap, transaction.data@, transaction.value@, r),
{
    let input = match crate::hex::decode(transaction.data.as_str()) {
        Ok(input) => input,
        Err(message) => {
            return Err(OdosError::Hex(message));
        },
    };
    let value = match crate::value::parse_value(transaction.value.as_str()) {
        Some(value) => value,
        None => {
            return Err(OdosError::Decoding(String::from_str("value is not a number")));
        },
    };
    Ok(
        BaseTransaction {
            input,
            value,
            to: swap.router_address,
            from: swap.signer_address,
            gas_price: None,
            gas_limit: None,
            nonce: None,
        },
    )
}

impl OdosSorV2 {
    /// The settings that the client was made with.
    pub closed spec fn settings(&self) -> ClientConfig {
        self.config
    }

    /// A client with the standard settings.
    pub fn new() -> (r: Result<OdosSorV2, OdosError>)
        ensures
            r matches Ok(client) && client.settings() == ClientConfig::standard(),
    {
        Ok(OdosSorV2 { config: ClientConfig::default() })
    }

    /// A client with the given settings.
    pub fn with_config(config: ClientConfig) -> (r: Result<OdosSorV2, OdosError>)
        ensures
            r matches Ok(client) && client.settings() == config,
    {
        Ok(OdosSorV2 { config })
    }

    /// The settings of the client.
    pub fn config(&self) -> (r: &ClientConfig)
        ensures
            *r == self.settings(),
    {
        &self.config
    }

    /// The POST that asks for a quote.
    pub fn quote_post(&self) -> (r: PostRequest)
        ensures
            r.url@ == "https://api.odos.xyz/sor/quote/v2"@,
            r.header_name@ == "accept"@,
            r.header_value@ == "application/json"@,
    {
        PostRequest {
            url: String::from_str("https://api.odos.xyz/sor/quote/v2"),
            header_name: String::from_str("accept"),
            header_value: String::from_str("application/json"),
        }
    }

    /// The POST that asks for an assembly.
    pub fn assemble_post(&self) -> (r: PostRequest)
        ensures
            r.url@ == "https://api.odos.xyz/sor/assemble"@,
            r.header_name@ == "Content-Type"@,
            r.header_value@ == "application/json"@,
    {
        PostRequest {
            url: String::from_str("https://api.odos.xyz/sor/assemble"),
            header_name: String::from_str("Content-Type"),
            header_value: String::from_str("application/json"),
        }
    }

    /// Judges the answer to a quote request. The body of a reply of success
    /// is read as a JSON document, and that document as a quote. A reply of
    /// any other status is a quote-request error whose message holds the
    /// status and the body.
    pub fn get_swap_quote(&self, outcome: Result<HttpReply, String>) -> (r: Result<
        SingleQuoteResponse,
        OdosError,
    >)
        ensures
            match outcome {
                Err(message) => r == Err::<SingleQuoteResponse, OdosError>(
                    OdosError::Transport(message),
                ),
                Ok(reply) => if is_success(reply.status) {
                    match reply.body {
                        Some(body) => match document_of(body@) {
                            Some(document) => quote_outcome(document, r),
                            None => r matches Err(e) && e is Decoding,
                        },
                        None => r matches Err(e) && e is Transport && e.message_text()
                            == "the body could not be read"@,
                    }
                } else {
                    &&& r matches Err(e) && e is QuoteRequest && e.message_text()
                        == reply_error_text(reply, "Unknown error"@)
                    &&& occurs_in(decimal_text(reply.status as nat), r.unwrap_err().message_text())
                    &&& reply.body matches Some(body) ==> occurs_in(
                        body@,
                        r.unwrap_err().message_text(),
                    )
                },
            },
    {
        match outcome {
            Err(message) => Err(OdosError::Transport(message)),
            Ok(reply) => {
                if status_is_success(reply.status) {
                    match reply.body {
                        Some(body) => match crate::json::parse(body.as_str()) {
                            Ok(document) => quote_response(document),
                            Err(message) => Err(OdosError::Decoding(message)),
                        },
                        None => Err(
                            OdosError::Transport(String::from_str("the body could not be read")),
                        ),
                    }
                } else {
                    proof {
                        lemma_error_text_holds_status_and_detail(
                            reply.status,
                            reply_detail(reply, "Unknown error"@),
                        );
                    }
                    Err(OdosError::quote_request_error(reply_error_message(reply, "Unknown error")))
                }
            },
        }
    }

    /// Hands on the answer to an assembly request. A reply is handed on
    /// whatever its status; only a failure of the transport is an error.
    pub fn get_assemble_response(&self, outcome: Result<HttpReply, String>) -> (r: Result<
        HttpReply,
        OdosError,
    >)
        ensures
            match outcome {
                Ok(reply) => r == Ok::<HttpReply, OdosError>(reply),
                Err(message) => r == Err::<HttpReply, OdosError>(OdosError::Transport(message)),
            },
    {
        match outcome {
            Ok(reply) => Ok(reply),
            Err(message) => Err(OdosError::Transport(message)),
        }
    }

    /// The request that asks for the transaction of a quoted path: for the
    /// signer, to the given recipient, and not as a simulation.
    pub fn assemble_request(
        &self,
        signer_address: Address,
        output_recipient: Address,
        path_id: &str,
    ) -> (r: AssembleRequest)
        ensures
            r.user_addr@ == address_text(signer_address.bytes@),
            r.path_id@ == path_id@,
            r.simulate == false,
            r.receiver == Some(output_recipient),
    {
        AssembleRequest {
            user_addr: signer_address.to_checksum(),
            path_id: String::from_str(path_id),
            simulate: false,
            receiver: Some(output_recipient),
        }
    }

    /// Judges the answer to an assembly request. A reply of success is read
    /// as a JSON document, and the transaction's fields are taken out of it.
    /// A reply of any other status is a transaction-assembly error whose
    /// message holds the status and the body.
    pub fn assemble_tx_data(&self, outcome: Result<HttpReply, String>) -> (r: Result<
        TransactionData,
        OdosError,
    >)
        ensures
            r is Ok <==> assembled_fields(outcome) is Some,
            r matches Ok(t) ==> Some((t.data@, t.value@)) == assembled_fields(outcome),
            r matches Err(e) ==> assembly_failure(outcome, e),
            match outcome {
                Ok(reply) => !is_success(reply.status) ==> {
                    &&& occurs_in(
                        decimal_text(reply.status as nat),
                        r.unwrap_err().message_text(),
                    )
                    &&& reply.body matches Some(body) ==> occurs_in(
                        body@,
                        r.unwrap_err().message_text(),
                    )
                },
                Err(_) => true,
            },
    {
        let reply = match self.get_assemble_response(outcome) {
            Ok(reply) => reply,
            Err(e) => {
                return Err(e);
            },
        };
        if !status_is_success(reply.status) {
            proof {
                lemma_error_text_holds_status_and_detail(
                    reply.status,
                    reply_detail(reply, "Failed to get error message"@),
                );
            }
            return Err(
                OdosError::transaction_assembly_error(
                    reply_error_message(reply, "Failed to get error message"),
                ),
            );
        }
        let body = match reply.body {
            Some(body) => body,
            None => {
                return Err(OdosError::Transport(String::from_str("the body could not be read")));
            },
        };
        match crate::json::parse(body.as_str()) {
            Ok(document) => transaction_data(&document),
            Err(message) => Err(OdosError::Decoding(message)),
        }
    }

    /// The request that asks for the transaction of the given swap.
    pub fn swap_assemble_request(&self, swap: &SwapContext) -> (r: AssembleRequest)
        ensures
            r.user_addr@ == address_text(swap.signer_address.bytes@),
            r.path_id@ == swap.path_id@,
            r.simulate == false,
            r.receiver == Some(swap.output_recipient),
    {
        self.assemble_request(swap.signer_address(), swap.output_recipient(), swap.path_id())
    }

    /// Judges the answer to the assembly request of a swap, and builds the
    /// swap's transaction from it. Gas price, gas limit and nonce stay unset.
    pub fn build_base_transaction(
        &self,
        swap: &SwapContext,
        outcome: Result<HttpReply, String>,
    ) -> (r: Result<BaseTransaction, OdosError>)
        ensures
            match assembled_fields(outcome) {
                Some((data, value)) => base_outcome(*swap, data, value, r),
                None => r matches Err(e) && assembly_failure(outcome, e),
            },
    {
        match self.assemble_tx_data(outcome) {
            Ok(transaction) => base_transaction(swap, &transaction),
            Err(e) => Err(e),
        }
    }
}

impl Default for OdosSorV2 {
    fn default() -> (r: OdosSorV2)
        ensures
            r.settings() == ClientConfig::standard(),
    {
        OdosSorV2 { config: ClientConfig::default() }
    }
}

} // verus!
