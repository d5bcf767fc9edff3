use vstd::prelude::*;

verus! {

/// Why a call of the client did not produce a value.
#[derive(Debug, Clone, PartialEq, Eq)]
pub enum ClientError {
    /// The transport could not be built; holds the transport's message.
    TransportInit(String),
    /// A header name or value cannot be sent; holds the header's name.
    HeaderEncoding(String),
    /// The transport could not complete the exchange; holds its message.
    Network(String),
    /// The exchange completed with a status outside 2xx; holds the response
    /// text as it came.
    RequestFailed(String),
}

} // verus!
