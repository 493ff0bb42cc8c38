//! The failures that an operation of the client can end with.

use vstd::prelude::*;

verus! {

/// How a request to one endpoint failed.
#[derive(Clone, Copy, Debug, PartialEq, Eq, Structural)]
pub enum FailureKind {
    /// The request could not be sent, or no response arrived.
    TransportError,
    /// The endpoint answered 429.
    RateLimited,
    /// The endpoint answered with a status from 500 to 599.
    ServerError,
    /// The endpoint answered with a status from 400 to 499 other than 429.
    ClientError,
    /// The endpoint answered with a status outside 200 to 299 that is none of
    /// the above.
    UnexpectedStatus,
}

/// A failed request to one endpoint.
#[derive(Clone, Debug, PartialEq, Eq)]
pub struct HttpFailure {
    pub kind: FailureKind,
    /// The status of the response; `None` where there was no response.
    pub status: Option<u16>,
    /// The endpoint that was asked.
    pub url: String,
    /// The body of the response, or what the transport said of its failure.
    pub text: String,
}

/// What is wrong with the configuration.
#[derive(Clone, Copy, Debug, PartialEq, Eq, Structural)]
pub enum ConfigurationIssue {
    /// The endpoint registry is empty.
    NoEndpoints,
    /// The tip floor has no such percentile.
    UnsupportedPercentile(u8),
}

/// What is wrong with a response.
#[derive(Clone, Debug, PartialEq, Eq)]
pub enum ProtocolIssue {
    /// The envelope holds neither a result nor an error.
    MissingResult,
    /// The body is no envelope of the expected shape; the text says why.
    Malformed(String),
    /// A status response in neither of the two known shapes; the text is the
    /// body.
    UnrecognizedStatuses(String),
    /// The tip floor came back without a sample.
    EmptyTipFloor,
    /// The gateway named no tip account.
    NoTipAccounts,
}

/// The error object of a response envelope. Code and data are kept as they
/// came and never interpreted.
#[derive(Clone, Debug, PartialEq, Eq)]
pub struct JsonRpcError {
    pub code: i64,
    pub message: String,
    /// The auxiliary data, as JSON text.
    pub data: Option<String>,
}

/// The single failure that a top-level operation ends with.
#[derive(Clone, Debug, PartialEq, Eq)]
pub enum BundleError {
    /// Fatal; never retried.
    ConfigurationError(ConfigurationIssue),
    /// An endpoint refused the request as such. The same request would be
    /// refused everywhere, so no other endpoint was asked.
    ClientError(HttpFailure),
    /// Every endpoint failed in a way that may pass; the failure is that of
    /// the last endpoint.
    EndpointsExhausted(HttpFailure),
    /// The response is not what the protocol promises.
    ProtocolError(ProtocolIssue),
    /// The gateway answered with an error of its own.
    RpcError(JsonRpcError),
}

impl BundleError {
    /// The text that came from the other side with this failure: the body of
    /// an HTTP failure, the transport's words, the gateway's error message, or
    /// the text of a response that could not be read. Empty for a failure that
    /// carries no such text.
    pub open spec fn gateway_text(self) -> Seq<char> {
        match self {
            BundleError::ConfigurationError(_) => Seq::empty(),
            BundleError::ClientError(failure) => failure.text@,
            BundleError::EndpointsExhausted(failure) => failure.text@,
            BundleError::ProtocolError(ProtocolIssue::Malformed(text)) => text@,
            BundleError::ProtocolError(ProtocolIssue::UnrecognizedStatuses(text)) => text@,
            BundleError::ProtocolError(_) => Seq::empty(),
            BundleError::RpcError(error) => error.message@,
        }
    }

    /// The text that came from the other side with this failure.
    pub fn text(&self) -> (text: &str)
        ensures
            text@ == self.gateway_text(),
    {
        proof {
            reveal_strlit("");
        }
        let text = match self {
            BundleError::ConfigurationError(_) => "",
            BundleError::ClientError(failure) => failure.text.as_str(),
            BundleError::EndpointsExhausted(failure) => failure.text.as_str(),
            BundleError::ProtocolError(ProtocolIssue::Malformed(text)) => text.as_str(),
            BundleError::ProtocolError(ProtocolIssue::UnrecognizedStatuses(text)) => text.as_str(),
            BundleError::ProtocolError(_) => "",
            BundleError::RpcError(error) => error.message.as_str(),
        };
        assert(text@ =~= self.gateway_text());
        text
    }
}

} // verus!
