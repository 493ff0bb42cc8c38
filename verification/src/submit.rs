//! The submission strategy: a bundle goes out in base64 first, and once more
//! in base58 where the gateway says that it could not decode a transaction.
//!
//! Like the dispatcher, a submission sends nothing. It hands out the request
//! to make and is told how the call ended.

use crate::encoding::{all_encodable, encode_all, encoded_all, Encoding};
use crate::envelope::{call_with_list, JsonRpcRequest};
use crate::error::BundleError;
use crate::text::{contains, str_contains};
use vstd::prelude::*;

verus! {

/// Whether a failure says that the gateway could not decode a submitted
/// transaction: the text that came with it holds one of the two phrases by
/// which gateways say so.
pub open spec fn is_decode_rejection(error: BundleError) -> bool {
    contains(error.gateway_text(), "could not be decoded"@) || contains(
        error.gateway_text(),
        "transaction #0"@,
    )
}

/// What a submission does when a call has ended.
#[derive(Clone, Copy, Debug, PartialEq, Eq, Structural)]
pub enum SubmitDecision {
    /// The submission ends with the call's own outcome.
    Finish,
    /// The bundle goes out once more, in the given encoding.
    Resubmit(Encoding),
}

/// The decision after a call that carried the bundle in `encoding` has ended
/// with `outcome`: a decode rejection of the base64 form is answered with the
/// base58 form; everything else ends the submission.
pub open spec fn submit_decision(
    encoding: Encoding,
    outcome: Result<String, BundleError>,
) -> SubmitDecision {
    match outcome {
        Ok(_) => SubmitDecision::Finish,
        Err(error) => if encoding == Encoding::Base64 && is_decode_rejection(error) {
            SubmitDecision::Resubmit(Encoding::Base58)
        } else {
            SubmitDecision::Finish
        },
    }
}

/// A bundle goes out at most twice: the call that follows a resubmission ends
/// the submission, whatever its outcome.
pub proof fn lemma_at_most_one_resubmission(
    first: Result<String, BundleError>,
    second: Result<String, BundleError>,
)
    ensures
        submit_decision(Encoding::Base64, first) matches SubmitDecision::Resubmit(encoding)
            ==> encoding == Encoding::Base58 && submit_decision(encoding, second)
            == SubmitDecision::Finish,
{
}

/// Whether a failure says that the gateway could not decode a submitted
/// transaction.
pub fn decode_rejected(error: &BundleError) -> (rejected: bool)
    ensures
        rejected == is_decode_rejection(*error),
{
    let text = error.text();
    str_contains(text, "could not be decoded") || str_contains(text, "transaction #0")
}

/// A submission in progress: the transactions of the bundle, as raw bytes in
/// the order of the bundle, and the encoding in which the call under way
/// carries them.
#[derive(Debug, PartialEq, Eq)]
pub struct Submission {
    blobs: Vec<Vec<u8>>,
    encoding: Encoding,
}

/// What a submission in progress is, as plain values.
pub ghost struct SubmissionView {
    pub blobs: Seq<Vec<u8>>,
    pub encoding: Encoding,
}

impl View for Submission {
    type V = SubmissionView;

    closed spec fn view(&self) -> SubmissionView {
        SubmissionView { blobs: self.blobs@, encoding: self.encoding }
    }
}

/// What follows the end of a call.
#[derive(Debug, PartialEq, Eq)]
pub enum SubmitStep {
    /// Make a whole new call, over all endpoints, with this request.
    Resubmit { request: JsonRpcRequest, next: Submission },
    /// The submission is over: the bundle's identifier, or the failure of the
    /// last call as it came.
    Done(Result<String, BundleError>),
}

impl Submission {
    #[verifier::type_invariant]
    spec fn well_formed(self) -> bool {
        all_encodable(self.blobs@)
    }

    /// Begins the submission of a bundle: the first call carries the
    /// transactions in base64.
    pub fn start(blobs: Vec<Vec<u8>>) -> (r: (Submission, JsonRpcRequest))
        requires
            all_encodable(blobs@),
        ensures
            r.0@ == (SubmissionView { blobs: blobs@, encoding: Encoding::Base64 }),
            r.1@ == call_with_list("sendBundle"@, encoded_all(Encoding::Base64, blobs@)),
    {
        let request = JsonRpcRequest::send_bundle(encode_all(&blobs, Encoding::Base64));
        (Submission { blobs, encoding: Encoding::Base64 }, request)
    }

    /// The encoding in which the call under way carries the bundle.
    pub fn encoding(&self) -> (encoding: Encoding)
        ensures
            encoding == self@.encoding,
            all_encodable(self@.blobs),
    {
        proof {
            use_type_invariant(self);
        }
        self.encoding
    }

    /// Takes the outcome of the call under way, the bundle's identifier or
    /// the failure, and says what follows.
    pub fn on_outcome(self, outcome: Result<String, BundleError>) -> (step: SubmitStep)
        ensures
            match submit_decision(self@.encoding, outcome) {
                SubmitDecision::Finish => step == SubmitStep::Done(outcome),
                SubmitDecision::Resubmit(encoding) => {
                    &&& step matches SubmitStep::Resubmit { request, next }
                    &&& request@ == call_with_list(
                        "sendBundle"@,
                        encoded_all(encoding, self@.blobs),
                    )
                    &&& next@ == (SubmissionView { blobs: self@.blobs, encoding })
                },
            },
    {
        proof {
            use_type_invariant(&self);
        }
        let resubmit = match &outcome {
            Ok(_) => false,
            Err(error) => match self.encoding {
                Encoding::Base64 => decode_rejected(error),
                Encoding::Base58 => false,
            },
        };
        if resubmit {
            let request = JsonRpcRequest::send_bundle(encode_all(&self.blobs, Encoding::Base58));
            SubmitStep::Resubmit {
                request,
                next: Submission { blobs: self.blobs, encoding: Encoding::Base58 },
            }
        } else {
            SubmitStep::Done(outcome)
        }
    }
}

} // verus!
