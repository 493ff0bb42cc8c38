//! The client: an endpoint registry, and for each operation what to send and
//! how to go on from what comes back.
//!
//! The client holds no connection. Whoever owns one asks the client what to
//! do, does it, and reports back.

use crate::dispatch::{first_attempt, Dispatch};
use crate::encoding::{all_encodable, encoded_all, Encoding};
use crate::endpoints::{canonical_urls, normalize_urls};
use crate::envelope::{call_with_list, call_without_params, JsonRpcRequest};
use crate::error::{BundleError, ConfigurationIssue};
use crate::pacing::{jito_min_interval_ms_for_method, min_interval_ms, IntervalOverrides};
use crate::poll::{LandingPoll, LandingPollView};
use crate::submit::{Submission, SubmissionView};
use crate::text::{clone_strings, texts};
use crate::tip_floor::{get_tip_floor_lamports, tip_floor_lamports, TipFloor};
use vstd::prelude::*;

verus! {

/// A client of a bundle gateway that is reached at one or more endpoints.
#[derive(Clone, Debug)]
pub struct JitoBundleClient {
    urls: Vec<String>,
}

impl JitoBundleClient {
    /// The registry: the canonical addresses of the endpoints, in the order
    /// in which they are tried.
    pub closed spec fn registry(&self) -> Seq<String> {
        self.urls@
    }

    /// A client for the configured addresses. Each may be a full bundles
    /// address or the address of a host, to which the bundles path is
    /// appended; entries that name nothing are dropped. The order of the
    /// entries is kept: it is the order of fallback.
    pub fn new(urls: Vec<String>) -> (client: JitoBundleClient)
        ensures
            texts(client.registry()) == canonical_urls(texts(urls@)),
    {
        JitoBundleClient { urls: normalize_urls(&urls) }
    }

    /// The registry.
    pub fn urls(&self) -> (urls: &Vec<String>)
        ensures
            urls@ == self.registry(),
    {
        &self.urls
    }

    /// Begins a call of `method`: the first attempt is at the first endpoint
    /// of the registry, and every request keeps the method's interval. An
    /// empty registry is found here, not when the client is made, and is a
    /// configuration error.
    pub fn post_jsonrpc_with_fallback(&self, method: &str, overrides: &IntervalOverrides) -> (r:
        Result<Dispatch, BundleError>)
        ensures
            self.registry().len() == 0 ==> r == Err::<Dispatch, BundleError>(
                BundleError::ConfigurationError(ConfigurationIssue::NoEndpoints),
            ),
            self.registry().len() > 0 ==> r is Ok && r->Ok_0@ == first_attempt(
                self.registry(),
                min_interval_ms(method@, *overrides),
            ),
    {
        Dispatch::start(
            clone_strings(&self.urls),
            jito_min_interval_ms_for_method(method, overrides),
        )
    }

    /// The request that asks the gateway for its tip accounts.
    pub fn get_tip_accounts(&self) -> (request: JsonRpcRequest)
        ensures
            request@ == call_without_params("getTipAccounts"@),
    {
        JsonRpcRequest::get_tip_accounts()
    }

    /// Begins the submission of a bundle, given the raw bytes of its
    /// transactions in the order of the bundle. The first call carries them
    /// in base64.
    pub fn send_bundle(&self, txs_bincode: Vec<Vec<u8>>) -> (r: (Submission, JsonRpcRequest))
        requires
            all_encodable(txs_bincode@),
        ensures
            r.0@ == (SubmissionView { blobs: txs_bincode@, encoding: Encoding::Base64 }),
            r.1@ == call_with_list("sendBundle"@, encoded_all(Encoding::Base64, txs_bincode@)),
    {
        Submission::start(txs_bincode)
    }

    /// Begins the submission of a bundle, as `send_bundle` does.
    pub fn send_bundle_bincode_txs(&self, txs_bincode: Vec<Vec<u8>>) -> (r: (
        Submission,
        JsonRpcRequest,
    ))
        requires
            all_encodable(txs_bincode@),
        ensures
            r.0@ == (SubmissionView { blobs: txs_bincode@, encoding: Encoding::Base64 }),
            r.1@ == call_with_list("sendBundle"@, encoded_all(Encoding::Base64, txs_bincode@)),
    {
        Submission::start(txs_bincode)
    }

    /// The request that asks for the status of the given bundles.
    pub fn get_bundle_statuses(&self, bundle_ids: Vec<String>) -> (request: JsonRpcRequest)
        ensures
            request@ == call_with_list("getBundleStatuses"@, texts(bundle_ids@)),
    {
        JsonRpcRequest::get_bundle_statuses(bundle_ids)
    }

    /// Begins to wait, at `now_ms` and for at most `timeout_ms`, for a bundle
    /// to land.
    pub fn wait_for_landed_signatures(&self, bundle_id: &str, timeout_ms: u64, now_ms: u64) -> (poll:
        LandingPoll)
        ensures
            poll@ == (LandingPollView { bundle_id: bundle_id@, started_ms: now_ms, timeout_ms }),
    {
        LandingPoll::start(bundle_id.to_owned(), timeout_ms, now_ms)
    }

    /// The tip, in lamports, that a tip-floor response stands for.
    pub fn get_tip_floor_lamports(
        &self,
        samples: &Vec<TipFloor>,
        percentile: u8,
        use_ema: bool,
        min_lamports: u64,
        max_lamports: u64,
    ) -> (r: Result<u64, BundleError>)
        ensures
            r == tip_floor_lamports(samples@, percentile, use_ema, min_lamports, max_lamports),
    {
        get_tip_floor_lamports(samples, percentile, use_ema, min_lamports, max_lamports)
    }
}

} // verus!
