//! What a liquidator decides around a bundle: which account gets the tip,
//! what the bundle holds, and whether the liquidation is also sent the plain
//! way after a while.

use crate::error::{BundleError, ConfigurationIssue, ProtocolIssue};
use vstd::prelude::*;

verus! {

/// Where the tip account comes from.
#[derive(Debug, PartialEq, Eq)]
pub enum TipAccountSource {
    /// An account is known: the configured one, else the liquidator's own.
    Known(String),
    /// No account is known: the gateway has to be asked for its tip accounts.
    AskGateway,
}

/// The source of the tip account: the configured account comes before the
/// liquidator's own, and the gateway is asked only where there is neither.
pub open spec fn tip_account_source(
    configured: Option<String>,
    own: Option<String>,
) -> TipAccountSource {
    match configured {
        Some(account) => TipAccountSource::Known(account),
        None => match own {
            Some(account) => TipAccountSource::Known(account),
            None => TipAccountSource::AskGateway,
        },
    }
}

/// The tip account among those that the gateway named: the first. A gateway
/// that names none breaks the protocol.
pub open spec fn first_of(accounts: Seq<String>) -> Result<String, BundleError> {
    if accounts.len() > 0 {
        Ok(accounts[0])
    } else {
        Err(BundleError::ProtocolError(ProtocolIssue::NoTipAccounts))
    }
}

/// Whether bundles can be submitted at all with the configured endpoints: not
/// without any. This is found before anything is built or sent.
pub fn check_endpoints(configured: &Vec<String>) -> (r: Result<(), BundleError>)
    ensures
        r == if configured@.len() == 0 {
            Err::<(), BundleError>(BundleError::ConfigurationError(ConfigurationIssue::NoEndpoints))
        } else {
            Ok::<(), BundleError>(())
        },
{
    if configured.len() == 0 {
        Err(BundleError::ConfigurationError(ConfigurationIssue::NoEndpoints))
    } else {
        Ok(())
    }
}

/// Where the tip account comes from.
pub fn choose_tip_account(configured: Option<String>, own: Option<String>) -> (source:
    TipAccountSource)
    ensures
        source == tip_account_source(configured, own),
{
    match configured {
        Some(account) => TipAccountSource::Known(account),
        None => match own {
            Some(account) => TipAccountSource::Known(account),
            None => TipAccountSource::AskGateway,
        },
    }
}

/// The tip account among those that the gateway named.
pub fn first_tip_account(accounts: Vec<String>) -> (r: Result<String, BundleError>)
    ensures
        r == first_of(accounts@),
{
    let mut accounts = accounts;
    if accounts.len() > 0 {
        Ok(accounts.swap_remove(0))
    } else {
        Err(BundleError::ProtocolError(ProtocolIssue::NoTipAccounts))
    }
}

/// The bundle of a liquidation: the liquidation first, the tip after it, so
/// that the tip is paid only where the liquidation went through.
pub fn bundle_payload(liquidation: Vec<u8>, tip: Vec<u8>) -> (bundle: Vec<Vec<u8>>)
    ensures
        bundle@ == seq![liquidation, tip],
{
    let mut bundle: Vec<Vec<u8>> = Vec::new();
    bundle.push(liquidation);
    bundle.push(tip);
    bundle
}

/// After how many milliseconds the liquidation is also sent the plain way,
/// whatever became of the bundle: after the configured delay, and not at all
/// where that is zero.
pub fn rpc_fallback_delay(delay_ms: u64) -> (r: Option<u64>)
    ensures
        r == if delay_ms == 0 {
            None
        } else {
            Some(delay_ms)
        },
{
    if delay_ms == 0 {
        None
    } else {
        Some(delay_ms)
    }
}

} // verus!
