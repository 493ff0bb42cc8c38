//! Bundle statuses: the records of a status response, the two shapes in which
//! gateways send them, and the signatures that a landed bundle reports.

use crate::envelope::{envelope_result, JsonRpcResponse};
use crate::error::{BundleError, ProtocolIssue};
use crate::text::str_equal;
use vstd::prelude::*;

verus! {

/// What a gateway says of one bundle. Every field may be missing. A record
/// without transactions, or with an empty list of them, says that the bundle
/// has not been seen to land yet; it is no failure. A record without an
/// identifier is a record of no bundle that anybody asked for.
#[derive(Clone, Debug, PartialEq, Eq)]
pub struct BundleStatus {
    pub bundle_id: Option<String>,
    /// The signatures of the bundle's transactions that landed.
    pub transactions: Option<Vec<String>>,
    pub slot: Option<u64>,
    pub status: Option<String>,
}

/// The wrapper in which some gateways send the status records. The context
/// is kept as JSON text and never interpreted.
#[derive(Clone, Debug, PartialEq, Eq)]
pub struct BundleStatusesResult {
    pub context: Option<String>,
    pub value: Option<Vec<BundleStatus>>,
}

/// The records that a wrapper holds: none where it holds no list.
pub open spec fn wrapped_records(wrapper: BundleStatusesResult) -> Seq<BundleStatus> {
    match wrapper.value {
        Some(records) => records@,
        None => Seq::empty(),
    }
}

/// The records that a status response stands for. `wrapped` is the response
/// read as an envelope around the wrapper, where it can be read so, and `bare`
/// the response read as an envelope around a plain list of records, where it
/// can be read so; `body` is the response as it came.
///
/// The wrapper shape comes first: where the response has it, it decides
/// alone, failures included. The plain list counts only where the response
/// has not the wrapper shape. A response in neither shape breaks the protocol.
pub open spec fn decoded_statuses(
    wrapped: Option<JsonRpcResponse<BundleStatusesResult>>,
    bare: Option<JsonRpcResponse<Vec<BundleStatus>>>,
    body: String,
) -> Result<Seq<BundleStatus>, BundleError> {
    match wrapped {
        Some(response) => match envelope_result(response) {
            Ok(wrapper) => Ok(wrapped_records(wrapper)),
            Err(error) => Err(error),
        },
        None => match bare {
            Some(response) => match envelope_result(response) {
                Ok(records) => Ok(records@),
                Err(error) => Err(error),
            },
            None => Err(BundleError::ProtocolError(ProtocolIssue::UnrecognizedStatuses(body))),
        },
    }
}

/// Whether a record says that the bundle `bundle_id` has landed: it is a
/// record of that bundle and lists at least one signature.
pub open spec fn reports_landing(record: BundleStatus, bundle_id: Seq<char>) -> bool {
    &&& record.bundle_id is Some
    &&& record.bundle_id->0@ == bundle_id
    &&& record.transactions is Some
    &&& record.transactions->0@.len() > 0
}

/// The signatures that a status response reports as landed for the bundle
/// `bundle_id`: those of the first record that says that the bundle has
/// landed. Records of other bundles, records without an identifier and
/// records without signatures are passed over.
pub open spec fn landed(records: Seq<BundleStatus>, bundle_id: Seq<char>) -> Option<Vec<String>>
    decreases records.len(),
{
    if records.len() == 0 {
        None
    } else if reports_landing(records[0], bundle_id) {
        records[0].transactions
    } else {
        landed(records.drop_first(), bundle_id)
    }
}

/// Records that do not say that the bundle has landed count for nothing:
/// what a response reports is what its records after them report.
pub proof fn lemma_landed_skips(records: Seq<BundleStatus>, bundle_id: Seq<char>, n: int)
    requires
        0 <= n <= records.len(),
        forall|k: int| 0 <= k < n ==> !reports_landing(#[trigger] records[k], bundle_id),
    ensures
        landed(records, bundle_id) == landed(records.skip(n), bundle_id),
    decreases n,
{
    if n == 0 {
        assert(records.skip(0) == records);
    } else {
        let rest = records.drop_first();
        assert forall|k: int| 0 <= k < n - 1 implies !reports_landing(
            #[trigger] rest[k],
            bundle_id,
        ) by {
            assert(rest[k] == records[k + 1]);
        }
        lemma_landed_skips(rest, bundle_id, n - 1);
        assert(rest.skip(n - 1) == records.skip(n));
    }
}

/// Signatures are reported exactly where some record says that the bundle
/// has landed, and they are signatures of such a record.
pub proof fn lemma_landed_is_of_the_bundle(records: Seq<BundleStatus>, bundle_id: Seq<char>)
    ensures
        landed(records, bundle_id) is Some <==> exists|k: int|
            0 <= k < records.len() && reports_landing(#[trigger] records[k], bundle_id),
        landed(records, bundle_id) is Some ==> exists|k: int|
            0 <= k < records.len() && reports_landing(#[trigger] records[k], bundle_id)
                && records[k].transactions == landed(records, bundle_id),
    decreases records.len(),
{
    if records.len() > 0 {
        if reports_landing(records[0], bundle_id) {
        } else {
            let rest = records.drop_first();
            lemma_landed_is_of_the_bundle(rest, bundle_id);
            if landed(rest, bundle_id) is Some {
                let k = choose|k: int|
                    0 <= k < rest.len() && reports_landing(#[trigger] rest[k], bundle_id)
                        && rest[k].transactions == landed(rest, bundle_id);
                assert(records[k + 1] == rest[k]);
            }
            assert forall|k: int|
                0 <= k < records.len() && reports_landing(
                    #[trigger] records[k],
                    bundle_id,
                ) implies landed(rest, bundle_id) is Some by {
                assert(rest[k - 1] == records[k]);
            }
        }
    }
}

/// A list of records stands for itself in both shapes: in the wrapper and as
/// a plain list, with whatever else the envelope and the wrapper hold, the
/// response decodes to the same records.
pub proof fn lemma_both_shapes_decode_alike(
    records: Vec<BundleStatus>,
    context: Option<String>,
    jsonrpc: Option<String>,
    id: Option<u64>,
    other: Option<JsonRpcResponse<Vec<BundleStatus>>>,
    body: String,
)
    ensures
        decoded_statuses(
            Some(
                JsonRpcResponse {
                    jsonrpc,
                    id,
                    result: Some(BundleStatusesResult { context, value: Some(records) }),
                    error: None,
                },
            ),
            other,
            body,
        ) == Ok::<Seq<BundleStatus>, BundleError>(records@),
        decoded_statuses(
            None,
            Some(JsonRpcResponse { jsonrpc, id, result: Some(records), error: None }),
            body,
        ) == Ok::<Seq<BundleStatus>, BundleError>(records@),
{
}

/// The records that a status response stands for.
pub fn decode_bundle_statuses(
    wrapped: Option<JsonRpcResponse<BundleStatusesResult>>,
    bare: Option<JsonRpcResponse<Vec<BundleStatus>>>,
    body: String,
) -> (r: Result<Vec<BundleStatus>, BundleError>)
    ensures
        match r {
            Ok(records) => decoded_statuses(wrapped, bare, body) == Ok::<
                Seq<BundleStatus>,
                BundleError,
            >(records@),
            Err(error) => decoded_statuses(wrapped, bare, body) == Err::<
                Seq<BundleStatus>,
                BundleError,
            >(error),
        },
{
    match wrapped {
        Some(response) => match response.into_result() {
            Ok(wrapper) => match wrapper.value {
                Some(records) => Ok(records),
                None => Ok(Vec::new()),
            },
            Err(error) => Err(error),
        },
        None => match bare {
            Some(response) => response.into_result(),
            None => Err(BundleError::ProtocolError(ProtocolIssue::UnrecognizedStatuses(body))),
        },
    }
}

/// Whether a record says that the bundle `bundle_id` has landed.
pub fn record_reports_landing(record: &BundleStatus, bundle_id: &str) -> (r: bool)
    ensures
        r == reports_landing(*record, bundle_id@),
{
    let of_the_bundle = match &record.bundle_id {
        Some(id) => str_equal(id.as_str(), bundle_id),
        None => false,
    };
    let with_signatures = match &record.transactions {
        Some(signatures) => signatures.len() > 0,
        None => false,
    };
    of_the_bundle && with_signatures
}

/// The signatures that a status response reports as landed for the bundle
/// `bundle_id`.
pub fn landed_signatures(records: Vec<BundleStatus>, bundle_id: &str) -> (r: Option<Vec<String>>)
    ensures
        r == landed(records@, bundle_id@),
{
    let ghost all = records@;
    let mut remaining = records;
    let n: usize = remaining.len();
    let mut i: usize = 0;
    while i < n
        invariant
            i <= n,
            n == remaining@.len(),
            remaining@ == all,
            all == records@,
            forall|k: int| 0 <= k < i ==> !reports_landing(#[trigger] all[k], bundle_id@),
        decreases n - i,
    {
        if record_reports_landing(&remaining[i], bundle_id) {
            proof {
                lemma_landed_skips(all, bundle_id@, i as int);
                let rest = all.skip(i as int);
                assert(rest.len() > 0 && rest[0] == all[i as int]);
                assert(landed(rest, bundle_id@) == all[i as int].transactions);
            }
            let found = remaining.swap_remove(i);
            assert(found == all[i as int]);
            return found.transactions;
        }
        i = i + 1;
    }
    proof {
        lemma_landed_skips(all, bundle_id@, n as int);
        assert(all.skip(n as int).len() == 0);
    }
    None
}

} // verus!
