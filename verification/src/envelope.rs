//! The JSON-RPC envelope: what a request holds, and what a response stands
//! for.

use crate::error::{BundleError, JsonRpcError, ProtocolIssue};
use crate::text::texts;
use vstd::prelude::*;

verus! {

/// The identifier of every request. Calls are made one at a time and each waits
/// for its answer, so responses need not be told apart.
pub const REQUEST_ID: u64 = 1;

/// The protocol version that every request names.
pub open spec fn protocol_version() -> Seq<char> {
    "2.0"@
}

/// A request envelope. `params` is the array that the method takes: one text
/// for each transaction or bundle, and none for a method that takes nothing.
#[derive(Clone, Debug, PartialEq, Eq)]
pub struct JsonRpcRequest {
    pub jsonrpc: &'static str,
    pub id: u64,
    pub method: &'static str,
    pub params: Vec<String>,
}

/// What a request envelope holds, as plain values.
pub ghost struct RequestView {
    pub jsonrpc: Seq<char>,
    pub id: u64,
    pub method: Seq<char>,
    pub params: Seq<Seq<char>>,
}

impl View for JsonRpcRequest {
    type V = RequestView;

    open spec fn view(&self) -> RequestView {
        RequestView {
            jsonrpc: self.jsonrpc@,
            id: self.id,
            method: self.method@,
            params: texts(self.params@),
        }
    }
}

/// The JSON string literal for `text`: the text between double quotes, with
/// the characters escaped that JSON wants escaped.
pub uninterp spec fn json_string(text: Seq<char>) -> Seq<char>;

/// The text of one decimal digit.
pub open spec fn digit_text(digit: nat) -> Seq<char> {
    if digit == 0 {
        "0"@
    } else if digit == 1 {
        "1"@
    } else if digit == 2 {
        "2"@
    } else if digit == 3 {
        "3"@
    } else if digit == 4 {
        "4"@
    } else if digit == 5 {
        "5"@
    } else if digit == 6 {
        "6"@
    } else if digit == 7 {
        "7"@
    } else if digit == 8 {
        "8"@
    } else {
        "9"@
    }
}

/// The decimal numeral for `n`, without leading zeros.
pub open spec fn decimal_text(n: nat) -> Seq<char>
    decreases n,
{
    if n < 10 {
        digit_text(n)
    } else {
        decimal_text(n / 10) + digit_text(n % 10)
    }
}

/// The texts `items`, one after the other with a comma between each two.
pub open spec fn comma_separated(items: Seq<Seq<char>>) -> Seq<char>
    decreases items.len(),
{
    if items.len() == 0 {
        Seq::empty()
    } else if items.len() == 1 {
        items[0]
    } else {
        comma_separated(items.drop_last()) + ","@ + items.last()
    }
}

/// The JSON array whose elements have the texts `elements`.
pub open spec fn json_array(elements: Seq<Seq<char>>) -> Seq<char> {
    "["@ + comma_separated(elements) + "]"@
}

/// The JSON string literals for the texts `list`.
pub open spec fn json_strings(list: Seq<Seq<char>>) -> Seq<Seq<char>> {
    Seq::new(list.len(), |i: int| json_string(list[i]))
}

/// The JSON object of an envelope whose version, method and parameters have
/// the JSON texts `version`, `method` and `params`: the members `jsonrpc`,
/// `id`, `method` and `params` in this order and without whitespace.
pub open spec fn envelope_frame(
    version: Seq<char>,
    id: nat,
    method: Seq<char>,
    params: Seq<Seq<char>>,
) -> Seq<char> {
    "{\"jsonrpc\":"@ + version + ",\"id\":"@ + decimal_text(id) + ",\"method\":"@ + method
        + ",\"params\":"@ + json_array(params) + "}"@
}

/// The JSON text of a request envelope: version and method as strings, the
/// identifier as a number, and the parameters as an array of strings.
pub open spec fn envelope_text(request: RequestView) -> Seq<char> {
    envelope_frame(
        json_string(request.jsonrpc),
        request.id as nat,
        json_string(request.method),
        json_strings(request.params),
    )
}

/// Calls `serde_json::to_string` on a `str`. The result is named, not
/// described. For a `str` the call has no cause to fail: it writes into
/// memory, and a text is no map and has no `Serialize` of its own that could
/// refuse.
#[verifier::external_body]
fn json_quote(text: &str) -> (quoted: String)
    ensures
        quoted@ == json_string(text@),
{
    serde_json::to_string(text).unwrap_or_default()
}

/// Appends the decimal numeral for `n` to `out`.
fn append_decimal(out: &mut String, n: u64)
    ensures
        final(out)@ == old(out)@ + decimal_text(n as nat),
    decreases n,
{
    if n >= 10 {
        append_decimal(out, n / 10);
    }
    let ghost before = out@;
    let digit: u64 = n % 10;
    let text = if digit == 0 {
        "0"
    } else if digit == 1 {
        "1"
    } else if digit == 2 {
        "2"
    } else if digit == 3 {
        "3"
    } else if digit == 4 {
        "4"
    } else if digit == 5 {
        "5"
    } else if digit == 6 {
        "6"
    } else if digit == 7 {
        "7"
    } else if digit == 8 {
        "8"
    } else {
        "9"
    };
    out.append(text);
    assert(out@ =~= old(out)@ + decimal_text(n as nat)) by {
        if n >= 10 {
            assert(before == old(out)@ + decimal_text((n / 10) as nat));
        }
    }
}

/// The JSON string literal for each of the texts `list`, in their order.
pub fn quote_all(list: &Vec<String>) -> (quoted: Vec<String>)
    ensures
        texts(quoted@) == json_strings(texts(list@)),
{
    let mut quoted: Vec<String> = Vec::new();
    let n: usize = list.len();
    let mut i: usize = 0;
    while i < n
        invariant
            i <= n,
            n == list@.len(),
            quoted@.len() == i,
            forall|k: int| 0 <= k < i ==> (#[trigger] quoted@[k])@ == json_string(list@[k]@),
        decreases n - i,
    {
        quoted.push(json_quote(list[i].as_str()));
        i = i + 1;
    }
    assert(texts(quoted@) =~= json_strings(texts(list@)));
    quoted
}

/// The JSON array whose elements have the JSON texts `elements`.
pub fn write_array(elements: &Vec<String>) -> (json: String)
    ensures
        json@ == json_array(texts(elements@)),
{
    let ghost items = texts(elements@);
    let mut out: String = "[".to_owned();
    let n: usize = elements.len();
    let mut i: usize = 0;
    assert(comma_separated(items.take(0)) =~= Seq::<char>::empty());
    while i < n
        invariant
            i <= n,
            n == elements@.len(),
            items == texts(elements@),
            out@ == "["@ + comma_separated(items.take(i as int)),
        decreases n - i,
    {
        let ghost before = comma_separated(items.take(i as int));
        if i > 0 {
            out.append(",");
        }
        out.append(elements[i].as_str());
        proof {
            assert(items.take(i + 1).drop_last() == items.take(i as int));
            assert(items.take(i + 1).last() == elements@[i as int]@);
            if i == 0 {
                assert(before =~= Seq::<char>::empty());
            }
            assert(out@ =~= "["@ + comma_separated(items.take(i + 1)));
        }
        i = i + 1;
    }
    assert(items.take(n as int) == items);
    out.append("]");
    out
}

/// The JSON object of an envelope whose version, method and parameters have
/// the JSON texts `version`, `method` and `params`.
pub fn write_envelope(version: &str, id: u64, method: &str, params: &Vec<String>) -> (json: String)
    ensures
        json@ == envelope_frame(version@, id as nat, method@, texts(params@)),
{
    let mut out: String = "{\"jsonrpc\":".to_owned();
    out.append(version);
    out.append(",\"id\":");
    append_decimal(&mut out, id);
    out.append(",\"method\":");
    out.append(method);
    out.append(",\"params\":");
    let array = write_array(params);
    out.append(array.as_str());
    out.append("}");
    assert(out@ =~= envelope_frame(version@, id as nat, method@, texts(params@)));
    out
}

/// The envelope of a call of `method` with the texts `list` as its
/// parameters.
pub open spec fn call_with_list(method: Seq<char>, list: Seq<Seq<char>>) -> RequestView {
    RequestView { jsonrpc: protocol_version(), id: REQUEST_ID, method, params: list }
}

/// The envelope of a call of `method` without parameters.
pub open spec fn call_without_params(method: Seq<char>) -> RequestView {
    call_with_list(method, Seq::empty())
}

impl JsonRpcRequest {
    /// The request that submits a bundle: `sendBundle` with one encoded
    /// transaction for each transaction of the bundle, in their order.
    pub fn send_bundle(encoded: Vec<String>) -> (request: JsonRpcRequest)
        ensures
            request@ == call_with_list("sendBundle"@, texts(encoded@)),
            request.params == encoded,
    {
        JsonRpcRequest { jsonrpc: "2.0", id: REQUEST_ID, method: "sendBundle", params: encoded }
    }

    /// The request that asks for the tip accounts: `getTipAccounts` without
    /// parameters.
    pub fn get_tip_accounts() -> (request: JsonRpcRequest)
        ensures
            request@ == call_without_params("getTipAccounts"@),
    {
        let request = JsonRpcRequest {
            jsonrpc: "2.0",
            id: REQUEST_ID,
            method: "getTipAccounts",
            params: Vec::new(),
        };
        assert(request@.params =~= Seq::empty());
        request
    }

    /// The request that asks for the status of bundles: `getBundleStatuses`
    /// with the identifiers of the bundles, in their order.
    pub fn get_bundle_statuses(bundle_ids: Vec<String>) -> (request: JsonRpcRequest)
        ensures
            request@ == call_with_list("getBundleStatuses"@, texts(bundle_ids@)),
            request.params == bundle_ids,
    {
        JsonRpcRequest {
            jsonrpc: "2.0",
            id: REQUEST_ID,
            method: "getBundleStatuses",
            params: bundle_ids,
        }
    }

    /// The JSON text of the envelope, as it goes over the wire.
    pub fn to_json(&self) -> (json: String)
        ensures
            json@ == envelope_text(self@),
    {
        let version = json_quote(self.jsonrpc);
        let method = json_quote(self.method);
        let params = quote_all(&self.params);
        write_envelope(version.as_str(), self.id, method.as_str(), &params)
    }
}

/// A response envelope with a result of type `T`, as it came. Version and
/// identifier are optional and not looked at.
#[derive(Clone, Debug, PartialEq, Eq)]
pub struct JsonRpcResponse<T> {
    pub jsonrpc: Option<String>,
    pub id: Option<u64>,
    pub result: Option<T>,
    pub error: Option<JsonRpcError>,
}

/// What a response envelope stands for: the gateway's error where it holds
/// one, else its result; an envelope with neither breaks the protocol.
pub open spec fn envelope_result<T>(response: JsonRpcResponse<T>) -> Result<T, BundleError> {
    match response.error {
        Some(error) => Err(BundleError::RpcError(error)),
        None => match response.result {
            Some(result) => Ok(result),
            None => Err(BundleError::ProtocolError(ProtocolIssue::MissingResult)),
        },
    }
}

impl<T> JsonRpcResponse<T> {
    /// What the envelope stands for.
    pub fn into_result(self) -> (r: Result<T, BundleError>)
        ensures
            r == envelope_result(self),
    {
        match self.error {
            Some(error) => Err(BundleError::RpcError(error)),
            None => match self.result {
                Some(result) => Ok(result),
                None => Err(BundleError::ProtocolError(ProtocolIssue::MissingResult)),
            },
        }
    }
}

} // verus!
