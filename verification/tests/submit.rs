use jitoliq::encoding::{can_encode_all, encode, encode_all, Encoding};
use jitoliq::envelope::JsonRpcRequest;
use jitoliq::error::{
    BundleError, ConfigurationIssue, FailureKind, HttpFailure, JsonRpcError, ProtocolIssue,
};
use jitoliq::submit::{decode_rejected, Submission, SubmitStep};
use jitoliq::JitoBundleClient;

fn bundle() -> Vec<Vec<u8>> {
    vec![b"hello".to_vec(), vec![0xfb, 0xff], vec![0x04, 0x30, 0x5e, 0x2b, 0x24, 0x73, 0xf0, 0x58]]
}

fn rejected(text: &str) -> BundleError {
    BundleError::ClientError(HttpFailure {
        kind: FailureKind::ClientError,
        status: Some(400),
        url: "http://a/api/v1/bundles".to_string(),
        text: text.to_string(),
    })
}

fn submit(
    blobs: Vec<Vec<u8>>,
    mut gateway: impl FnMut(&JsonRpcRequest) -> Result<String, BundleError>,
) -> (Vec<JsonRpcRequest>, Result<String, BundleError>) {
    assert!(can_encode_all(&blobs));
    let (mut state, mut request) = Submission::start(blobs);
    let mut calls = Vec::new();
    loop {
        let outcome = gateway(&request);
        calls.push(request);
        assert!(calls.len() <= 2, "a bundle goes out at most twice");
        match state.on_outcome(outcome) {
            SubmitStep::Resubmit { request: again, next } => {
                request = again;
                state = next;
            }
            SubmitStep::Done(outcome) => return (calls, outcome),
        }
    }
}

#[test]
fn base64_is_the_standard_alphabet_with_padding() {
    assert_eq!(encode(&b"hello".to_vec(), Encoding::Base64), "aGVsbG8=");
    assert_eq!(encode(&vec![0xfb, 0xff], Encoding::Base64), "+/8=");
    assert_eq!(encode(&vec![0xfb, 0xff, 0xbe], Encoding::Base64), "+/++");
    assert_eq!(encode(&Vec::new(), Encoding::Base64), "");
}

#[test]
fn base58_is_the_bitcoin_alphabet() {
    assert_eq!(encode(&b"hello".to_vec(), Encoding::Base58), "Cn8eVZg");
    assert_eq!(
        encode(&vec![0x04, 0x30, 0x5e, 0x2b, 0x24, 0x73, 0xf0, 0x58], Encoding::Base58),
        "he11owor1d"
    );
    assert_eq!(encode(&vec![0, 0, 1], Encoding::Base58), "112");
    assert_eq!(encode(&Vec::new(), Encoding::Base58), "");
}

#[test]
fn every_transaction_is_encoded_in_its_place() {
    assert_eq!(
        encode_all(&bundle(), Encoding::Base64),
        vec!["aGVsbG8=".to_string(), "+/8=".to_string(), "BDBeKyRz8Fg=".to_string()]
    );
    assert_eq!(
        encode_all(&bundle(), Encoding::Base58),
        vec!["Cn8eVZg".to_string(), "LBG".to_string(), "he11owor1d".to_string()]
    );
    assert_eq!(encode_all(&Vec::new(), Encoding::Base58), Vec::<String>::new());
}

#[test]
fn first_call_carries_base64() {
    let (state, request) = Submission::start(bundle());
    assert_eq!(state.encoding(), Encoding::Base64);
    assert_eq!(request.jsonrpc, "2.0");
    assert_eq!(request.id, 1);
    assert_eq!(request.method, "sendBundle");
    assert_eq!(
        request.params,
        vec!["aGVsbG8=".to_string(), "+/8=".to_string(), "BDBeKyRz8Fg=".to_string()]
    );
}

#[test]
fn gateway_that_wants_base58_gets_it_on_the_second_call() {
    let (calls, outcome) = submit(bundle(), |request| {
        if request.params[0] == "Cn8eVZg" {
            Ok("bundle-1".to_string())
        } else {
            Err(rejected("{\"error\":{\"message\":\"transaction #0 could not be decoded\"}}"))
        }
    });
    assert_eq!(outcome, Ok("bundle-1".to_string()));
    assert_eq!(calls.len(), 2);
    assert_eq!(calls[0].params, encode_all(&bundle(), Encoding::Base64));
    assert_eq!(calls[1].method, "sendBundle");
    assert_eq!(
        calls[1].params,
        vec!["Cn8eVZg".to_string(), "LBG".to_string(), "he11owor1d".to_string()]
    );
}

#[test]
fn accepted_base64_is_not_sent_again() {
    let (calls, outcome) = submit(bundle(), |_| Ok("bundle-2".to_string()));
    assert_eq!(calls.len(), 1);
    assert_eq!(outcome, Ok("bundle-2".to_string()));
}

#[test]
fn second_rejection_is_handed_on_as_it_came() {
    let (calls, outcome) = submit(bundle(), |_| Err(rejected("transaction #0 could not be decoded")));
    assert_eq!(calls.len(), 2);
    assert_eq!(outcome, Err(rejected("transaction #0 could not be decoded")));
}

#[test]
fn other_failures_are_handed_on_without_a_second_call() {
    let failure = BundleError::EndpointsExhausted(HttpFailure {
        kind: FailureKind::ServerError,
        status: Some(502),
        url: "http://a".to_string(),
        text: "bad gateway".to_string(),
    });
    let expected = failure.clone();
    let (calls, outcome) = submit(bundle(), move |_| Err(failure.clone()));
    assert_eq!(calls.len(), 1);
    assert_eq!(outcome, Err(expected));
}

#[test]
fn failure_after_the_fallback_is_the_one_reported() {
    let mut n = 0;
    let (calls, outcome) = submit(bundle(), |_| {
        n += 1;
        if n == 1 {
            Err(rejected("could not be decoded"))
        } else {
            Err(BundleError::ProtocolError(ProtocolIssue::MissingResult))
        }
    });
    assert_eq!(calls.len(), 2);
    assert_eq!(outcome, Err(BundleError::ProtocolError(ProtocolIssue::MissingResult)));
}

#[test]
fn either_phrase_marks_a_decode_rejection() {
    assert!(decode_rejected(&rejected("bundle could not be decoded, sorry")));
    assert!(decode_rejected(&rejected("transaction #0 is not valid")));
    assert!(!decode_rejected(&rejected("transaction #1 is not valid")));
    assert!(!decode_rejected(&rejected("")));
    assert!(!decode_rejected(&rejected("Could Not Be Decoded")));
}

#[test]
fn gateway_error_message_is_looked_at_too() {
    let error = BundleError::RpcError(JsonRpcError {
        code: -32602,
        message: "transaction #0 could not be decoded".to_string(),
        data: None,
    });
    assert!(decode_rejected(&error));
    let other = BundleError::RpcError(JsonRpcError {
        code: -32602,
        message: "bundle too large".to_string(),
        data: Some("\"could not be decoded\"".to_string()),
    });
    assert!(!decode_rejected(&other));
}

#[test]
fn failures_without_text_are_no_decode_rejection() {
    assert!(!decode_rejected(&BundleError::ConfigurationError(ConfigurationIssue::NoEndpoints)));
    assert!(!decode_rejected(&BundleError::ProtocolError(ProtocolIssue::MissingResult)));
    assert!(decode_rejected(&BundleError::ProtocolError(ProtocolIssue::Malformed(
        "could not be decoded".to_string()
    ))));
}

#[test]
fn text_of_each_failure() {
    assert_eq!(rejected("body").text(), "body");
    assert_eq!(BundleError::ConfigurationError(ConfigurationIssue::UnsupportedPercentile(10)).text(), "");
    assert_eq!(BundleError::ProtocolError(ProtocolIssue::EmptyTipFloor).text(), "");
    assert_eq!(
        BundleError::ProtocolError(ProtocolIssue::UnrecognizedStatuses("[1]".to_string())).text(),
        "[1]"
    );
    assert_eq!(
        BundleError::RpcError(JsonRpcError { code: 1, message: "m".to_string(), data: None }).text(),
        "m"
    );
}

#[test]
fn client_begins_a_submission_in_base64() {
    let client = JitoBundleClient::new(vec!["http://a".to_string()]);
    let (state, request) = client.send_bundle(bundle());
    assert_eq!(state.encoding(), Encoding::Base64);
    assert_eq!(request.params, encode_all(&bundle(), Encoding::Base64));
    let (state, request) = client.send_bundle_bincode_txs(vec![vec![1, 2, 3]]);
    assert_eq!(state.encoding(), Encoding::Base64);
    assert_eq!(request.params, vec!["AQID".to_string()]);
}

#[test]
fn blobs_that_a_machine_holds_can_be_encoded() {
    assert!(can_encode_all(&bundle()));
    assert!(can_encode_all(&Vec::new()));
    assert!(can_encode_all(&vec![vec![0u8; 100_000]]));
}

#[test]
fn submission_goes_over_the_wire_as_one_array_of_texts() {
    let (_, request) = Submission::start(vec![b"hello".to_vec(), vec![0xfb, 0xff]]);
    assert_eq!(
        request.to_json(),
        "{\"jsonrpc\":\"2.0\",\"id\":1,\"method\":\"sendBundle\",\"params\":[\"aGVsbG8=\",\"+/8=\"]}"
    );
    let (_, empty) = Submission::start(vec![]);
    assert_eq!(
        empty.to_json(),
        "{\"jsonrpc\":\"2.0\",\"id\":1,\"method\":\"sendBundle\",\"params\":[]}"
    );
}
