use std::io::Read;
use std::sync::Arc;

use serde_json::Value;
use web3::request::{build_request, decimal_string};
use web3::response::{decode_response, to_result, Envelope};
use web3::task::Phase;
use web3::{FetchTask, Http, RpcError};

fn exchange(task: &FetchTask) -> Result<String, String> {
    let mut response = task
        .client()
        .post(task.url())
        .body(task.request())
        .header(hyper::header::ContentType::json())
        .send()
        .map_err(|e| format!("{:?}", e))?;
    let mut body = String::new();
    response.read_to_string(&mut body).map_err(|e| format!("{:?}", e))?;
    Ok(body)
}

#[test]
fn request_text_has_envelope_fields() {
    let params = vec![Value::from(1), Value::from("a")];
    let r = build_request(7, "eth_call", &params);
    assert_eq!(r, "{\"jsonrpc\":\"2.0\",\"method\":\"eth_call\",\"params\":[1,\"a\"],\"id\":7}");
}

#[test]
fn request_text_with_no_params() {
    let r = build_request(0, "net_version", &vec![]);
    assert_eq!(r, "{\"jsonrpc\":\"2.0\",\"method\":\"net_version\",\"params\":[],\"id\":0}");
}

#[test]
fn request_text_escapes_method() {
    let r = build_request(12, "a\"b", &vec![Value::Bool(true)]);
    assert_eq!(r, "{\"jsonrpc\":\"2.0\",\"method\":\"a\\\"b\",\"params\":[true],\"id\":12}");
}

#[test]
fn decimal_of_edges() {
    assert_eq!(decimal_string(0), "0");
    assert_eq!(decimal_string(9), "9");
    assert_eq!(decimal_string(10), "10");
    assert_eq!(decimal_string(1234567890), "1234567890");
    assert_eq!(decimal_string(usize::MAX), usize::MAX.to_string());
}

#[test]
fn execute_sends_nothing_and_ids_differ() {
    let http = Http::new("http://127.0.0.1:1").unwrap();
    let mut seen = Vec::new();
    for _ in 0..50 {
        let t = http.execute("eth_blockNumber", vec![]);
        assert_eq!(t.phase(), Phase::Unstarted);
        assert_eq!(t.url(), "http://127.0.0.1:1");
        assert!(!seen.contains(&t.id()));
        seen.push(t.id());
    }
    assert_eq!(seen.len(), 50);
}

#[test]
fn tasks_share_one_client() {
    let http = Http::new("http://localhost:8545").unwrap();
    let a = http.execute("eth_accounts", vec![]);
    let b = http.execute("eth_accounts", vec![]);
    assert!(Arc::ptr_eq(a.client(), b.client()));
    assert_ne!(a.id(), b.id());
    assert_eq!(a.request().replace(&format!("\"id\":{}", a.id()), ""), b.request().replace(&format!("\"id\":{}", b.id()), ""));
}

#[test]
fn success_envelope_yields_result() {
    let http = Http::new("http://localhost:8545").unwrap();
    let mut t = http.execute("eth_blockNumber", vec![]);
    assert!(t.begin());
    let body = format!("{{\"jsonrpc\":\"2.0\",\"id\":{},\"result\":42}}", t.id());
    let r = t.finish(Ok(body));
    assert_eq!(r.unwrap(), Value::from(42));
    assert_eq!(t.phase(), Phase::Completed);
}

#[test]
fn error_envelope_is_protocol_error() {
    let http = Http::new("http://localhost:8545").unwrap();
    let mut t = http.execute("no_such_method", vec![]);
    assert!(t.begin());
    let body = "{\"jsonrpc\":\"2.0\",\"id\":1,\"error\":{\"code\":-32601,\"message\":\"method not found\"}}";
    match t.finish(Ok(body.to_string())) {
        Err(RpcError::Rpc(e)) => {
            assert_eq!(e.code, jsonrpc_core::ErrorCode::MethodNotFound);
            assert_eq!(e.message, "method not found");
        }
        other => panic!("expected a protocol error, got {:?}", other),
    }
}

#[test]
fn refused_connection_is_transport_error() {
    let http = Http::new("http://127.0.0.1:1").unwrap();
    let mut t = http.execute("eth_blockNumber", vec![]);
    assert!(t.begin());
    let outcome = exchange(&t);
    let description = outcome.clone().unwrap_err();
    assert!(!description.is_empty());
    match t.finish(outcome) {
        Err(e) => {
            assert!(e.is_transport());
            match e {
                RpcError::Transport(d) => assert_eq!(d, description),
                _ => unreachable!(),
            }
        }
        Ok(v) => panic!("expected a transport error, got {:?}", v),
    }
}

#[test]
fn completed_task_is_not_sent_again() {
    let http = Http::new("http://localhost:8545").unwrap();
    let mut t = http.execute("eth_blockNumber", vec![]);
    assert!(t.begin());
    assert!(!t.begin());
    let _ = t.finish(Err("connection reset".to_string()));
    assert!(!t.begin());
    assert!(!t.begin());
    assert_eq!(t.phase(), Phase::Completed);
}

#[test]
fn transport_failure_keeps_description() {
    let http = Http::new("http://localhost:8545").unwrap();
    let mut t = http.execute("eth_blockNumber", vec![]);
    assert!(t.begin());
    match t.finish(Err("Io(Os { code: 111 })".to_string())) {
        Err(RpcError::Transport(d)) => assert_eq!(d, "Io(Os { code: 111 })"),
        other => panic!("unexpected {:?}", other),
    }
}

#[test]
fn batch_response_is_invalid() {
    match decode_response("[{\"jsonrpc\":\"2.0\",\"id\":1,\"result\":1}]") {
        Err(RpcError::InvalidResponse(d)) => assert_eq!(d, "Expected single, got batch."),
        other => panic!("unexpected {:?}", other),
    }
    match decode_response("") {
        Err(RpcError::InvalidResponse(d)) => assert_eq!(d, "Expected single, got batch."),
        other => panic!("unexpected {:?}", other),
    }
}

#[test]
fn malformed_response_is_invalid() {
    match decode_response("not json") {
        Err(RpcError::InvalidResponse(d)) => assert!(!d.is_empty()),
        other => panic!("unexpected {:?}", other),
    }
}

#[test]
fn success_result_is_passed_through() {
    let r = decode_response("{\"jsonrpc\":\"2.0\",\"id\":3,\"result\":\"0x10\"}");
    assert_eq!(r.unwrap(), Value::from("0x10"));
    let r = to_result(Envelope::Success(Value::Null));
    assert_eq!(r.unwrap(), Value::Null);
    match to_result(Envelope::Malformed("bad".to_string())) {
        Err(RpcError::InvalidResponse(d)) => assert_eq!(d, "bad"),
        other => panic!("unexpected {:?}", other),
    }
}

#[test]
fn new_refuses_text_that_is_no_url() {
    assert!(Http::new("not a url").is_err());
    assert!(Http::new("").is_err());
    let http = Http::new("https://mainnet.example.org:8545/rpc").unwrap();
    let t = http.execute("eth_chainId", vec![]);
    assert_eq!(t.url(), "https://mainnet.example.org:8545/rpc");
}

#[test]
fn request_text_escapes_control_characters() {
    let r = build_request(1, "a\\b\n\u{1}\u{1f}\tc\u{8}\u{c}\r", &vec![]);
    assert_eq!(
        r,
        "{\"jsonrpc\":\"2.0\",\"method\":\"a\\\\b\\n\\u0001\\u001f\\tc\\b\\f\\r\",\"params\":[],\"id\":1}"
    );
}
