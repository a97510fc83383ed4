use txrpc::context::RpcCtx;
use txrpc::envelope::request_body;
use txrpc::hexstr::hex_decode;
use txrpc::hexstr::hex_encode;
use txrpc::jsonstr::json_string;
use txrpc::ops::decode_fund_response;
use txrpc::ops::decode_send_response;
use txrpc::ops::decode_sign_response;
use txrpc::ops::prepare_fund_request;
use txrpc::response::decode_response;
use txrpc::response::RemoteError;
use txrpc::response::RpcFailure;
use txrpc::transport::auth_header_value;
use txrpc::transport::content_type;
use txrpc::transport::prepare_request;
use txrpc::transport::rpc_url;
use txrpc::tx::reencode_transaction;
use txrpc::tx::tx_to_hex;
use txrpc::tx::TransactionOrHex;

fn sample_tx_hex() -> String {
    let mut s = String::new();
    s.push_str("0200000001");
    s.push_str(&"00".repeat(32));
    s.push_str("00000000");
    s.push_str("00");
    s.push_str("ffffffff");
    s.push_str("01");
    s.push_str("e803000000000000");
    s.push_str("00");
    s.push_str("00000000");
    s
}

fn sample_tx() -> bitcoin::Transaction {
    bitcoin::consensus::encode::deserialize(&hex::decode(sample_tx_hex()).unwrap()).unwrap()
}

#[test]
fn hex_encode_known_values() {
    assert_eq!(hex_encode(&[0xbe, 0xef]), "beef");
    assert_eq!(hex_encode(&[]), "");
    assert_eq!(hex_encode(&[0, 15, 255]), hex::encode([0u8, 15, 255]));
}

#[test]
fn hex_decode_round_trip() {
    assert_eq!(hex_decode("BEef"), Some(vec![0xbe, 0xef]));
    assert_eq!(hex_decode(""), Some(vec![]));
    assert_eq!(hex_decode("bee"), None);
    assert_eq!(hex_decode("zz"), None);
    let bytes = vec![1u8, 2, 3, 0xab, 0xcd];
    assert_eq!(hex_decode(&hex_encode(&bytes)), Some(bytes));
}

#[test]
fn url_with_wallet() {
    let ctx = RpcCtx {
        wallet: Some("mywallet".to_string()),
        address: Some("http://host:1833".to_string()),
        auth: None,
    };
    assert_eq!(rpc_url(&ctx), "http://host:1833/wallet/mywallet");
}

#[test]
fn url_without_wallet() {
    let ctx = RpcCtx {
        wallet: None,
        address: Some("http://host:1833".to_string()),
        auth: None,
    };
    assert_eq!(rpc_url(&ctx), "http://host:1833");
}

#[test]
fn url_defaults_when_unset() {
    let ctx = RpcCtx::default();
    assert_eq!(rpc_url(&ctx), "http://127.0.0.1:18331");
    assert_eq!(ctx.address(), "http://127.0.0.1:18331");
}

#[test]
fn auth_header_matches_basic_scheme() {
    assert_eq!(auth_header_value("alice:secret"), "Basic YWxpY2U6c2VjcmV0");
}

#[test]
fn no_credential_means_no_header() {
    let ctx = RpcCtx::default();
    let prepared = prepare_request(&ctx, "fundrawtransaction", &vec![]);
    assert!(prepared.auth_header.is_none());
}

#[test]
fn configured_credential_sets_header() {
    let ctx = RpcCtx {
        wallet: None,
        address: None,
        auth: Some("alice:secret".to_string()),
    };
    let prepared = prepare_request(&ctx, "fundrawtransaction", &vec![]);
    assert_eq!(
        prepared.auth_header,
        Some("Basic YWxpY2U6c2VjcmV0".to_string())
    );
}

#[test]
fn request_body_shape() {
    let body = request_body("sendrawtransaction", &vec!["\"beef\"".to_string()]);
    assert_eq!(
        body,
        "{\"jsonrpc\":\"1.0\",\"id\":\"whatevs\",\"method\":\"sendrawtransaction\",\"params\":[\"beef\"]}"
    );
    let parsed: serde_json::Value = serde_json::from_str(&body).unwrap();
    assert_eq!(parsed["jsonrpc"], serde_json::Value::String("1.0".to_string()));
    assert_eq!(
        parsed["method"],
        serde_json::Value::String("sendrawtransaction".to_string())
    );
    assert_eq!(
        parsed["params"][0],
        serde_json::Value::String("beef".to_string())
    );
}

#[test]
fn request_body_no_params() {
    let body = request_body("getinfo", &vec![]);
    assert_eq!(
        body,
        "{\"jsonrpc\":\"1.0\",\"id\":\"whatevs\",\"method\":\"getinfo\",\"params\":[]}"
    );
}

#[test]
fn request_body_two_params() {
    let body = request_body("m", &vec!["1".to_string(), "true".to_string()]);
    assert_eq!(
        body,
        "{\"jsonrpc\":\"1.0\",\"id\":\"whatevs\",\"method\":\"m\",\"params\":[1,true]}"
    );
}

#[test]
fn json_string_escapes() {
    assert_eq!(json_string("beef"), "\"beef\"");
    assert_eq!(json_string("a\"b\\c\n"), "\"a\\\"b\\\\c\\u000a\"");
    let parsed: serde_json::Value = serde_json::from_str(&json_string("a\"b\\c\n")).unwrap();
    assert_eq!(parsed, serde_json::Value::String("a\"b\\c\n".to_string()));
}

#[test]
fn response_success_returns_result_text() {
    let out = decode_response("{\"result\":\"1\",\"error\":null,\"id\":\"whatevs\"}");
    assert_eq!(out, Ok("\"1\"".to_string()));
}

#[test]
fn response_error_preserves_code_and_message() {
    let out = decode_response(
        "{\"result\":null,\"error\":{\"code\":-32600,\"message\":\"insufficient funds\"},\"id\":1}",
    );
    assert_eq!(
        out,
        Err(RpcFailure::Remote(RemoteError {
            code: -32600,
            message: "insufficient funds".to_string(),
        }))
    );
}

#[test]
fn response_corrupt_text_is_protocol_corruption() {
    assert_eq!(
        decode_response("this is not json"),
        Err(RpcFailure::ProtocolCorruption)
    );
}

#[test]
fn response_with_both_fields_is_protocol_corruption() {
    let out = decode_response(
        "{\"result\":\"1\",\"error\":{\"code\":1,\"message\":\"m\"},\"id\":1}",
    );
    assert_eq!(out, Err(RpcFailure::ProtocolCorruption));
}

#[test]
fn response_with_neither_field_is_protocol_corruption() {
    let out = decode_response("{\"result\":null,\"error\":null,\"id\":1}");
    assert_eq!(out, Err(RpcFailure::ProtocolCorruption));
}

#[test]
fn fund_end_to_end_scenario() {
    let h = sample_tx_hex();
    let text = format!(
        "{{\"result\":{{\"hex\":\"{}\",\"fee\":0.0001,\"changepos\":1}},\"error\":null,\"id\":\"whatevs\"}}",
        h
    );
    let (hex, tx) = decode_fund_response(&text).unwrap();
    assert_eq!(hex, h);
    let independent: bitcoin::Transaction =
        bitcoin::consensus::encode::deserialize(&hex::decode(&h).unwrap()).unwrap();
    assert_eq!(tx, independent);
}

#[test]
fn fund_decode_needs_hex_field() {
    let text = "{\"result\":{\"fee\":0.0001,\"changepos\":1},\"error\":null,\"id\":1}";
    assert_eq!(decode_fund_response(text), Err(RpcFailure::Decode));
}

#[test]
fn fund_decode_rejects_malformed_transaction_bytes() {
    let text = "{\"result\":{\"hex\":\"00\",\"fee\":0.0001,\"changepos\":1},\"error\":null,\"id\":1}";
    assert_eq!(decode_fund_response(text), Err(RpcFailure::Decode));
}

#[test]
fn sign_returns_node_declared_bytes() {
    let h = sample_tx_hex();
    let text = format!(
        "{{\"result\":{{\"hex\":\"{}\",\"complete\":true}},\"error\":null,\"id\":\"whatevs\"}}",
        h
    );
    let (hex, tx) = decode_sign_response(&text).unwrap();
    assert_eq!(hex, h);
    assert_eq!(tx, sample_tx());
}

#[test]
fn send_returns_literal_txid() {
    let t = "4a5e1e4baab89f3a32518a88c31bc87f618f76673e2cc77ab2127b7afdeda33b";
    let text = format!("{{\"result\":\"{}\",\"error\":null,\"id\":\"whatevs\"}}", t);
    let txid = decode_send_response(&text).unwrap();
    assert_eq!(txid.hex, t);
    let parsed: bitcoin::Txid = txid.hex.parse().unwrap();
    assert_eq!(parsed.to_string(), t);
}

#[test]
fn send_rejects_short_or_untyped_results() {
    let short = "{\"result\":\"123abc\",\"error\":null,\"id\":1}";
    assert_eq!(decode_send_response(short), Err(RpcFailure::Decode));
    let number = "{\"result\":5,\"error\":null,\"id\":1}";
    assert_eq!(decode_send_response(number), Err(RpcFailure::Decode));
}

#[test]
fn consensus_round_trip() {
    let tx = sample_tx();
    assert_eq!(reencode_transaction(&tx), Some(sample_tx()));
}

#[test]
fn tx_to_hex_encodes_structured_transactions() {
    let tx = sample_tx();
    assert_eq!(tx_to_hex(TransactionOrHex::Transaction(&tx)), sample_tx_hex());
    assert_eq!(
        tx_to_hex(TransactionOrHex::Hex("beef".to_string())),
        "beef"
    );
}

#[test]
fn prepare_fund_request_builds_whole_call() {
    let ctx = RpcCtx {
        wallet: Some("mywallet".to_string()),
        address: Some("http://host:1833".to_string()),
        auth: Some("alice:secret".to_string()),
    };
    let prepared = prepare_fund_request(&ctx, TransactionOrHex::Hex("beef".to_string()));
    assert_eq!(prepared.url, "http://host:1833/wallet/mywallet");
    assert_eq!(
        prepared.auth_header,
        Some("Basic YWxpY2U6c2VjcmV0".to_string())
    );
    assert_eq!(
        prepared.body,
        "{\"jsonrpc\":\"1.0\",\"id\":\"whatevs\",\"method\":\"fundrawtransaction\",\"params\":[\"beef\"]}"
    );
    assert_eq!(content_type(), "application/json");
}

#[test]
fn for_testing_configures_local_node() {
    let ctx = RpcCtx::for_testing();
    assert_eq!(ctx.wallet(), Some("mywallet"));
    assert_eq!(ctx.address(), "http://127.0.0.1:18331");
    assert_eq!(ctx.auth(), Some("user:password"));
}
