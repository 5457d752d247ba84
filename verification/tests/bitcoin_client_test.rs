use chain_monitor::chains::bitcoin::{BitcoinClient, BitcoinFetch};
use chain_monitor::chains::json::{Json, JsonNumber, RpcStep};
use chain_monitor::chains::Chain;

#[test]
fn test_bitcoint_client_creation() {
    let _client = BitcoinClient::new("http://localhost:8332".to_string());
    assert!(true);
}

#[test]
fn test_chain_metrics() {
    let client = BitcoinClient::new("http://localhost:8332".to_string());
    let metrics = client.get_metrics().unwrap();

    assert_eq!(metrics.chain, Chain::Bitcoin);
    assert!(metrics.tps.num as f64 / metrics.tps.den as f64 > 0.0);
}

fn object(entries: Vec<(&str, Json)>) -> Json {
    Json::Object(entries.into_iter().map(|(k, v)| (k.to_string(), v)).collect())
}

fn method_of(request: &Json) -> String {
    request.get("method").unwrap().as_str().unwrap().to_string()
}

#[test]
fn bitcoin_client_keeps_its_endpoint() {
    let client = BitcoinClient::new("http://node:8332".to_string());
    assert_eq!(client.rpc_url(), "http://node:8332");
}

#[test]
fn bitcoin_metrics_are_nominal() {
    let m = BitcoinClient::new(String::new()).get_metrics().unwrap();
    assert_eq!((m.tps.num, m.tps.den), (7, 1));
    assert_eq!((m.block_time.num, m.block_time.den), (600, 1));
    assert_eq!(m.pending_transactions, 0);
    assert_eq!(m.peer_count, 0);
}

#[test]
fn bitcoin_latest_block_walks_three_calls() {
    let client = BitcoinClient::new(String::new());
    let step = client.start_latest_block();
    let (state, request) = match step {
        RpcStep::Call(s, r) => (s, r),
        RpcStep::Done(_) => panic!("expected a call"),
    };
    assert_eq!(method_of(&request), "getblockcount");
    assert_eq!(request.get("id").unwrap().as_str(), Some("1"));
    assert_eq!(request.get("jsonrpc").unwrap().as_str(), Some("2.0"));

    let step = client.advance(state, Json::Number(JsonNumber::PosInt(840000)));
    let (state, request) = match step {
        RpcStep::Call(s, r) => (s, r),
        RpcStep::Done(_) => panic!("expected a call"),
    };
    assert!(matches!(state, BitcoinFetch::AwaitHash { height: 840000 }));
    assert_eq!(method_of(&request), "getblockhash");
    match request.get("params").unwrap() {
        Json::Array(items) => assert_eq!(items[0].as_u64(), Some(840000)),
        _ => panic!("params are an array"),
    }

    let step = client.advance(state, Json::string("00000000abc"));
    let (state, request) = match step {
        RpcStep::Call(s, r) => (s, r),
        RpcStep::Done(_) => panic!("expected a call"),
    };
    assert_eq!(method_of(&request), "getblock");
    match request.get("params").unwrap() {
        Json::Array(items) => {
            assert_eq!(items[0].as_str(), Some("00000000abc"));
            assert_eq!(items[1].as_u64(), Some(1));
        },
        _ => panic!("params are an array"),
    }

    let data = object(vec![
        ("time", Json::Number(JsonNumber::PosInt(1713571767))),
        ("tx", Json::Array(vec![Json::Null, Json::Null, Json::Null])),
        ("size", Json::Number(JsonNumber::PosInt(2325617))),
    ]);
    match client.advance(state, data) {
        RpcStep::Done(Ok(b)) => {
            assert_eq!(b.chain, Chain::Bitcoin);
            assert_eq!(b.height, 840000);
            assert_eq!(b.hash, "00000000abc");
            assert_eq!(b.timestamp, 1713571767);
            assert_eq!(b.transaction_count, 3);
            assert_eq!(b.size, 2325617);
        },
        _ => panic!("expected a block"),
    }
}

#[test]
fn bitcoin_block_fields_default_to_zero() {
    let client = BitcoinClient::new(String::new());
    let state = BitcoinFetch::AwaitBlock { height: 7, hash: "h".to_string() };
    match client.advance(state, object(vec![("time", Json::string("noon"))])) {
        RpcStep::Done(Ok(b)) => {
            assert_eq!(b.timestamp, 0);
            assert_eq!(b.transaction_count, 0);
            assert_eq!(b.size, 0);
        },
        _ => panic!("expected a block"),
    }
}

#[test]
fn bitcoin_rejects_a_height_that_is_not_a_number() {
    let client = BitcoinClient::new(String::new());
    match client.advance(BitcoinFetch::AwaitHeight, Json::Number(JsonNumber::NegInt(-1))) {
        RpcStep::Done(Err(chain_monitor::Error::Chain(m))) => assert_eq!(m, "Invalid block height"),
        _ => panic!("expected an error"),
    }
}

#[test]
fn bitcoin_rejects_a_hash_that_is_not_text() {
    let client = BitcoinClient::new(String::new());
    match client.advance(BitcoinFetch::AwaitHash { height: 1 }, Json::Bool(true)) {
        RpcStep::Done(Err(chain_monitor::Error::Chain(m))) => assert_eq!(m, "Invalid block hash"),
        _ => panic!("expected an error"),
    }
}

#[test]
fn bitcoin_response_without_result_is_an_error() {
    let client = BitcoinClient::new(String::new());
    let response = object(vec![("error", Json::string("boom"))]);
    match client.read_response(response) {
        Err(chain_monitor::Error::Chain(m)) => assert_eq!(m, "No result in response"),
        _ => panic!("expected an error"),
    }
    let response = object(vec![("id", Json::string("1")), ("result", Json::Number(JsonNumber::PosInt(5)))]);
    assert_eq!(client.read_response(response).unwrap().as_u64(), Some(5));
}
