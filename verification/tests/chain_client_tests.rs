use chain_monitor::chains::cardano::{cardano_metrics, track_latest_hash, BlockfrostBlock, CardanoClient, CardanoNetwork};
use chain_monitor::chains::ethereum::{
    ethereum_block, ethereum_metrics, hash_text, pool_transaction_count, previous_block_number, EthBlockHeader,
};
use chain_monitor::chains::json::{Json, JsonNumber, RpcStep};
use chain_monitor::chains::polkadot::{polkadot_metrics, previous_height, PolkadotClient, PolkadotFetch};
use chain_monitor::chains::solana::{
    checked_samples_rate_total, previous_slot, solana_block, solana_metrics, PerfSample, SlotTracker, SolanaBlockInfo,
};
use chain_monitor::chains::{Block, Chain, Ratio};

fn object(entries: Vec<(&str, Json)>) -> Json {
    Json::Object(entries.into_iter().map(|(k, v)| (k.to_string(), v)).collect())
}

fn block(chain: Chain, height: u64, timestamp: i64, transaction_count: usize) -> Block {
    Block { chain, height, hash: "h".to_string(), timestamp, transaction_count, size: 0 }
}

fn call<S>(step: RpcStep<S>) -> (S, Json) {
    match step {
        RpcStep::Call(s, r) => (s, r),
        RpcStep::Done(_) => panic!("expected a call"),
    }
}

fn first_param(request: &Json) -> String {
    match request.get("params").unwrap() {
        Json::Array(items) => items[0].as_str().unwrap().to_string(),
        _ => panic!("params are an array"),
    }
}

#[test]
fn polkadot_latest_block_reads_the_hex_number() {
    let client = PolkadotClient::new("http://dot:9933".to_string());
    assert_eq!(client.rpc_url(), "http://dot:9933");
    let (state, request) = call(client.start_latest_block());
    assert_eq!(request.get("method").unwrap().as_str(), Some("chain_getFinalizedHead"));
    assert_eq!(request.get("id").unwrap().as_u64(), Some(1));
    let (state, request) = call(client.advance_at(state, Json::string("0xabc"), 0));
    assert_eq!(request.get("method").unwrap().as_str(), Some("chain_getBlock"));
    assert_eq!(first_param(&request), "0xabc");
    let data = object(vec![(
        "block",
        object(vec![
            ("header", object(vec![("number", Json::string("0x1b"))])),
            ("extrinsics", Json::Array(vec![Json::Null, Json::Null])),
        ]),
    )]);
    match client.advance_at(state, data, 1_700_000_000) {
        RpcStep::Done(Ok(b)) => {
            assert_eq!(b.chain, Chain::Polkadot);
            assert_eq!(b.height, 27);
            assert_eq!(b.hash, "0xabc");
            assert_eq!(b.timestamp, 1_700_000_000);
            assert_eq!(b.transaction_count, 2);
            assert_eq!(b.size, 0);
        },
        _ => panic!("expected a block"),
    }
}

#[test]
fn polkadot_block_without_number_is_an_error() {
    let client = PolkadotClient::new(String::new());
    let state = PolkadotFetch::AwaitHeadBlock { hash: "0x1".to_string() };
    match client.advance_at(state, object(vec![]), 5) {
        RpcStep::Done(Err(chain_monitor::Error::Chain(m))) => assert_eq!(m, "No block number"),
        _ => panic!("expected an error"),
    }
}

#[test]
fn polkadot_block_at_height_asks_in_hex() {
    let client = PolkadotClient::new(String::new());
    let (state, request) = call(client.start_block_at(255));
    assert_eq!(request.get("method").unwrap().as_str(), Some("chain_getBlockHash"));
    assert_eq!(first_param(&request), "0xff");
    let (state, _) = call(client.advance_at(state, Json::string("0xdead"), 0));
    match client.advance(state, object(vec![])) {
        RpcStep::Done(Ok(b)) => {
            assert_eq!(b.height, 255);
            assert_eq!(b.hash, "0xdead");
            assert_eq!(b.transaction_count, 0);
            assert!(b.timestamp > 0);
        },
        _ => panic!("expected a block"),
    }
}

#[test]
fn polkadot_missing_result_names_the_rpc_response() {
    let client = PolkadotClient::new(String::new());
    match client.read_response(Json::Null) {
        Err(chain_monitor::Error::Chain(m)) => assert_eq!(m, "No result in RPC response"),
        _ => panic!("expected an error"),
    }
}

#[test]
fn polkadot_metrics_use_the_block_distance() {
    let latest = block(Chain::Polkadot, 10, 1000, 12);
    let prev = block(Chain::Polkadot, 9, 1004, 3);
    assert_eq!(previous_height(&latest), 9);
    let m = polkadot_metrics(&latest, &prev);
    assert_eq!((m.block_time.num, m.block_time.den), (4, 1));
    assert_eq!((m.tps.num, m.tps.den), (12, 4));
    let same = block(Chain::Polkadot, 9, 1000, 3);
    let m = polkadot_metrics(&latest, &same);
    assert_eq!((m.block_time.num, m.tps.den), (6, 6));
}

#[test]
fn cardano_urls_follow_the_network() {
    let client = CardanoClient::new(CardanoNetwork::Preprod, "key".to_string());
    assert_eq!(client.project_id(), "key");
    assert_eq!(client.latest_block_url(), "https://cardano-preprod.blockfrost.io/api/v0/blocks/latest");
    assert_eq!(client.block_url_at(10_500_000), "https://cardano-preprod.blockfrost.io/api/v0/blocks/10500000");
    assert_eq!(client.block_url("abc"), "https://cardano-preprod.blockfrost.io/api/v0/blocks/abc");
    assert_eq!(client.network_url(), "https://cardano-preprod.blockfrost.io/api/v0/network");
    assert_eq!(CardanoNetwork::Mainnet.api_url(), "https://cardano-mainnet.blockfrost.io/api/v0");
    assert_eq!(CardanoNetwork::Preview.api_url(), "https://cardano-preview.blockfrost.io/api/v0");
}

#[test]
fn cardano_network_setting_defaults_to_preview() {
    assert_eq!(CardanoNetwork::from_setting(Some("mainnet")), CardanoNetwork::Mainnet);
    assert_eq!(CardanoNetwork::from_setting(Some("preprod")), CardanoNetwork::Preprod);
    assert_eq!(CardanoNetwork::from_setting(Some("preview")), CardanoNetwork::Preview);
    assert_eq!(CardanoNetwork::from_setting(Some("Mainnet")), CardanoNetwork::Preview);
    assert_eq!(CardanoNetwork::from_setting(None), CardanoNetwork::Preview);
}

#[test]
fn cardano_block_without_height_is_height_zero() {
    let b = BlockfrostBlock {
        height: None,
        hash: "ff".to_string(),
        time: 1_650_000_000,
        transaction_count: 9,
        size: 3000,
        slot: 1,
        epoch: 2,
    };
    let block = b.clone().into_block();
    assert_eq!((block.chain, block.height, block.hash.as_str(), block.timestamp), (Chain::Cardano, 0, "ff", 1_650_000_000));
    assert_eq!((block.transaction_count, block.size), (9, 3000));
    let with_height = BlockfrostBlock { height: Some(42), ..b }.into_block();
    assert_eq!(with_height.height, 42);
    let m = cardano_metrics(&block);
    assert_eq!((m.tps.num, m.tps.den, m.block_time.num), (9, 20, 20));
    assert_eq!(track_latest_hash("old".to_string(), &block), "ff");
}

#[test]
fn ethereum_hash_is_written_in_full() {
    let mut bytes = [0u8; 32];
    bytes[0] = 0xab;
    bytes[31] = 0x01;
    let text = hash_text(&Some(bytes));
    assert_eq!(text.len(), 66);
    assert!(text.starts_with("0xab00"));
    assert!(text.ends_with("0001"));
    assert_eq!(hash_text(&None), format!("0x{}", "0".repeat(64)));
}

#[test]
fn ethereum_block_defaults_and_casts() {
    let header = EthBlockHeader { number: None, hash: None, timestamp: u64::MAX, transaction_count: 4, size: None };
    let b = ethereum_block(Chain::Ethereum, &header);
    assert_eq!(b.height, 0);
    assert_eq!(b.timestamp, -1);
    assert_eq!(b.size, 0);
    assert_eq!(b.transaction_count, 4);
    let header = EthBlockHeader { number: Some(19_000_000), hash: None, timestamp: 1_700_000_000, transaction_count: 150, size: Some(90_000) };
    let b = ethereum_block(Chain::Ethereum, &header);
    assert_eq!((b.height, b.timestamp, b.size), (19_000_000, 1_700_000_000, 90_000));
}

#[test]
fn ethereum_metrics_divide_by_the_block_time() {
    assert_eq!(previous_block_number(10), 9);
    let m = ethereum_metrics(Chain::Ethereum, 112, 100, 240, Some(7));
    assert_eq!((m.tps.num, m.tps.den), (240, 12));
    assert_eq!((m.block_time.num, m.block_time.den), (12, 1));
    assert_eq!(m.pending_transactions, 7);
    let m = ethereum_metrics(Chain::Ethereum, 100, 100, 240, None);
    assert_eq!((m.tps.num, m.tps.den), (0, 1));
    assert_eq!(m.pending_transactions, 0);
}

#[test]
fn pool_counts_transactions_not_senders() {
    assert_eq!(pool_transaction_count(&vec![3, 1, 2], &vec![4]), Some(10));
    assert_eq!(pool_transaction_count(&Vec::new(), &Vec::new()), Some(0));
    assert_eq!(pool_transaction_count(&vec![usize::MAX], &Vec::new()), Some(usize::MAX));
    assert_eq!(pool_transaction_count(&vec![usize::MAX], &vec![1]), None);
    assert_eq!(pool_transaction_count(&vec![usize::MAX, 1], &Vec::new()), None);
}

#[test]
fn solana_rate_total_is_checked() {
    let samples = vec![
        PerfSample { num_transactions: 3000, sample_period_secs: 60 },
        PerfSample { num_transactions: 6100, sample_period_secs: 60 },
    ];
    assert_eq!(checked_samples_rate_total(&samples), Some(151));
    assert_eq!(checked_samples_rate_total(&Vec::new()), Some(0));
    let idle = vec![PerfSample { num_transactions: 5, sample_period_secs: 0 }];
    assert_eq!(checked_samples_rate_total(&idle), None);
    let huge = vec![
        PerfSample { num_transactions: u64::MAX, sample_period_secs: 1 },
        PerfSample { num_transactions: 1, sample_period_secs: 1 },
    ];
    assert_eq!(checked_samples_rate_total(&huge), None);
}

#[test]
fn solana_block_and_metrics() {
    let info = SolanaBlockInfo { blockhash: "5x".to_string(), block_time: None, transaction_count: Some(1200) };
    let b = solana_block(250_000_000, info);
    assert_eq!((b.chain, b.height, b.timestamp, b.transaction_count, b.size), (Chain::Solana, 250_000_000, 0, 1200, 0));
    let samples = vec![
        PerfSample { num_transactions: 3000, sample_period_secs: 60 },
        PerfSample { num_transactions: 6100, sample_period_secs: 60 },
    ];
    let m = solana_metrics(&samples, 1_700_000_001, 1_700_000_000);
    assert_eq!((m.tps.num, m.tps.den), (151, 2));
    assert_eq!((m.block_time.num, m.block_time.den), (1, 1));
    let m = solana_metrics(&Vec::new(), 5, 7);
    assert_eq!((m.tps.num, m.tps.den), (0, 1));
    assert_eq!(m.block_time.num, -2);
    assert_eq!(previous_slot(0), 0);
    assert_eq!(previous_slot(9), 8);
}

#[test]
fn solana_tracker_passes_on_only_newer_slots() {
    let mut t = SlotTracker::new();
    assert!(t.observe(5));
    assert!(!t.observe(5));
    assert!(!t.observe(3));
    assert!(t.observe(6));
    assert_eq!(t.last_slot, 6);
}

#[test]
fn solana_polls_pass_on_rising_slots() {
    let mut t = SlotTracker::new();
    let polled = [3u64, 1, 5, 5, 4, 9, 0];
    let fresh: Vec<u64> = polled.iter().copied().filter(|s| t.observe(*s)).collect();
    assert_eq!(fresh, vec![3, 5, 9]);
    assert_eq!(t.last_slot, 9);
    let mut t = SlotTracker::new();
    assert!(!t.observe(0));
}

#[test]
fn ratios_round_toward_zero_and_saturate() {
    assert_eq!(Ratio { num: 7, den: 2 }.to_u64_saturating(), 3);
    assert_eq!(Ratio { num: -7, den: 2 }.to_u64_saturating(), 0);
    assert_eq!(Ratio { num: i128::MAX, den: 1 }.to_u64_saturating(), u64::MAX);
    assert_eq!(Ratio::whole(600).to_u64_saturating(), 600);
}
