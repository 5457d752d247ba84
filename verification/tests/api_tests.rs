use chain_monitor::api::settings::{client_plans, ChainSettings, ClientPlan};
use chain_monitor::api::{AppState, RouteError};
use chain_monitor::chains::cardano::CardanoNetwork;
use chain_monitor::chains::Chain;

#[test]
fn requests_are_routed_to_configured_clients() {
    let mut state: AppState<&str> = AppState::new();
    assert!(state.is_empty());
    assert_eq!(state.insert(Chain::Solana, "sol"), None);
    assert_eq!(state.insert(Chain::Bitcoin, "btc"), None);
    assert_eq!(state.insert(Chain::Bitcoin, "btc2"), Some("btc"));
    assert_eq!(state.len(), 2);
    assert!(!state.is_empty());
    assert_eq!(state.chains(), vec![Chain::Bitcoin, Chain::Solana]);
    assert_eq!(state.resolve("bitcoin").map(|c| *c), Ok("btc2"));
    assert_eq!(state.resolve("solana").map(|c| *c), Ok("sol"));
    assert_eq!(state.resolve("cardano").map(|c| *c), Err(RouteError::NotFound));
    assert_eq!(state.resolve("dogecoin").map(|c| *c), Err(RouteError::BadRequest));
    assert_eq!(state.resolve("BITCOIN").map(|c| *c), Err(RouteError::BadRequest));
    assert_eq!(state.get(Chain::Polkadot), None);
    assert_eq!(state.get(Chain::Solana), Some(&"sol"));
}

#[test]
fn settings_plan_the_configured_clients_in_order() {
    let none = ChainSettings {
        bitcoin_rpc_url: None,
        ethereum_ws_url: None,
        cardano_project_id: None,
        cardano_network: Some("mainnet".to_string()),
        solana_rpc_url: None,
        polkadot_rpc_url: None,
    };
    assert!(client_plans(none).is_empty());
    let some = ChainSettings {
        bitcoin_rpc_url: None,
        ethereum_ws_url: None,
        cardano_project_id: Some("proj".to_string()),
        cardano_network: Some("preprod".to_string()),
        solana_rpc_url: Some("http://sol".to_string()),
        polkadot_rpc_url: Some("http://dot".to_string()),
    };
    let plans = client_plans(some);
    assert_eq!(plans.len(), 3);
    match &plans[0] {
        ClientPlan::Cardano(network, project) => {
            assert_eq!(*network, CardanoNetwork::Preprod);
            assert_eq!(project, "proj");
        }
        _ => panic!("expected the Cardano client first"),
    }
    assert!(matches!(&plans[1], ClientPlan::Solana(u) if u == "http://sol"));
    assert!(matches!(&plans[2], ClientPlan::Polkadot(u) if u == "http://dot"));
    let all = ChainSettings {
        bitcoin_rpc_url: Some("http://btc".to_string()),
        ethereum_ws_url: Some("ws://eth".to_string()),
        cardano_project_id: Some("p".to_string()),
        cardano_network: None,
        solana_rpc_url: None,
        polkadot_rpc_url: None,
    };
    let plans = client_plans(all);
    assert_eq!(plans.len(), 3);
    assert!(matches!(&plans[0], ClientPlan::Bitcoin(u) if u == "http://btc"));
    assert!(matches!(&plans[1], ClientPlan::Ethereum(u) if u == "ws://eth"));
    assert!(matches!(&plans[2], ClientPlan::Cardano(CardanoNetwork::Preview, p) if p == "p"));
}
