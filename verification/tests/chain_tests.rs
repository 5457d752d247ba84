use chain_monitor::chains::Chain;
use std::str::FromStr;

#[test]
fn test_all_chain_types() {
    let chains = Chain::all();
    assert_eq!(chains.len(), 5);

    assert!(chains.contains(&Chain::Bitcoin));
    assert!(chains.contains(&Chain::Ethereum));
    assert!(chains.contains(&Chain::Cardano));
    assert!(chains.contains(&Chain::Solana));
    assert!(chains.contains(&Chain::Polkadot));
}

#[test]
fn test_chain_name_conversion() {
    assert_eq!(Chain::from_str("bitcoin").unwrap(), Chain::Bitcoin);
    assert_eq!(Chain::from_str("ethereum").unwrap(), Chain::Ethereum);
    assert_eq!(Chain::from_str("cardano").unwrap(), Chain::Cardano);
    assert_eq!(Chain::from_str("solana").unwrap(), Chain::Solana);
    assert_eq!(Chain::from_str("polkadot").unwrap(), Chain::Polkadot);

    assert!(Chain::from_str("invalid").is_err());
}

#[test]
fn name_then_parse_gives_back_every_chain() {
    for chain in Chain::all() {
        assert_eq!(Chain::parse(chain.name()).unwrap(), chain);
    }
}

#[test]
fn names_are_lower_case_words() {
    let names: Vec<&str> = Chain::all().iter().map(|c| c.name()).collect();
    assert_eq!(names, vec!["bitcoin", "ethereum", "cardano", "solana", "polkadot"]);
}

#[test]
fn all_lists_chains_in_index_order() {
    for (i, chain) in Chain::all().iter().enumerate() {
        assert_eq!(chain.index(), i);
    }
}

#[test]
fn invalid_chain_error_names_the_text() {
    match Chain::parse("Bitcoin") {
        Err(chain_monitor::Error::Chain(m)) => assert_eq!(m, "Invalid chain: Bitcoin"),
        _ => panic!("expected a chain error"),
    }
    match Chain::parse("") {
        Err(chain_monitor::Error::Chain(m)) => assert_eq!(m, "Invalid chain: "),
        _ => panic!("expected a chain error"),
    }
}
