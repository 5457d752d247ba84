//! Which chain clients the API builds from its settings.

use crate::chains::cardano::{network_setting, CardanoNetwork};
use vstd::prelude::*;

verus! {

/// The settings that decide which chain clients the API serves; each is
/// `None` where it is unset.
pub struct ChainSettings {
    pub bitcoin_rpc_url: Option<String>,
    pub ethereum_ws_url: Option<String>,
    pub cardano_project_id: Option<String>,
    pub cardano_network: Option<String>,
    pub solana_rpc_url: Option<String>,
    pub polkadot_rpc_url: Option<String>,
}

/// A chain client to build, with what it is built from.
pub enum ClientPlan {
    Bitcoin(String),
    Ethereum(String),
    Cardano(CardanoNetwork, String),
    Solana(String),
    Polkadot(String),
}

/// The clients that `s` asks for, in the order Bitcoin, Ethereum, Cardano,
/// Solana, Polkadot: one for each chain whose setting is there; the Cardano
/// client on the network that its network setting names.
pub open spec fn plans_of(s: ChainSettings) -> Seq<ClientPlan> {
    (match s.bitcoin_rpc_url {
        Some(u) => seq![ClientPlan::Bitcoin(u)],
        None => Seq::empty(),
    }) + (match s.ethereum_ws_url {
        Some(u) => seq![ClientPlan::Ethereum(u)],
        None => Seq::empty(),
    }) + (match s.cardano_project_id {
        Some(p) => seq![
            ClientPlan::Cardano(
                network_setting(
                    match s.cardano_network {
                        Some(n) => Some(n@),
                        None => None,
                    },
                ),
                p,
            ),
        ],
        None => Seq::empty(),
    }) + (match s.solana_rpc_url {
        Some(u) => seq![ClientPlan::Solana(u)],
        None => Seq::empty(),
    }) + (match s.polkadot_rpc_url {
        Some(u) => seq![ClientPlan::Polkadot(u)],
        None => Seq::empty(),
    })
}

/// The clients to build from `settings`, in order.
pub fn client_plans(settings: ChainSettings) -> (v: Vec<ClientPlan>)
    ensures
        v@ == plans_of(settings),
{
    let ghost s = settings;
    let ChainSettings {
        bitcoin_rpc_url,
        ethereum_ws_url,
        cardano_project_id,
        cardano_network,
        solana_rpc_url,
        polkadot_rpc_url,
    } = settings;
    let mut v: Vec<ClientPlan> = Vec::new();
    match bitcoin_rpc_url {
        Some(u) => v.push(ClientPlan::Bitcoin(u)),
        None => {},
    }
    match ethereum_ws_url {
        Some(u) => v.push(ClientPlan::Ethereum(u)),
        None => {},
    }
    match cardano_project_id {
        Some(p) => {
            let network = CardanoNetwork::from_setting(
                match &cardano_network {
                    Some(n) => Some(n.as_str()),
                    None => None,
                },
            );
            v.push(ClientPlan::Cardano(network, p));
        },
        None => {},
    }
    match solana_rpc_url {
        Some(u) => v.push(ClientPlan::Solana(u)),
        None => {},
    }
    match polkadot_rpc_url {
        Some(u) => v.push(ClientPlan::Polkadot(u)),
        None => {},
    }
    assert(v@ =~= plans_of(s));
    v
}

} // verus!
