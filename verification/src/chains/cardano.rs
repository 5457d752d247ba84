//! The Cardano client over the Blockfrost HTTP API: where it sends its
//! requests, how it reads a Blockfrost block, and its metrics.

use super::types::{Block, BlockView, ChainMetrics, Ratio};
use super::Chain;
use crate::net::new_http_client;
use crate::text::{decimal_digits, decimal_string, str_equals};
use vstd::prelude::*;

verus! {

/// A Cardano network that Blockfrost serves.
#[derive(Debug, Clone, Copy, PartialEq, Eq, Structural)]
pub enum CardanoNetwork {
    Mainnet,
    Preprod,
    Preview,
}

/// The Blockfrost API root of a network.
pub open spec fn network_api_url(n: CardanoNetwork) -> Seq<char> {
    match n {
        CardanoNetwork::Mainnet => "https://cardano-mainnet.blockfrost.io/api/v0"@,
        CardanoNetwork::Preprod => "https://cardano-preprod.blockfrost.io/api/v0"@,
        CardanoNetwork::Preview => "https://cardano-preview.blockfrost.io/api/v0"@,
    }
}

/// The network that a `CARDANO_NETWORK` setting names: `mainnet`, `preprod`,
/// and otherwise (unset too) `preview`.
pub open spec fn network_setting(value: Option<Seq<char>>) -> CardanoNetwork {
    match value {
        Some(v) => if v == "mainnet"@ {
            CardanoNetwork::Mainnet
        } else if v == "preprod"@ {
            CardanoNetwork::Preprod
        } else {
            CardanoNetwork::Preview
        },
        None => CardanoNetwork::Preview,
    }
}

impl CardanoNetwork {
    /// The Blockfrost API root of the network.
    pub fn api_url(&self) -> (r: &'static str)
        ensures
            r@ == network_api_url(*self),
    {
        match self {
            CardanoNetwork::Mainnet => "https://cardano-mainnet.blockfrost.io/api/v0",
            CardanoNetwork::Preprod => "https://cardano-preprod.blockfrost.io/api/v0",
            CardanoNetwork::Preview => "https://cardano-preview.blockfrost.io/api/v0",
        }
    }

    /// The network that a `CARDANO_NETWORK` setting names (`None` where it is
    /// unset).
    pub fn from_setting(value: Option<&str>) -> (n: CardanoNetwork)
        ensures
            n == network_setting(match value {
                Some(v) => Some(v@),
                None => None,
            }),
    {
        match value {
            Some(v) => if str_equals(v, "mainnet") {
                CardanoNetwork::Mainnet
            } else if str_equals(v, "preprod") {
                CardanoNetwork::Preprod
            } else {
                CardanoNetwork::Preview
            },
            None => CardanoNetwork::Preview,
        }
    }
}

/// A block as Blockfrost's `/blocks/{hash_or_number}` describes it.
#[derive(Debug, Clone)]
pub struct BlockfrostBlock {
    pub height: Option<u64>,
    pub hash: String,
    pub time: i64,
    pub transaction_count: usize,
    pub size: u64,
    pub slot: u64,
    pub epoch: u32,
}

/// The monitor's record of a Blockfrost block: a block without a height
/// counts as height 0.
pub open spec fn cardano_block(b: BlockfrostBlock) -> BlockView {
    BlockView {
        chain: Chain::Cardano,
        height: match b.height {
            Some(h) => h,
            None => 0,
        },
        hash: b.hash@,
        timestamp: b.time,
        transaction_count: b.transaction_count,
        size: b.size,
    }
}

impl BlockfrostBlock {
    /// The monitor's record of the block.
    pub fn into_block(self) -> (b: Block)
        ensures
            b@ == cardano_block(self),
    {
        Block {
            chain: Chain::Cardano,
            height: match self.height {
                Some(h) => h,
                None => 0,
            },
            hash: self.hash,
            timestamp: self.time,
            transaction_count: self.transaction_count,
            size: self.size,
        }
    }
}

/// A client of the Blockfrost API for one Cardano network.
pub struct CardanoClient {
    api_url: String,
    project_id: String,
    client: reqwest::Client,
}

impl CardanoClient {
    /// The API root that requests go to.
    pub closed spec fn api_root(&self) -> Seq<char> {
        self.api_url@
    }

    /// The Blockfrost project id sent with every request.
    pub closed spec fn project(&self) -> Seq<char> {
        self.project_id@
    }

    /// A client of `network`'s API under `project_id`.
    pub fn new(network: CardanoNetwork, project_id: String) -> (c: CardanoClient)
        ensures
            c.api_root() == network_api_url(network),
            c.project() == project_id@,
    {
        CardanoClient { api_url: String::from_str(network.api_url()), project_id, client: new_http_client() }
    }

    /// The Blockfrost project id, sent in the `project_id` header.
    pub fn project_id(&self) -> (r: &str)
        ensures
            r@ == self.project(),
    {
        self.project_id.as_str()
    }

    /// The HTTP client that the client holds.
    pub closed spec fn http_client(&self) -> reqwest::Client {
        self.client
    }

    /// The HTTP client that the requests go through.
    pub fn http(&self) -> (c: &reqwest::Client)
        ensures
            *c == self.http_client(),
    {
        &self.client
    }

    /// The URL of the API endpoint `endpoint`.
    pub fn url(&self, endpoint: &str) -> (r: String)
        ensures
            r@ == self.api_root() + endpoint@,
    {
        let mut r = self.api_url.clone();
        r.append(endpoint);
        r
    }

    /// The URL of the block `identifier` (a hash, a height or `latest`).
    pub fn block_url(&self, identifier: &str) -> (r: String)
        ensures
            r@ == self.api_root() + "/blocks/"@ + identifier@,
    {
        let mut r = self.api_url.clone();
        r.append("/blocks/");
        r.append(identifier);
        r
    }

    /// The URL of the latest block.
    pub fn latest_block_url(&self) -> (r: String)
        ensures
            r@ == self.api_root() + "/blocks/latest"@,
    {
        let r = self.url("/blocks/latest");
        r
    }

    /// The URL of the block at `height`, written in decimal.
    pub fn block_url_at(&self, height: u64) -> (r: String)
        ensures
            r@ == self.api_root() + "/blocks/"@ + decimal_digits(height as nat),
    {
        let h = decimal_string(height);
        self.block_url(h.as_str())
    }

    /// The URL of the network summary.
    pub fn network_url(&self) -> (r: String)
        ensures
            r@ == self.api_root() + "/network"@,
    {
        self.url("/network")
    }
}

/// The metrics of Cardano from its latest block: a nominal 20 seconds per
/// block, and the block's transactions over it as throughput.
pub fn cardano_metrics(latest: &Block) -> (m: ChainMetrics)
    ensures
        m.chain == Chain::Cardano,
        m.tps.num == latest.transaction_count,
        m.tps.den == 20,
        m.block_time.num == 20,
        m.block_time.den == 1,
        m.pending_transactions == 0,
        m.peer_count == 0,
{
    ChainMetrics {
        chain: Chain::Cardano,
        tps: Ratio { num: latest.transaction_count as i128, den: 20 },
        block_time: Ratio::whole(20),
        pending_transactions: 0,
        peer_count: 0,
    }
}

/// The hash that the block subscription remembers after passing on `block`:
/// always the hash of the block just fetched.
pub fn track_latest_hash(previous: String, block: &Block) -> (h: String)
    ensures
        h@ == block.hash@,
{
    if previous != block.hash {
        block.hash.clone()
    } else {
        previous
    }
}

impl Clone for CardanoClient {
    /// Another client of the same API under the same project, sharing the
    /// HTTP connection pool.
    fn clone(&self) -> (c: Self)
        ensures
            c.api_root() == self.api_root(),
            c.project() == self.project(),
    {
        CardanoClient {
            api_url: self.api_url.clone(),
            project_id: self.project_id.clone(),
            client: self.client.clone(),
        }
    }
}

} // verus!
