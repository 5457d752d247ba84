//! The Bitcoin Core JSON-RPC client: which calls it makes, and how it reads
//! their results.

use super::json::{array_items, is_rpc_request, rpc_id, rpc_params, rpc_request, rpc_result, Json, JsonNumber, RpcStep};
use super::types::{Block, BlockView, ChainMetrics, Ratio};
use super::Chain;
use crate::error::{chain_message, Error};
use crate::net::new_http_client;
use vstd::prelude::*;

verus! {

/// A client of a Bitcoin Core node's JSON-RPC endpoint.
pub struct BitcoinClient {
    rpc_url: String,
    client: reqwest::Client,
}

/// Where a Bitcoin block fetch stands.
pub enum BitcoinFetch {
    /// `getblockcount` was sent.
    AwaitHeight,
    /// `getblockhash` was sent for `height`.
    AwaitHash { height: u64 },
    /// `getblock` was sent for the block `hash` at `height`.
    AwaitBlock { height: u64, hash: String },
}

/// `r` is a call of `method` that this client sends (its requests are numbered `"1"`).
pub open spec fn bitcoin_call(r: Json, method: Seq<char>) -> bool {
    is_rpc_request(r, method) && rpc_id(r).str_value() == Some("1"@)
}

/// The block that the `getblock` result `data` describes, for the block
/// `hash` at `height`: missing or mistyped members count as 0.
pub open spec fn bitcoin_block(height: u64, hash: Seq<char>, data: Json) -> BlockView {
    BlockView {
        chain: Chain::Bitcoin,
        height,
        hash,
        timestamp: match data.at("time"@).i64_value() {
            Some(t) => t,
            None => 0,
        },
        transaction_count: match data.at("tx"@).array_length() {
            Some(n) => n as usize,
            None => 0,
        },
        size: match data.at("size"@).u64_value() {
            Some(s) => s,
            None => 0,
        },
    }
}

/// A `getblock` result gives its block from three members alone: results
/// that agree on `time`, `tx` and `size` give the same block, whatever other
/// members they hold (`strippedsize`, `weight` and the like). The block's
/// size is the `size` member's value (0 where it is missing or no `u64`),
/// its time the `time` member's, and its transactions the length of the
/// `tx` list.
pub proof fn lemma_bitcoin_block_reads_its_members(height: u64, hash: Seq<char>, d1: Json, d2: Json)
    requires
        d1.at("time"@) == d2.at("time"@),
        d1.at("tx"@).array_length() == d2.at("tx"@).array_length(),
        d1.at("size"@) == d2.at("size"@),
    ensures
        bitcoin_block(height, hash, d1) == bitcoin_block(height, hash, d2),
        d1.at("size"@).u64_value() matches Some(z) ==> bitcoin_block(height, hash, d1).size == z,
        d1.at("size"@).u64_value() is None ==> bitcoin_block(height, hash, d1).size == 0,
        d1.at("time"@).i64_value() matches Some(t) ==> bitcoin_block(height, hash, d1).timestamp == t,
        d1.at("tx"@).array_length() matches Some(n) ==> bitcoin_block(height, hash, d1).transaction_count == n as usize,
        bitcoin_block(height, hash, d1).height == height,
        bitcoin_block(height, hash, d1).hash == hash,
{
}

/// The step that asks for the hash of the block at `height`.
pub open spec fn asks_hash_of(step: RpcStep<BitcoinFetch>, height: u64) -> bool {
    &&& step matches RpcStep::Call(BitcoinFetch::AwaitHash { height: h }, r)
    &&& h == height
    &&& bitcoin_call(r, "getblockhash"@)
    &&& array_items(rpc_params(r)).len() == 1
    &&& array_items(rpc_params(r))[0].u64_value() == Some(height)
}

impl BitcoinClient {
    /// The node's endpoint.
    pub closed spec fn endpoint(&self) -> Seq<char> {
        self.rpc_url@
    }

    /// A client of the node at `rpc_url`.
    pub fn new(rpc_url: String) -> (c: BitcoinClient)
        ensures
            c.endpoint() == rpc_url@,
    {
        BitcoinClient { rpc_url, client: new_http_client() }
    }

    /// The node's endpoint.
    pub fn rpc_url(&self) -> (r: &str)
        ensures
            r@ == self.endpoint(),
    {
        self.rpc_url.as_str()
    }

    /// The HTTP client that the client holds.
    pub closed spec fn http_client(&self) -> reqwest::Client {
        self.client
    }

    /// The HTTP client that the calls go through.
    pub fn http(&self) -> (c: &reqwest::Client)
        ensures
            *c == self.http_client(),
    {
        &self.client
    }

    /// The request for `method` with `params`.
    pub fn request(&self, method: &str, params: Json) -> (r: Json)
        ensures
            bitcoin_call(r, method@),
            rpc_params(r) == params,
    {
        rpc_request(Json::string("1"), method, params)
    }

    /// The `result` of a response; an error where it has none.
    pub fn read_response(&self, response: Json) -> (r: Result<Json, Error>)
        ensures
            match response.field("result"@) {
                Some(v) => r == Ok::<Json, Error>(v),
                None => r is Err && chain_message(r->Err_0) == Some("No result in response"@),
            },
    {
        rpc_result(response, "No result in response")
    }

    /// The first call of a fetch of the latest block: `getblockcount`.
    pub fn start_latest_block(&self) -> (step: RpcStep<BitcoinFetch>)
        ensures
            step matches RpcStep::Call(BitcoinFetch::AwaitHeight, r) && bitcoin_call(r, "getblockcount"@)
                && array_items(rpc_params(r)).len() == 0,
    {
        let params = Json::Array(Vec::new());
        RpcStep::Call(BitcoinFetch::AwaitHeight, self.request("getblockcount", params))
    }

    /// The first call of a fetch of the block at `height`: `getblockhash`.
    pub fn start_block_at(&self, height: u64) -> (step: RpcStep<BitcoinFetch>)
        ensures
            asks_hash_of(step, height),
    {
        let mut items: Vec<Json> = Vec::new();
        items.push(Json::Number(JsonNumber::PosInt(height)));
        let params = Json::Array(items);
        RpcStep::Call(BitcoinFetch::AwaitHash { height }, self.request("getblockhash", params))
    }

    /// The next step of a block fetch, given the `result` of the call that
    /// `state` waits for.
    pub fn advance(&self, state: BitcoinFetch, result: Json) -> (step: RpcStep<BitcoinFetch>)
        ensures
            match state {
                BitcoinFetch::AwaitHeight => match result.u64_value() {
                    Some(h) => asks_hash_of(step, h),
                    None => step matches RpcStep::Done(Err(e)) && chain_message(e) == Some("Invalid block height"@),
                },
                BitcoinFetch::AwaitHash { height } => match result.str_value() {
                    Some(hash) => {
                        &&& step matches RpcStep::Call(BitcoinFetch::AwaitBlock { height: h, hash: hs }, r)
                        &&& h == height && hs@ == hash
                        &&& bitcoin_call(r, "getblock"@)
                        &&& array_items(rpc_params(r)).len() == 2
                        &&& array_items(rpc_params(r))[0].str_value() == Some(hash)
                        &&& array_items(rpc_params(r))[1].u64_value() == Some(1u64)
                    },
                    None => step matches RpcStep::Done(Err(e)) && chain_message(e) == Some("Invalid block hash"@),
                },
                BitcoinFetch::AwaitBlock { height, hash } => step matches RpcStep::Done(Ok(b)) && b@ == bitcoin_block(height, hash@, result)
                    && b.chain == Chain::Bitcoin && b.height == height && b.hash@ == hash@
                    && b.timestamp == (match result.at("time"@).i64_value() {
                        Some(t) => t,
                        None => 0i64,
                    })
                    && b.transaction_count == (match result.at("tx"@).array_length() {
                        Some(n) => n as usize,
                        None => 0usize,
                    })
                    && b.size == (match result.at("size"@).u64_value() {
                        Some(z) => z,
                        None => 0u64,
                    }),
            },
    {
        match state {
            BitcoinFetch::AwaitHeight => match result.as_u64() {
                Some(h) => self.start_block_at(h),
                None => RpcStep::Done(Err(Error::chain("Invalid block height"))),
            },
            BitcoinFetch::AwaitHash { height } => match result.as_str() {
                Some(hash) => {
                    let mut items: Vec<Json> = Vec::new();
                    items.push(Json::string(hash));
                    items.push(Json::Number(JsonNumber::PosInt(1)));
                    let request = self.request("getblock", Json::Array(items));
                    RpcStep::Call(BitcoinFetch::AwaitBlock { height, hash: String::from_str(hash) }, request)
                },
                None => RpcStep::Done(Err(Error::chain("Invalid block hash"))),
            },
            BitcoinFetch::AwaitBlock { height, hash } => {
                let timestamp = match result.index("time").as_i64() {
                    Some(t) => t,
                    None => 0,
                };
                let transaction_count = match result.index("tx").array_len() {
                    Some(n) => n,
                    None => 0,
                };
                let size = match result.index("size").as_u64() {
                    Some(s) => s,
                    None => 0,
                };
                RpcStep::Done(Ok(Block { chain: Chain::Bitcoin, height, hash, timestamp, transaction_count, size }))
            },
        }
    }

    /// The node's metrics: Bitcoin's nominal 7 transactions per second and
    /// 600 seconds per block; pending transactions and peers are not asked for.
    pub fn get_metrics(&self) -> (r: Result<ChainMetrics, Error>)
        ensures
            r matches Ok(m) && m.chain == Chain::Bitcoin && m.tps.num == 7 && m.tps.den == 1
                && m.block_time.num == 600 && m.block_time.den == 1 && m.pending_transactions == 0
                && m.peer_count == 0,
    {
        Ok(ChainMetrics {
            chain: Chain::Bitcoin,
            tps: Ratio::whole(7),
            block_time: Ratio::whole(600),
            pending_transactions: 0,
            peer_count: 0,
        })
    }
}

impl Clone for BitcoinClient {
    /// Another client of the same node, sharing the HTTP connection pool.
    fn clone(&self) -> (c: Self)
        ensures
            c.endpoint() == self.endpoint(),
    {
        BitcoinClient { rpc_url: self.rpc_url.clone(), client: self.client.clone() }
    }
}

} // verus!
