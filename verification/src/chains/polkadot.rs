//! The Polkadot (Substrate) JSON-RPC client: which calls it makes, how it
//! reads their results, and the metrics it derives from two blocks.

use super::json::{array_items, is_rpc_request, rpc_id, rpc_params, rpc_request, rpc_result, Json, JsonNumber, RpcStep};
use super::types::{Block, BlockView, ChainMetrics, Ratio};
use super::Chain;
use crate::clock::unix_timestamp_now;
use crate::error::{chain_message, Error};
use crate::net::new_http_client;
use crate::text::{hex_digits, hex_string_0x, hex_text_value, hex_to_u64};
use vstd::prelude::*;

verus! {

/// A client of a Polkadot node's JSON-RPC endpoint.
pub struct PolkadotClient {
    rpc_url: String,
    client: reqwest::Client,
}

/// Where a Polkadot block fetch stands.
pub enum PolkadotFetch {
    /// `chain_getFinalizedHead` was sent.
    AwaitHead,
    /// `chain_getBlock` was sent for the finalized head `hash`.
    AwaitHeadBlock { hash: String },
    /// `chain_getBlockHash` was sent for `height`.
    AwaitHash { height: u64 },
    /// `chain_getBlock` was sent for the block `hash` at `height`.
    AwaitBlock { height: u64, hash: String },
}

/// `r` is a call of `method` that this client sends (its requests are numbered 1).
pub open spec fn polkadot_call(r: Json, method: Seq<char>) -> bool {
    is_rpc_request(r, method) && rpc_id(r).u64_value() == Some(1u64)
}

/// `r` calls `method` with the single text parameter `arg`.
pub open spec fn polkadot_call_with(r: Json, method: Seq<char>, arg: Seq<char>) -> bool {
    &&& polkadot_call(r, method)
    &&& array_items(rpc_params(r)).len() == 1
    &&& array_items(rpc_params(r))[0].str_value() == Some(arg)
}

/// The block number text in a `chain_getBlock` result.
pub open spec fn header_number(data: Json) -> Option<Seq<char>> {
    data.at("block"@).at("header"@).at("number"@).str_value()
}

/// The block that the `chain_getBlock` result `data` describes, for the
/// block `hash` at `height`, stamped with the time `now`.
pub open spec fn polkadot_block(height: u64, hash: Seq<char>, data: Json, now: i64) -> BlockView {
    BlockView {
        chain: Chain::Polkadot,
        height,
        hash,
        timestamp: now,
        transaction_count: match data.at("block"@).at("extrinsics"@).array_length() {
            Some(n) => n as usize,
            None => 0,
        },
        size: 0,
    }
}

/// A Polkadot block is stamped with the time it was read at, whatever the
/// node answered: the same answer read at two different times gives blocks
/// that differ exactly in their stamp.
pub proof fn lemma_polkadot_block_is_stamped_when_read(height: u64, hash: Seq<char>, data: Json, t1: i64, t2: i64)
    ensures
        polkadot_block(height, hash, data, t1).timestamp == t1,
        t1 != t2 ==> polkadot_block(height, hash, data, t1) != polkadot_block(height, hash, data, t2),
        polkadot_block(height, hash, data, t1) == (BlockView { timestamp: t1, ..polkadot_block(height, hash, data, t2) }),
{
}

/// What `advance_at` does with the `result` of the call that `state` waits
/// for, at the time `now`.
pub open spec fn polkadot_step(state: PolkadotFetch, result: Json, now: i64, step: RpcStep<PolkadotFetch>) -> bool {
    match state {
        PolkadotFetch::AwaitHead => match result.str_value() {
            Some(hash) => {
                &&& step matches RpcStep::Call(PolkadotFetch::AwaitHeadBlock { hash: hs }, r)
                &&& hs@ == hash
                &&& polkadot_call_with(r, "chain_getBlock"@, hash)
            },
            None => step matches RpcStep::Done(Err(e)) && chain_message(e) == Some("Invalid block hash"@),
        },
        PolkadotFetch::AwaitHeadBlock { hash } => match header_number(result) {
            Some(number) => step matches RpcStep::Done(Ok(b))
                && b@ == polkadot_block(hex_text_value(number), hash@, result, now),
            None => step matches RpcStep::Done(Err(e)) && chain_message(e) == Some("No block number"@),
        },
        PolkadotFetch::AwaitHash { height } => match result.str_value() {
            Some(hash) => {
                &&& step matches RpcStep::Call(PolkadotFetch::AwaitBlock { height: h, hash: hs }, r)
                &&& h == height && hs@ == hash
                &&& polkadot_call_with(r, "chain_getBlock"@, hash)
            },
            None => step matches RpcStep::Done(Err(e)) && chain_message(e) == Some("Invalid block hash"@),
        },
        PolkadotFetch::AwaitBlock { height, hash } => step matches RpcStep::Done(Ok(b))
            && b@ == polkadot_block(height, hash@, result, now),
    }
}

impl PolkadotClient {
    /// The node's endpoint.
    pub closed spec fn endpoint(&self) -> Seq<char> {
        self.rpc_url@
    }

    /// A client of the node at `rpc_url`.
    pub fn new(rpc_url: String) -> (c: PolkadotClient)
        ensures
            c.endpoint() == rpc_url@,
    {
        PolkadotClient { rpc_url, client: new_http_client() }
    }

    /// The node's endpoint.
    pub fn rpc_url(&self) -> (r: &str)
        ensures
            r@ == self.endpoint(),
    {
        self.rpc_url.as_str()
    }

    /// The HTTP client that the client holds.
    pub closed spec fn http_client(&self) -> reqwest::Client {
        self.client
    }

    /// The HTTP client that the calls go through.
    pub fn http(&self) -> (c: &reqwest::Client)
        ensures
            *c == self.http_client(),
    {
        &self.client
    }

    /// The request for `method` with `params`.
    pub fn request(&self, method: &str, params: Json) -> (r: Json)
        ensures
            polkadot_call(r, method@),
            rpc_params(r) == params,
    {
        rpc_request(Json::Number(JsonNumber::PosInt(1)), method, params)
    }

    fn request_with(&self, method: &str, arg: &str) -> (r: Json)
        ensures
            polkadot_call_with(r, method@, arg@),
    {
        let mut items: Vec<Json> = Vec::new();
        items.push(Json::string(arg));
        self.request(method, Json::Array(items))
    }

    /// The `result` of a response; an error where it has none.
    pub fn read_response(&self, response: Json) -> (r: Result<Json, Error>)
        ensures
            match response.field("result"@) {
                Some(v) => r == Ok::<Json, Error>(v),
                None => r is Err && chain_message(r->Err_0) == Some("No result in RPC response"@),
            },
    {
        rpc_result(response, "No result in RPC response")
    }

    /// The first call of a fetch of the latest finalized block:
    /// `chain_getFinalizedHead`.
    pub fn start_latest_block(&self) -> (step: RpcStep<PolkadotFetch>)
        ensures
            step matches RpcStep::Call(PolkadotFetch::AwaitHead, r) && polkadot_call(r, "chain_getFinalizedHead"@)
                && array_items(rpc_params(r)).len() == 0,
    {
        RpcStep::Call(PolkadotFetch::AwaitHead, self.request("chain_getFinalizedHead", Json::Array(Vec::new())))
    }

    /// The first call of a fetch of the block at `height`:
    /// `chain_getBlockHash` with the height in hexadecimal after `0x`.
    pub fn start_block_at(&self, height: u64) -> (step: RpcStep<PolkadotFetch>)
        ensures
            step matches RpcStep::Call(PolkadotFetch::AwaitHash { height: h }, r) && h == height
                && polkadot_call_with(r, "chain_getBlockHash"@, "0x"@ + hex_digits(height as nat)),
    {
        let hex = hex_string_0x(height);
        RpcStep::Call(PolkadotFetch::AwaitHash { height }, self.request_with("chain_getBlockHash", hex.as_str()))
    }

    /// The next step of a block fetch, given the `result` of the call that
    /// `state` waits for; a block that comes out is stamped with `now`.
    pub fn advance_at(&self, state: PolkadotFetch, result: Json, now: i64) -> (step: RpcStep<PolkadotFetch>)
        ensures
            polkadot_step(state, result, now, step),
            step matches RpcStep::Done(Ok(b)) ==> b.timestamp == now && b.chain == Chain::Polkadot && b.size == 0,
    {
        match state {
            PolkadotFetch::AwaitHead => match result.as_str() {
                Some(hash) => {
                    let request = self.request_with("chain_getBlock", hash);
                    RpcStep::Call(PolkadotFetch::AwaitHeadBlock { hash: String::from_str(hash) }, request)
                },
                None => RpcStep::Done(Err(Error::chain("Invalid block hash"))),
            },
            PolkadotFetch::AwaitHeadBlock { hash } => {
                match result.index("block").index("header").index("number").as_str() {
                    Some(number) => {
                        let height = hex_to_u64(number);
                        let transaction_count = match result.index("block").index("extrinsics").array_len() {
                            Some(n) => n,
                            None => 0,
                        };
                        RpcStep::Done(Ok(Block { chain: Chain::Polkadot, height, hash, timestamp: now, transaction_count, size: 0 }))
                    },
                    None => RpcStep::Done(Err(Error::chain("No block number"))),
                }
            },
            PolkadotFetch::AwaitHash { height } => match result.as_str() {
                Some(hash) => {
                    let request = self.request_with("chain_getBlock", hash);
                    RpcStep::Call(PolkadotFetch::AwaitBlock { height, hash: String::from_str(hash) }, request)
                },
                None => RpcStep::Done(Err(Error::chain("Invalid block hash"))),
            },
            PolkadotFetch::AwaitBlock { height, hash } => {
                let transaction_count = match result.index("block").index("extrinsics").array_len() {
                    Some(n) => n,
                    None => 0,
                };
                RpcStep::Done(Ok(Block { chain: Chain::Polkadot, height, hash, timestamp: now, transaction_count, size: 0 }))
            },
        }
    }

    /// The next step of a block fetch; a block that comes out is stamped
    /// with the current Unix time. Where a block would come out and the
    /// system clock cannot give a Unix time, the fetch fails instead.
    pub fn advance(&self, state: PolkadotFetch, result: Json) -> (step: RpcStep<PolkadotFetch>)
        ensures
            (exists|now: i64| now >= 0 && polkadot_step(state, result, now, step)) || (builds_block(state, result)
                && undated(step)),
            !builds_block(state, result) ==> polkadot_step(state, result, 0, step),
    {
        let needs_time = match &state {
            PolkadotFetch::AwaitHeadBlock { .. } => result.index("block").index("header").index("number").as_str().is_some(),
            PolkadotFetch::AwaitBlock { .. } => true,
            _ => false,
        };
        if !needs_time {
            let step = self.advance_at(state, result, 0);
            assert(0i64 >= 0 && polkadot_step(state, result, 0, step));
            return step;
        }
        match unix_timestamp_now() {
            Some(now) => {
                let step = self.advance_at(state, result, now);
                assert(now >= 0 && polkadot_step(state, result, now, step));
                step
            },
            None => RpcStep::Done(Err(Error::chain("System time before Unix epoch"))),
        }
    }
}

/// The fetch fails because its block cannot be dated: the system clock gives
/// no Unix time.
pub open spec fn undated(step: RpcStep<PolkadotFetch>) -> bool {
    step matches RpcStep::Done(Err(e)) && chain_message(e) == Some("System time before Unix epoch"@)
}

/// The step after `result` puts out a block (which is dated with the clock).
pub open spec fn builds_block(state: PolkadotFetch, result: Json) -> bool {
    match state {
        PolkadotFetch::AwaitHeadBlock { .. } => header_number(result) is Some,
        PolkadotFetch::AwaitBlock { .. } => true,
        _ => false,
    }
}

/// The height of the block before `latest`, which the metrics compare it with.
pub fn previous_height(latest: &Block) -> (h: u64)
    requires
        latest.height > 0,
    ensures
        h == latest.height - 1,
{
    latest.height - 1
}

/// The seconds between two Polkadot blocks: the distance of their timestamps,
/// or the nominal 6 seconds where they are equal.
pub open spec fn polkadot_block_time(latest: i64, prev: i64) -> int {
    let d = if latest >= prev { latest - prev } else { prev - latest };
    if d > 0 { d } else { 6 }
}

/// The metrics of Polkadot from its latest block and the block before it:
/// the block time as `polkadot_block_time`, and the latest block's
/// extrinsics over that time as throughput.
pub fn polkadot_metrics(latest: &Block, prev: &Block) -> (m: ChainMetrics)
    requires
        latest.timestamp - prev.timestamp > i64::MIN,
        latest.timestamp - prev.timestamp <= i64::MAX,
    ensures
        m.chain == Chain::Polkadot,
        m.block_time.num == polkadot_block_time(latest.timestamp, prev.timestamp),
        m.block_time.den == 1,
        m.tps.num == latest.transaction_count,
        m.tps.den == polkadot_block_time(latest.timestamp, prev.timestamp),
        m.pending_transactions == 0,
        m.peer_count == 0,
{
    let diff: i64 = latest.timestamp - prev.timestamp;
    let distance: i64 = if diff >= 0 { diff } else { -diff };
    let seconds: u64 = if distance > 0 { distance as u64 } else { 6 };
    ChainMetrics {
        chain: Chain::Polkadot,
        tps: Ratio { num: latest.transaction_count as i128, den: seconds },
        block_time: Ratio::whole(seconds as i128),
        pending_transactions: 0,
        peer_count: 0,
    }
}

impl Clone for PolkadotClient {
    /// Another client of the same node, sharing the HTTP connection pool.
    fn clone(&self) -> (c: Self)
        ensures
            c.endpoint() == self.endpoint(),
    {
        PolkadotClient { rpc_url: self.rpc_url.clone(), client: self.client.clone() }
    }
}

} // verus!
