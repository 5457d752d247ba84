use super::Chain;
use vstd::prelude::*;

verus! {

/// A block as the monitor reports it.
#[derive(Debug, Clone)]
pub struct Block {
    pub chain: Chain,
    pub height: u64,
    pub hash: String,
    pub timestamp: i64,
    pub transaction_count: usize,
    pub size: u64,
}

/// What a block holds, with its hash as text.
pub struct BlockView {
    pub chain: Chain,
    pub height: u64,
    pub hash: Seq<char>,
    pub timestamp: i64,
    pub transaction_count: usize,
    pub size: u64,
}

impl View for Block {
    type V = BlockView;

    open spec fn view(&self) -> BlockView {
        BlockView {
            chain: self.chain,
            height: self.height,
            hash: self.hash@,
            timestamp: self.timestamp,
            transaction_count: self.transaction_count,
            size: self.size,
        }
    }
}

impl Block {
    /// A copy of the block.
    pub fn copy(&self) -> (b: Block)
        ensures
            b == *self,
    {
        Block {
            chain: self.chain,
            height: self.height,
            hash: self.hash.clone(),
            timestamp: self.timestamp,
            transaction_count: self.transaction_count,
            size: self.size,
        }
    }
}

/// A transaction as the monitor reports it.
#[derive(Debug, Clone)]
pub struct Transaction {
    pub hash: String,
    pub from: Option<String>,
    pub to: Option<String>,
    pub value: String,
    pub fee: String,
}

/// An exact rational number `num / den`; `den` is positive in every ratio
/// that the library builds.
#[derive(Debug, Clone, Copy, PartialEq, Eq, Structural)]
pub struct Ratio {
    pub num: i128,
    pub den: u64,
}

/// `v` rounded toward zero and clamped into `u64`, negative values giving 0:
/// what a cast `as u64` gives for the number that the ratio stands for.
pub open spec fn saturating_whole(num: int, den: int) -> u64 {
    if num <= 0 {
        0
    } else if num / den > u64::MAX {
        u64::MAX
    } else {
        (num / den) as u64
    }
}

impl Ratio {
    /// The value of the ratio.
    pub open spec fn value_is(self, num: int, den: int) -> bool {
        self.num * den == num * self.den
    }

    /// The integer `n`.
    pub fn whole(n: i128) -> (r: Ratio)
        ensures
            r.num == n,
            r.den == 1,
    {
        Ratio { num: n, den: 1 }
    }

    /// The ratio rounded toward zero and clamped into `u64`.
    pub fn to_u64_saturating(&self) -> (r: u64)
        requires
            self.den > 0,
        ensures
            r == saturating_whole(self.num as int, self.den as int),
    {
        if self.num <= 0 {
            0
        } else {
            let q: i128 = self.num / (self.den as i128);
            if q > u64::MAX as i128 {
                u64::MAX
            } else {
                q as u64
            }
        }
    }
}

/// The throughput and timing of a chain. Rates are exact ratios.
#[derive(Debug, Clone, Copy)]
pub struct ChainMetrics {
    pub chain: Chain,
    /// Transactions per second.
    pub tps: Ratio,
    /// Seconds between blocks.
    pub block_time: Ratio,
    pub pending_transactions: usize,
    pub peer_count: u32,
}

} // verus!
