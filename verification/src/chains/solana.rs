//! The Solana client's reading of blocks, its slot polling and its metrics.
//! The client itself talks to the node through `solana_client`; this module
//! holds what it does with the answers.

use super::types::{Block, BlockView, ChainMetrics, Ratio};
use super::Chain;
use vstd::prelude::*;

verus! {

/// The parts of a confirmed Solana block that the monitor reads.
#[derive(Debug, Clone)]
pub struct SolanaBlockInfo {
    pub blockhash: String,
    /// Seconds since the Unix epoch, where the node knows it.
    pub block_time: Option<i64>,
    /// The number of transactions, where the node listed them.
    pub transaction_count: Option<usize>,
}

/// The monitor's record of the Solana block at `slot`: unknown times and
/// counts count as 0.
pub open spec fn solana_block_view(slot: u64, info: SolanaBlockInfo) -> BlockView {
    BlockView {
        chain: Chain::Solana,
        height: slot,
        hash: info.blockhash@,
        timestamp: match info.block_time {
            Some(t) => t,
            None => 0,
        },
        transaction_count: match info.transaction_count {
            Some(n) => n,
            None => 0,
        },
        size: 0,
    }
}

/// The monitor's record of the Solana block at `slot`.
pub fn solana_block(slot: u64, info: SolanaBlockInfo) -> (b: Block)
    ensures
        b@ == solana_block_view(slot, info),
        b.chain == Chain::Solana,
        b.height == slot,
        b.hash@ == info.blockhash@,
        b.timestamp == (match info.block_time {
            Some(t) => t,
            None => 0i64,
        }),
        b.transaction_count == (match info.transaction_count {
            Some(n) => n,
            None => 0usize,
        }),
        b.size == 0,
{
    Block {
        chain: Chain::Solana,
        height: slot,
        hash: info.blockhash,
        timestamp: match info.block_time {
            Some(t) => t,
            None => 0,
        },
        transaction_count: match info.transaction_count {
            Some(n) => n,
            None => 0,
        },
        size: 0,
    }
}

/// The record of a Solana block keeps what the node reported: its hash is
/// the node's blockhash and its height the slot, so blocks reported with
/// different hashes, or at different slots, get different records.
pub proof fn lemma_solana_record_keeps_the_node_hash(slot: u64, info: SolanaBlockInfo, other_slot: u64, other: SolanaBlockInfo)
    ensures
        solana_block_view(slot, info).hash == info.blockhash@,
        solana_block_view(slot, info).height == slot,
        info.blockhash@ != other.blockhash@ ==> solana_block_view(slot, info) != solana_block_view(other_slot, other),
        slot != other_slot ==> solana_block_view(slot, info) != solana_block_view(other_slot, other),
{
}

/// One of the node's recent performance samples.
#[derive(Debug, Clone, Copy)]
pub struct PerfSample {
    pub num_transactions: u64,
    pub sample_period_secs: u16,
}

/// The sum over `samples` of each sample's transactions per second, each
/// rounded down.
pub open spec fn samples_rate_total(samples: Seq<PerfSample>) -> nat
    decreases samples.len(),
{
    if samples.len() == 0 {
        0
    } else {
        samples_rate_total(samples.drop_last()) + samples.last().num_transactions as nat
            / samples.last().sample_period_secs as nat
    }
}

/// Every sample covers a period of at least a second.
pub open spec fn periods_positive(samples: Seq<PerfSample>) -> bool {
    forall|i: int| 0 <= i < samples.len() ==> (#[trigger] samples[i]).sample_period_secs > 0
}

/// The slot before `slot`, or 0.
pub fn previous_slot(slot: u64) -> (s: u64)
    ensures
        s == if slot > 0 { slot - 1 } else { 0 },
{
    slot.saturating_sub(1)
}

/// The metrics of Solana: the mean of the samples' transactions per second
/// (each rounded down first; 0 without samples), and the time between the
/// current slot and the one before.
pub fn solana_metrics(samples: &Vec<PerfSample>, current_time: i64, prev_time: i64) -> (m: ChainMetrics)
    requires
        periods_positive(samples@),
        samples_rate_total(samples@) <= u64::MAX,
        i64::MIN <= current_time - prev_time <= i64::MAX,
    ensures
        m.chain == Chain::Solana,
        samples@.len() > 0 ==> m.tps.num == samples_rate_total(samples@) && m.tps.den == samples@.len(),
        samples@.len() == 0 ==> m.tps.num == 0 && m.tps.den == 1,
        m.block_time.num == current_time - prev_time,
        m.block_time.den == 1,
        m.pending_transactions == 0,
        m.peer_count == 0,
{
    let n = samples.len();
    let mut total: u64 = 0;
    let mut i: usize = 0;
    while i < n
        invariant
            n == samples@.len(),
            i <= n,
            periods_positive(samples@),
            samples_rate_total(samples@) <= u64::MAX,
            total == samples_rate_total(samples@.take(i as int)),
        decreases n - i,
    {
        proof {
            lemma_rate_total_prefix(samples@, (i + 1) as nat);
            assert(samples@.take(i + 1).drop_last() =~= samples@.take(i as int));
        }
        let s = samples[i];
        assert(s.sample_period_secs > 0);
        total = total + s.num_transactions / (s.sample_period_secs as u64);
        i = i + 1;
    }
    assert(samples@.take(n as int) =~= samples@);
    let tps = if n > 0 {
        Ratio { num: total as i128, den: n as u64 }
    } else {
        Ratio::whole(0)
    };
    ChainMetrics {
        chain: Chain::Solana,
        tps,
        block_time: Ratio::whole((current_time - prev_time) as i128),
        pending_transactions: 0,
        peer_count: 0,
    }
}

/// A prefix of the samples adds up to no more than all of them.
proof fn lemma_rate_total_prefix(samples: Seq<PerfSample>, k: nat)
    requires
        k <= samples.len(),
        periods_positive(samples),
    ensures
        samples_rate_total(samples.take(k as int)) <= samples_rate_total(samples),
    decreases samples.len() - k,
{
    if k < samples.len() {
        lemma_rate_total_prefix(samples, k + 1);
        let t = samples.take((k + 1) as int);
        assert(t.drop_last() =~= samples.take(k as int));
        assert(t.last() == samples[k as int]);
    } else {
        assert(samples.take(k as int) =~= samples);
    }
}

/// The sum of the samples' transactions per second (each rounded down), as
/// `solana_metrics` adds them up; `None` where a sample covers no time or the
/// sum goes beyond a `u64`, the inputs on which adding them up fails.
pub fn checked_samples_rate_total(samples: &Vec<PerfSample>) -> (r: Option<u64>)
    ensures
        r == (if periods_positive(samples@) && samples_rate_total(samples@) <= u64::MAX {
            Some(samples_rate_total(samples@) as u64)
        } else {
            None
        }),
{
    let n = samples.len();
    let mut total: u64 = 0;
    let mut i: usize = 0;
    while i < n
        invariant
            n == samples@.len(),
            i <= n,
            forall|j: int| 0 <= j < i ==> (#[trigger] samples@[j]).sample_period_secs > 0,
            total == samples_rate_total(samples@.take(i as int)),
        decreases n - i,
    {
        let s = samples[i];
        if s.sample_period_secs == 0 {
            assert(!periods_positive(samples@)) by {
                assert(samples@[i as int].sample_period_secs == 0);
            }
            return None;
        }
        let ghost t = samples@.take(i + 1);
        assert(t.drop_last() =~= samples@.take(i as int));
        assert(t.last() == samples@[i as int]);
        match total.checked_add(s.num_transactions / (s.sample_period_secs as u64)) {
            Some(next) => {
                total = next;
            },
            None => {
                proof {
                    if periods_positive(samples@) {
                        lemma_rate_total_prefix(samples@, (i + 1) as nat);
                    }
                }
                return None;
            },
        }
        i = i + 1;
    }
    assert(samples@.take(n as int) =~= samples@);
    Some(total)
}

/// The newest slot that the block subscription has passed on.
#[derive(Debug, Clone, Copy)]
pub struct SlotTracker {
    pub last_slot: u64,
}

impl SlotTracker {
    /// A tracker that has passed on nothing yet.
    pub fn new() -> (t: SlotTracker)
        ensures
            t.last_slot == 0,
    {
        SlotTracker { last_slot: 0 }
    }

    /// Whether the block at `slot` is new: it is where `slot` lies beyond
    /// every slot seen so far, and then it becomes the last one.
    pub fn observe(&mut self, slot: u64) -> (fresh: bool)
        ensures
            fresh == (slot > old(self).last_slot),
            final(self).last_slot == if fresh { slot } else { old(self).last_slot },
            final(self).last_slot >= old(self).last_slot,
    {
        if slot > self.last_slot {
            self.last_slot = slot;
            true
        } else {
            false
        }
    }
}

/// The newest slot that a tracker starting at `last` holds after observing
/// `slots` in turn (one `SlotTracker::observe` per poll).
pub open spec fn last_after_polls(last: u64, slots: Seq<u64>) -> u64
    decreases slots.len(),
{
    if slots.len() == 0 {
        last
    } else {
        let m = last_after_polls(last, slots.drop_last());
        if slots.last() > m {
            slots.last()
        } else {
            m
        }
    }
}

/// The slots whose blocks the subscription fetches while polling `slots` in
/// turn: those that `observe` finds fresh, in poll order.
pub open spec fn fresh_slots(last: u64, slots: Seq<u64>) -> Seq<u64>
    decreases slots.len(),
{
    if slots.len() == 0 {
        Seq::empty()
    } else {
        let before = fresh_slots(last, slots.drop_last());
        if slots.last() > last_after_polls(last, slots.drop_last()) {
            before.push(slots.last())
        } else {
            before
        }
    }
}

/// Over any run of polls, the subscription passes on blocks of strictly
/// rising slots, each above the slot the tracker started from (so above 0
/// for a new tracker); the tracker then holds the newest slot seen, at least
/// every slot polled, and equal to the last slot passed on.
pub proof fn lemma_polled_slots_rise(last: u64, slots: Seq<u64>)
    ensures
        forall|i: int, j: int|
            0 <= i < j < fresh_slots(last, slots).len() ==> fresh_slots(last, slots)[i] < fresh_slots(last, slots)[j],
        forall|i: int| 0 <= i < fresh_slots(last, slots).len() ==> fresh_slots(last, slots)[i] > last,
        forall|k: int| 0 <= k < slots.len() ==> slots[k] <= last_after_polls(last, slots),
        last_after_polls(last, slots) >= last,
        fresh_slots(last, slots).len() > 0 ==> last_after_polls(last, slots) == fresh_slots(last, slots).last(),
        fresh_slots(last, slots).len() == 0 ==> last_after_polls(last, slots) == last,
    decreases slots.len(),
{
    if slots.len() > 0 {
        let front = slots.drop_last();
        lemma_polled_slots_rise(last, front);
        let f = fresh_slots(last, front);
        let m = last_after_polls(last, front);
        assert forall|k: int| 0 <= k < slots.len() implies slots[k] <= last_after_polls(last, slots) by {
            if k < front.len() {
                assert(slots[k] == front[k]);
            }
        }
        if slots.last() > m {
            let g = f.push(slots.last());
            assert forall|i: int, j: int| 0 <= i < j < g.len() implies g[i] < g[j] by {
                if j == g.len() - 1 {
                    if f.len() > 0 {
                        assert(f[i] <= f.last());
                    }
                } else {
                    assert(g[i] == f[i] && g[j] == f[j]);
                }
            }
            assert forall|i: int| 0 <= i < g.len() implies g[i] > last by {
                if i < f.len() {
                    assert(g[i] == f[i]);
                }
            }
        }
    }
}

} // verus!
