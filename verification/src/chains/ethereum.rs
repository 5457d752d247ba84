//! The Ethereum client's reading of blocks and metrics. The client itself
//! talks to the node over a WebSocket through `ethers`; this module holds
//! what it does with the answers.

use super::types::{Block, BlockView, ChainMetrics, Ratio};
use super::Chain;
use crate::text::{digit_char, lemma_digit_char_value, push_char};
use vstd::prelude::*;

verus! {

/// The parts of an Ethereum block that the monitor reads.
#[derive(Debug, Clone)]
pub struct EthBlockHeader {
    /// The block number; `None` for a pending block.
    pub number: Option<u64>,
    /// The block hash; `None` for a pending block.
    pub hash: Option<[u8; 32]>,
    /// Seconds since the Unix epoch.
    pub timestamp: u64,
    pub transaction_count: usize,
    /// The size in bytes; `None` where the node does not report it.
    pub size: Option<u64>,
}

/// `bytes` as two lower-case hexadecimal digits each.
pub open spec fn bytes_hex(bytes: Seq<u8>) -> Seq<char>
    decreases bytes.len(),
{
    if bytes.len() == 0 {
        Seq::empty()
    } else {
        bytes_hex(bytes.drop_last()).push(digit_char(bytes.last() as int / 16)).push(
            digit_char(bytes.last() as int % 16),
        )
    }
}

/// Thirty-two zero bytes: the hash of a block that has none.
pub open spec fn zero_hash() -> Seq<u8> {
    Seq::new(32, |i: int| 0u8)
}

/// How the monitor writes an Ethereum block hash: `0x` and 64 lower-case
/// hexadecimal digits (the `Debug` form of `H256`), all zeros where the
/// block has no hash.
pub open spec fn eth_hash_text(hash: Option<[u8; 32]>) -> Seq<char> {
    "0x"@ + bytes_hex(
        match hash {
            Some(h) => h@,
            None => zero_hash(),
        },
    )
}

/// The monitor's record of an Ethereum block.
pub open spec fn eth_block(chain: Chain, h: EthBlockHeader) -> BlockView {
    BlockView {
        chain,
        height: match h.number {
            Some(n) => n,
            None => 0,
        },
        hash: eth_hash_text(h.hash),
        timestamp: h.timestamp as i64,
        transaction_count: h.transaction_count,
        size: match h.size {
            Some(s) => s,
            None => 0,
        },
    }
}

/// `bytes_hex` writes each byte as two digits, high nibble first: the text
/// is twice as long as the bytes, and the digits at `2i` and `2i + 1` are
/// those of byte `i`.
pub proof fn lemma_bytes_hex_shape(bytes: Seq<u8>)
    ensures
        bytes_hex(bytes).len() == 2 * bytes.len(),
        forall|i: int| #![trigger bytes[i]]
            0 <= i < bytes.len() ==> bytes_hex(bytes)[2 * i] == digit_char(bytes[i] as int / 16)
                && bytes_hex(bytes)[2 * i + 1] == digit_char(bytes[i] as int % 16),
    decreases bytes.len(),
{
    if bytes.len() > 0 {
        let front = bytes.drop_last();
        lemma_bytes_hex_shape(front);
        assert forall|i: int| #![trigger bytes[i]]
            0 <= i < bytes.len() implies bytes_hex(bytes)[2 * i] == digit_char(bytes[i] as int / 16)
                && bytes_hex(bytes)[2 * i + 1] == digit_char(bytes[i] as int % 16) by {
            if i < front.len() {
                assert(front[i] == bytes[i]);
            }
        }
    }
}

/// Different bytes of the same length never give the same hexadecimal
/// text: the text determines the bytes.
pub proof fn lemma_bytes_hex_injective(a: Seq<u8>, b: Seq<u8>)
    requires
        a.len() == b.len(),
        bytes_hex(a) == bytes_hex(b),
    ensures
        a == b,
{
    lemma_bytes_hex_shape(a);
    lemma_bytes_hex_shape(b);
    assert forall|i: int| 0 <= i < a.len() implies a[i] == b[i] by {
        let x = a[i] as int;
        let y = b[i] as int;
        assert(bytes_hex(a)[2 * i] == bytes_hex(b)[2 * i]);
        assert(bytes_hex(a)[2 * i + 1] == bytes_hex(b)[2 * i + 1]);
        lemma_digit_char_value(x / 16);
        lemma_digit_char_value(y / 16);
        lemma_digit_char_value(x % 16);
        lemma_digit_char_value(y % 16);
        assert(x / 16 == y / 16);
        assert(x % 16 == y % 16);
    }
    assert(a =~= b);
}

/// The text of a block hash tells hashes apart: two different hashes are
/// never written the same way.
pub proof fn lemma_eth_hash_text_tells_hashes_apart(h1: [u8; 32], h2: [u8; 32])
    requires
        h1@ != h2@,
    ensures
        eth_hash_text(Some(h1)) != eth_hash_text(Some(h2)),
        eth_hash_text(Some(h1)).len() == 66,
{
    let t1 = eth_hash_text(Some(h1));
    let t2 = eth_hash_text(Some(h2));
    reveal_strlit("0x");
    lemma_bytes_hex_shape(h1@);
    lemma_bytes_hex_shape(h2@);
    if t1 == t2 {
        assert(t1.skip(2) =~= bytes_hex(h1@));
        assert(t2.skip(2) =~= bytes_hex(h2@));
        lemma_bytes_hex_injective(h1@, h2@);
    }
}

/// The record of an Ethereum block carries the header's own hash: headers
/// with different hashes give records with different hash texts, and a
/// header with a hash never gets the text of the all-zero hash unless that
/// is its hash.
pub proof fn lemma_ethereum_record_follows_the_header_hash(chain: Chain, e1: EthBlockHeader, e2: EthBlockHeader)
    requires
        e1.hash is Some,
    ensures
        e2.hash is Some && e1.hash.unwrap()@ != e2.hash.unwrap()@ ==> eth_block(chain, e1).hash != eth_block(chain, e2).hash,
        e1.hash.unwrap()@ != zero_hash() ==> eth_block(chain, e1).hash != eth_hash_text(None),
{
    let h1 = e1.hash.unwrap();
    if e2.hash is Some && h1@ != e2.hash.unwrap()@ {
        lemma_eth_hash_text_tells_hashes_apart(h1, e2.hash.unwrap());
    }
    if h1@ != zero_hash() && eth_block(chain, e1).hash == eth_hash_text(None) {
        reveal_strlit("0x");
        let t1 = eth_hash_text(Some(h1));
        let t0 = eth_hash_text(None);
        assert(t1.skip(2) =~= bytes_hex(h1@));
        assert(t0.skip(2) =~= bytes_hex(zero_hash()));
        lemma_bytes_hex_injective(h1@, zero_hash());
    }
}

fn push_byte_hex(s: &mut String, b: u8)
    ensures
        final(s)@ == old(s)@.push(digit_char(b as int / 16)).push(digit_char(b as int % 16)),
{
    let hi: u8 = b / 16;
    let lo: u8 = b % 16;
    let c1 = if hi < 10 { (hi + 48) as char } else { (hi - 10 + 97) as char };
    let c2 = if lo < 10 { (lo + 48) as char } else { (lo - 10 + 97) as char };
    push_char(s, c1);
    push_char(s, c2);
}

/// The text of a block hash, as `eth_hash_text` describes it.
pub fn hash_text(hash: &Option<[u8; 32]>) -> (r: String)
    ensures
        r@ == eth_hash_text(*hash),
{
    let mut r = String::from_str("0x");
    let ghost bytes = match *hash {
        Some(h) => h@,
        None => zero_hash(),
    };
    let mut i: usize = 0;
    while i < 32
        invariant
            i <= 32,
            bytes.len() == 32,
            bytes == (match *hash {
                Some(h) => h@,
                None => zero_hash(),
            }),
            r@ == "0x"@ + bytes_hex(bytes.take(i as int)),
        decreases 32 - i,
    {
        let b: u8 = match hash {
            Some(h) => h[i],
            None => 0,
        };
        assert(b == bytes[i as int]);
        let ghost prefix = bytes.take(i as int);
        push_byte_hex(&mut r, b);
        assert(bytes.take(i + 1).drop_last() =~= prefix);
        assert(r@ =~= "0x"@ + bytes_hex(bytes.take(i + 1)));
        i = i + 1;
    }
    assert(bytes.take(32) =~= bytes);
    r
}

/// The monitor's record of an Ethereum block of `chain`.
pub fn ethereum_block(chain: Chain, header: &EthBlockHeader) -> (b: Block)
    ensures
        b@ == eth_block(chain, *header),
        b.chain == chain,
        header.hash matches Some(h) ==> b.hash@ == "0x"@ + bytes_hex(h@),
        header.hash is None ==> b.hash@ == "0x"@ + bytes_hex(zero_hash()),
        b.height == (match header.number {
            Some(n) => n,
            None => 0u64,
        }),
        b.timestamp == header.timestamp as i64,
        b.transaction_count == header.transaction_count,
        b.size == (match header.size {
            Some(z) => z,
            None => 0u64,
        }),
{
    Block {
        chain,
        height: match header.number {
            Some(n) => n,
            None => 0,
        },
        hash: hash_text(&header.hash),
        timestamp: header.timestamp as i64,
        transaction_count: header.transaction_count,
        size: match header.size {
            Some(s) => s,
            None => 0,
        },
    }
}

/// The number of the block before the latest one, which the metrics compare
/// it with.
pub fn previous_block_number(latest: u64) -> (n: u64)
    requires
        latest > 0,
    ensures
        n == latest - 1,
{
    latest - 1
}

/// The sum of `counts`.
pub open spec fn count_total(counts: Seq<usize>) -> int
    decreases counts.len(),
{
    if counts.len() == 0 {
        0
    } else {
        count_total(counts.drop_last()) + counts.last()
    }
}

/// The number of transactions in a node's transaction pool, from the number
/// that each sender has pending and queued; `None` where the count goes
/// beyond a `usize`.
pub fn pool_transaction_count(pending: &Vec<usize>, queued: &Vec<usize>) -> (n: Option<usize>)
    ensures
        n == (if count_total(pending@) + count_total(queued@) <= usize::MAX {
            Some((count_total(pending@) + count_total(queued@)) as usize)
        } else {
            None
        }),
{
    proof {
        lemma_count_total_nonnegative(pending@);
        lemma_count_total_nonnegative(queued@);
    }
    match checked_total(pending) {
        Some(p) => match checked_total(queued) {
            Some(q) => p.checked_add(q),
            None => None,
        },
        None => None,
    }
}

/// A sum of counts is never negative.
proof fn lemma_count_total_nonnegative(counts: Seq<usize>)
    ensures
        count_total(counts) >= 0,
    decreases counts.len(),
{
    if counts.len() > 0 {
        lemma_count_total_nonnegative(counts.drop_last());
    }
}

/// The sum of a prefix of counts is no more than the sum of all of them.
proof fn lemma_count_total_prefix(counts: Seq<usize>, k: int)
    requires
        0 <= k <= counts.len(),
    ensures
        count_total(counts.take(k)) <= count_total(counts),
    decreases counts.len() - k,
{
    if k < counts.len() {
        lemma_count_total_prefix(counts, k + 1);
        assert(counts.take(k + 1).drop_last() =~= counts.take(k));
    } else {
        assert(counts.take(k) =~= counts);
    }
}

/// The sum of `counts`, or `None` where it goes beyond a `usize`.
fn checked_total(counts: &Vec<usize>) -> (n: Option<usize>)
    ensures
        n == (if count_total(counts@) <= usize::MAX {
            Some(count_total(counts@) as usize)
        } else {
            None
        }),
{
    let mut total: usize = 0;
    let mut i: usize = 0;
    while i < counts.len()
        invariant
            i <= counts@.len(),
            total == count_total(counts@.take(i as int)),
        decreases counts@.len() - i,
    {
        assert(counts@.take(i + 1).drop_last() =~= counts@.take(i as int));
        match total.checked_add(counts[i]) {
            Some(t) => {
                total = t;
            },
            None => {
                proof {
                    lemma_count_total_prefix(counts@, i + 1);
                }
                return None;
            },
        }
        i = i + 1;
    }
    assert(counts@.take(i as int) =~= counts@);
    Some(total)
}

/// The metrics of Ethereum from its latest block and the one before: the
/// time between them, the latest block's transactions over that time as
/// throughput (0 where the time is 0), and the number of transactions in the
/// node's transaction pool where it shows its pool (0 where it does not).
pub fn ethereum_metrics(
    chain: Chain,
    latest_timestamp: u64,
    prev_timestamp: u64,
    latest_transaction_count: usize,
    pool_transactions: Option<usize>,
) -> (m: ChainMetrics)
    requires
        latest_timestamp >= prev_timestamp,
    ensures
        m.chain == chain,
        m.block_time.num == latest_timestamp - prev_timestamp,
        m.block_time.den == 1,
        latest_timestamp > prev_timestamp ==> m.tps.num == latest_transaction_count && m.tps.den
            == latest_timestamp - prev_timestamp,
        latest_timestamp == prev_timestamp ==> m.tps.num == 0 && m.tps.den == 1,
        m.pending_transactions == (match pool_transactions {
            Some(n) => n,
            None => 0,
        }),
        m.peer_count == 0,
{
    let seconds: u64 = latest_timestamp - prev_timestamp;
    let pending: usize = match pool_transactions {
        Some(n) => n,
        None => 0,
    };
    let tps = if seconds > 0 {
        Ratio { num: latest_transaction_count as i128, den: seconds }
    } else {
        Ratio::whole(0)
    };
    ChainMetrics {
        chain,
        tps,
        block_time: Ratio::whole(seconds as i128),
        pending_transactions: pending,
        peer_count: 0,
    }
}

} // verus!
