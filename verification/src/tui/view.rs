//! What the dashboard's screens show, as text: ages, heights, hashes,
//! throughput peaks and block lists.

use super::app::{ChainStatus, LogEntry, Tab};
use crate::chains::types::Block;
use crate::text::{decimal_digits, decimal_string, push_decimal};
use std::collections::VecDeque;
use vstd::prelude::*;
use vstd::string::StringSliceAdditionalSpecFns;
use vstd::utf8::is_char_boundary;

verus! {

/// The place of a tab in the tab bar.
pub fn tab_index(t: Tab) -> (i: usize)
    ensures
        i == match t {
            Tab::Dashboard => 0usize,
            Tab::ChainDetails => 1usize,
            Tab::Logs => 2usize,
        },
{
    match t {
        Tab::Dashboard => 0,
        Tab::ChainDetails => 1,
        Tab::Logs => 2,
    }
}

/// `n` followed by `unit` and ` ago`.
fn ago(n: u64, unit: &str) -> (s: String)
    ensures
        s@ == decimal_digits(n as nat) + unit@ + " ago"@,
{
    let mut s = String::new();
    push_decimal(&mut s, n);
    s.append(unit);
    s.append(" ago");
    s
}

/// The age of a log entry on the dashboard tab: seconds under a minute,
/// whole minutes beyond.
pub fn short_age_label(elapsed: u64) -> (s: String)
    ensures
        elapsed < 60 ==> s@ == decimal_digits(elapsed as nat) + "s"@ + " ago"@,
        elapsed >= 60 ==> s@ == decimal_digits((elapsed / 60) as nat) + "m"@ + " ago"@,
{
    if elapsed < 60 {
        ago(elapsed, "s")
    } else {
        ago(elapsed / 60, "m")
    }
}

/// The age of a log entry on the log tab: seconds under a minute, whole
/// minutes under an hour, whole hours beyond.
pub fn long_age_label(elapsed: u64) -> (s: String)
    ensures
        elapsed < 60 ==> s@ == decimal_digits(elapsed as nat) + "s"@ + " ago"@,
        60 <= elapsed < 3600 ==> s@ == decimal_digits((elapsed / 60) as nat) + "m"@ + " ago"@,
        elapsed >= 3600 ==> s@ == decimal_digits((elapsed / 3600) as nat) + "h"@ + " ago"@,
{
    if elapsed < 60 {
        ago(elapsed, "s")
    } else if elapsed < 3600 {
        ago(elapsed / 60, "m")
    } else {
        ago(elapsed / 3600, "h")
    }
}

/// A number in decimal, or `-` where there is none.
pub fn number_or_dash(n: Option<u64>) -> (s: String)
    ensures
        s@ == match n {
            Some(v) => decimal_digits(v as nat),
            None => "-"@,
        },
{
    match n {
        Some(v) => decimal_string(v),
        None => String::from_str("-"),
    }
}

/// The height of the latest block, or `-`.
pub fn height_text(latest: &Option<Block>) -> (s: String)
    ensures
        s@ == match *latest {
            Some(b) => decimal_digits(b.height as nat),
            None => "-"@,
        },
{
    match latest {
        Some(b) => decimal_string(b.height),
        None => String::from_str("-"),
    }
}

/// The transaction count of the latest block, or `-`.
pub fn transactions_text(latest: &Option<Block>) -> (s: String)
    ensures
        s@ == match *latest {
            Some(b) => decimal_digits(b.transaction_count as nat),
            None => "-"@,
        },
{
    match latest {
        Some(b) => decimal_string(b.transaction_count as u64),
        None => String::from_str("-"),
    }
}

/// A line of the chain details tab.
#[derive(Debug, Clone, Copy, PartialEq, Eq, Structural)]
pub enum DetailField {
    Chain,
    Status,
    LatestBlock,
    BlockHash,
    Transactions,
    Tps,
    BlockTime,
}

/// The label that starts a line of the details tab.
pub open spec fn detail_label_of(f: DetailField) -> Seq<char> {
    match f {
        DetailField::Chain => "Chain: "@,
        DetailField::Status => "Status: "@,
        DetailField::LatestBlock => "Latest Block: "@,
        DetailField::BlockHash => "Block Hash: "@,
        DetailField::Transactions => "Transactions: "@,
        DetailField::Tps => "TPS: "@,
        DetailField::BlockTime => "Block Time: "@,
    }
}

/// The label that starts the details line `f`.
pub fn detail_label(f: DetailField) -> (r: &'static str)
    ensures
        r@ == detail_label_of(f),
{
    match f {
        DetailField::Chain => "Chain: ",
        DetailField::Status => "Status: ",
        DetailField::LatestBlock => "Latest Block: ",
        DetailField::BlockHash => "Block Hash: ",
        DetailField::Transactions => "Transactions: ",
        DetailField::Tps => "TPS: ",
        DetailField::BlockTime => "Block Time: ",
    }
}

/// The lines of the details tab: the chain and its status always, the
/// latest block's height, hash and transactions where a block is known, and
/// throughput and block time where metrics are known.
pub open spec fn detail_fields_of(has_block: bool, has_metrics: bool) -> Seq<DetailField> {
    seq![DetailField::Chain, DetailField::Status] + (if has_block {
        seq![DetailField::LatestBlock, DetailField::BlockHash, DetailField::Transactions]
    } else {
        Seq::empty()
    }) + (if has_metrics {
        seq![DetailField::Tps, DetailField::BlockTime]
    } else {
        Seq::empty()
    })
}

/// The lines that the details tab shows for `status`, in order.
pub fn detail_fields(status: &ChainStatus) -> (v: Vec<DetailField>)
    ensures
        v@ == detail_fields_of(status.latest_block is Some, status.metrics is Some),
{
    let mut v: Vec<DetailField> = Vec::new();
    v.push(DetailField::Chain);
    v.push(DetailField::Status);
    if status.latest_block.is_some() {
        v.push(DetailField::LatestBlock);
        v.push(DetailField::BlockHash);
        v.push(DetailField::Transactions);
    }
    if status.metrics.is_some() {
        v.push(DetailField::Tps);
        v.push(DetailField::BlockTime);
    }
    assert(v@ =~= detail_fields_of(status.latest_block is Some, status.metrics is Some));
    v
}

/// How many bytes of a hash the details tab shows: 20, or all of a shorter one.
pub open spec fn preview_len(hash: &str) -> int {
    if hash.spec_bytes().len() < 20 {
        hash.spec_bytes().len() as int
    } else {
        20
    }
}

/// The first 20 bytes of a block hash (all of a shorter one), as the
/// details tab shows it.
pub fn hash_preview(hash: &str) -> (r: &str)
    requires
        is_char_boundary(hash.spec_bytes(), preview_len(hash)),
        hash.spec_bytes().len() <= usize::MAX,
    ensures
        r.spec_bytes() == hash.spec_bytes().take(preview_len(hash)),
{
    let n = hash.len();
    let cut: usize = if n < 20 { n } else { 20 };
    let (head, _) = hash.split_at(cut);
    assert(head.spec_bytes() =~= hash.spec_bytes().take(preview_len(hash)));
    head
}

/// The largest throughput reading, or 1 where there is none.
pub fn max_tps(history: &VecDeque<u64>) -> (m: u64)
    ensures
        history@.len() == 0 ==> m == 1,
        history@.len() > 0 ==> history@.contains(m) && forall|i: int| 0 <= i < history@.len() ==> history@[i] <= m,
{
    let n = history.len();
    if n == 0 {
        return 1;
    }
    let mut m: u64 = history[0];
    let mut i: usize = 1;
    while i < n
        invariant
            n == history@.len(),
            1 <= i <= n,
            history@.contains(m),
            forall|j: int| 0 <= j < i ==> history@[j] <= m,
        decreases n - i,
    {
        let x = history[i];
        if x > m {
            m = x;
        }
        i = i + 1;
    }
    m
}

/// The line that lists a block: `Block #<height> - <count> txs`.
pub open spec fn block_line(b: Block) -> Seq<char> {
    "Block #"@ + decimal_digits(b.height as nat) + " - "@ + decimal_digits(b.transaction_count as nat) + " txs"@
}

/// The lines of the newest blocks of a history, newest first, at most 20.
pub fn recent_block_lines(history: &VecDeque<Block>) -> (lines: Vec<String>)
    ensures
        lines@.len() == if history@.len() < 20 { history@.len() } else { 20 },
        forall|k: int| 0 <= k < lines@.len() ==> (#[trigger] lines@[k])@ == block_line(history@[history@.len() - 1 - k]),
{
    let n = history.len();
    let count: usize = if n < 20 { n } else { 20 };
    let mut lines: Vec<String> = Vec::new();
    let mut k: usize = 0;
    while k < count
        invariant
            n == history@.len(),
            count == if n < 20 { n } else { 20 },
            k <= count,
            lines@.len() == k,
            forall|j: int| 0 <= j < k ==> (#[trigger] lines@[j])@ == block_line(history@[n - 1 - j]),
        decreases count - k,
    {
        let b = &history[n - 1 - k];
        let mut line = String::from_str("Block #");
        push_decimal(&mut line, b.height);
        line.append(" - ");
        push_decimal(&mut line, b.transaction_count as u64);
        line.append(" txs");
        lines.push(line);
        k = k + 1;
    }
    lines
}

/// The newest entries of a log, newest first, at most `limit` of them.
pub fn recent_logs(logs: &VecDeque<LogEntry>, limit: usize) -> (v: Vec<&LogEntry>)
    ensures
        v@.len() == if logs@.len() < limit { logs@.len() } else { limit as nat },
        forall|k: int| 0 <= k < v@.len() ==> *(#[trigger] v@[k]) == logs@[logs@.len() - 1 - k],
{
    let n = logs.len();
    let count: usize = if n < limit { n } else { limit };
    let mut v: Vec<&LogEntry> = Vec::new();
    let mut k: usize = 0;
    while k < count
        invariant
            n == logs@.len(),
            count == if n < limit { n } else { limit },
            k <= count,
            v@.len() == k,
            forall|j: int| 0 <= j < k ==> *(#[trigger] v@[j]) == logs@[n - 1 - j],
        decreases count - k,
    {
        v.push(&logs[n - 1 - k]);
        k = k + 1;
    }
    v
}

} // verus!
