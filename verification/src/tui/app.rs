use crate::chains::types::{Block, ChainMetrics};
use crate::chains::{all_chains, Chain, CHAIN_COUNT};
use crate::clock::{elapsed_secs, instant_before, instant_now};
use crate::net::new_http_client;
use std::collections::VecDeque;
use std::time::Instant;
use vstd::prelude::*;

verus! {

/// How many recent blocks a chain's status keeps.
pub const BLOCK_HISTORY_LIMIT: usize = 100;

/// How many recent throughput readings a chain's status keeps.
pub const TPS_HISTORY_LIMIT: usize = 50;

/// How many log entries the dashboard keeps.
pub const LOG_LIMIT: usize = 1000;

/// `s` with `x` appended, and its first item dropped where it then holds
/// more than `cap` items.
pub open spec fn bounded_push<T>(s: Seq<T>, x: T, cap: nat) -> Seq<T> {
    if s.len() + 1 > cap {
        s.push(x).drop_first()
    } else {
        s.push(x)
    }
}

/// The last `n` items of `s` (all of them where it holds fewer).
pub open spec fn last_n<T>(s: Seq<T>, n: nat) -> Seq<T> {
    if s.len() <= n {
        s
    } else {
        s.subrange(s.len() - n, s.len() as int)
    }
}

/// A bounded history keeps the most recent items: appending to a history of
/// at most `cap` items leaves the last `cap` items of the longer sequence,
/// in their order.
pub proof fn lemma_bounded_push_keeps_last<T>(s: Seq<T>, x: T, cap: nat)
    requires
        cap > 0,
        s.len() <= cap,
    ensures
        bounded_push(s, x, cap) == last_n(s.push(x), cap),
        bounded_push(s, x, cap).len() <= cap,
{
    if s.len() + 1 > cap {
        assert(s.push(x).drop_first() =~= s.push(x).subrange(s.push(x).len() - cap, s.push(x).len() as int));
    }
}

/// Appending one item after another to a bounded history gives the last
/// `cap` items of everything appended so far: the window after the items
/// `xs` is `last_n(s + xs, cap)`.
pub proof fn lemma_bounded_history_is_window<T>(s: Seq<T>, xs: Seq<T>, cap: nat)
    requires
        cap > 0,
        s.len() <= cap,
    ensures
        fold_bounded(s, xs, cap) == last_n(s + xs, cap),
    decreases xs.len(),
{
    if xs.len() == 0 {
        assert(s + xs =~= s);
    } else {
        let front = xs.drop_last();
        let x = xs.last();
        lemma_bounded_history_is_window(s, front, cap);
        let w = last_n(s + front, cap);
        assert(s + xs =~= (s + front).push(x));
        let all = (s + front).push(x);
        if w.len() + 1 > cap {
            assert(w.push(x).drop_first() =~= last_n(all, cap));
        } else {
            assert(w.push(x) =~= last_n(all, cap));
        }
    }
}

/// The history after appending each of `xs` in turn with `bounded_push`.
pub open spec fn fold_bounded<T>(s: Seq<T>, xs: Seq<T>, cap: nat) -> Seq<T>
    decreases xs.len(),
{
    if xs.len() == 0 {
        s
    } else {
        bounded_push(fold_bounded(s, xs.drop_last(), cap), xs.last(), cap)
    }
}

/// Whether the dashboard reaches a chain.
#[derive(Debug, Clone, PartialEq)]
pub enum ConnectionStatus {
    Connected,
    Disconnected,
    Error(String),
}

/// The health symbol of a status; `recent` tells whether the last update
/// came within the last 30 seconds.
pub open spec fn health_symbol_of(status: ConnectionStatus, recent: bool) -> Seq<char> {
    match status {
        ConnectionStatus::Connected => if recent {
            "🟢"@
        } else {
            "🟡"@
        },
        ConnectionStatus::Disconnected => "🔴"@,
        ConnectionStatus::Error(_) => "❌"@,
    }
}

/// The health symbol of a status `elapsed` seconds after its last update:
/// the update is recent under 30 seconds.
pub open spec fn health_after(status: ConnectionStatus, elapsed: u64) -> Seq<char> {
    health_symbol_of(status, elapsed < 30)
}

/// The health symbol of `status`, `elapsed` seconds after its last update:
/// an update counts as recent under 30 seconds.
pub fn health_symbol(status: &ConnectionStatus, elapsed: u64) -> (r: &'static str)
    ensures
        r@ == health_after(*status, elapsed),
{
    match status {
        ConnectionStatus::Connected => if elapsed < 30 {
            "🟢"
        } else {
            "🟡"
        },
        ConnectionStatus::Disconnected => "🔴",
        ConnectionStatus::Error(_) => "❌",
    }
}

/// What the dashboard knows of one chain.
#[derive(Debug, Clone)]
pub struct ChainStatus {
    pub chain: Chain,
    pub latest_block: Option<Block>,
    pub metrics: Option<ChainMetrics>,
    pub status: ConnectionStatus,
    pub last_update: Instant,
    pub block_history: VecDeque<Block>,
    pub tps_history: VecDeque<u64>,
}

/// `s` is the status of `chain` as first created at `now`: nothing heard yet,
/// disconnected, empty histories.
pub open spec fn fresh_status(s: ChainStatus, chain: Chain, now: Instant) -> bool {
    &&& s.chain == chain
    &&& s.latest_block is None
    &&& s.metrics is None
    &&& s.status == ConnectionStatus::Disconnected
    &&& s.last_update == now
    &&& s.block_history@.len() == 0
    &&& s.tps_history@.len() == 0
}

/// `t` is `s` after the block `block` arrived at `now`: the block is the
/// latest, it joins the history (the oldest block leaving beyond 100), the
/// chain counts as connected and as updated at `now`; nothing else changes.
pub open spec fn block_recorded(s: ChainStatus, t: ChainStatus, block: Block, now: Instant) -> bool {
    &&& t.block_history@ == bounded_push(s.block_history@, block, BLOCK_HISTORY_LIMIT as nat)
    &&& t == (ChainStatus {
        latest_block: Some(block),
        block_history: t.block_history,
        status: ConnectionStatus::Connected,
        last_update: now,
        ..s
    })
}

/// `t` is `s` after the metrics `metrics` arrived at `now`: they are the
/// latest, their throughput rounded down into a `u64` joins the throughput
/// history (the oldest reading leaving beyond 50), and the chain counts as
/// updated at `now`; nothing else changes.
pub open spec fn metrics_recorded(s: ChainStatus, t: ChainStatus, metrics: ChainMetrics, now: Instant) -> bool {
    &&& t.tps_history@ == bounded_push(
        s.tps_history@,
        crate::chains::types::saturating_whole(metrics.tps.num as int, metrics.tps.den as int),
        TPS_HISTORY_LIMIT as nat,
    )
    &&& t == (ChainStatus { metrics: Some(metrics), tps_history: t.tps_history, last_update: now, ..s })
}

impl ChainStatus {
    /// The histories hold no more than their limits.
    pub open spec fn wf(&self) -> bool {
        &&& self.block_history@.len() <= BLOCK_HISTORY_LIMIT
        &&& self.tps_history@.len() <= TPS_HISTORY_LIMIT
    }

    /// A chain that nothing has been heard from, created at `now`.
    pub fn new_at(chain: Chain, now: Instant) -> (s: ChainStatus)
        ensures
            fresh_status(s, chain, now),
            s.wf(),
    {
        ChainStatus {
            chain,
            latest_block: None,
            metrics: None,
            status: ConnectionStatus::Disconnected,
            last_update: now,
            block_history: VecDeque::with_capacity(BLOCK_HISTORY_LIMIT),
            tps_history: VecDeque::with_capacity(TPS_HISTORY_LIMIT),
        }
    }

    /// A chain that nothing has been heard from, created at the current
    /// instant of the monotonic clock.
    pub fn new(chain: Chain) -> (s: ChainStatus)
        ensures
            exists|now: Instant| #[trigger] fresh_status(s, chain, now),
            s.wf(),
    {
        let now = instant_now();
        let s = ChainStatus::new_at(chain, now);
        assert(fresh_status(s, chain, now));
        s
    }

    /// Records a block that arrived at `now`.
    pub fn update_block_at(&mut self, block: Block, now: Instant)
        ensures
            block_recorded(*old(self), *final(self), block, now),
            old(self).wf() ==> final(self).wf(),
    {
        self.latest_block = Some(block.copy());
        self.block_history.push_back(block);
        if self.block_history.len() > BLOCK_HISTORY_LIMIT {
            self.block_history.pop_front();
        }
        self.last_update = now;
        self.status = ConnectionStatus::Connected;
    }

    /// Records a new block, dated by the monotonic clock: it becomes the
    /// latest, joins the history (the oldest block leaving beyond 100), and
    /// the chain counts as connected.
    pub fn update_block(&mut self, block: Block)
        ensures
            exists|now: Instant| #[trigger] block_recorded(*old(self), *final(self), block, now),
            old(self).wf() ==> final(self).wf(),
    {
        let now = instant_now();
        self.update_block_at(block, now);
    }

    /// Records metrics that arrived at `now`.
    pub fn update_metrics_at(&mut self, metrics: ChainMetrics, now: Instant)
        requires
            metrics.tps.den > 0,
        ensures
            metrics_recorded(*old(self), *final(self), metrics, now),
            old(self).wf() ==> final(self).wf(),
    {
        self.tps_history.push_back(metrics.tps.to_u64_saturating());
        if self.tps_history.len() > TPS_HISTORY_LIMIT {
            self.tps_history.pop_front();
        }
        self.metrics = Some(metrics);
        self.last_update = now;
    }

    /// Records new metrics, dated by the monotonic clock: they become the
    /// latest, and their throughput, rounded down into a `u64`, joins the
    /// throughput history (the oldest reading leaving beyond 50).
    pub fn update_metrics(&mut self, metrics: ChainMetrics)
        requires
            metrics.tps.den > 0,
        ensures
            exists|now: Instant| #[trigger] metrics_recorded(*old(self), *final(self), metrics, now),
            old(self).wf() ==> final(self).wf(),
    {
        let now = instant_now();
        self.update_metrics_at(metrics, now);
    }

    /// The chain's health symbol: green for a connected chain updated within
    /// the last 30 seconds, yellow for one updated longer ago, red when
    /// disconnected, a cross after an error.
    pub fn health_indicator(&self) -> (r: &'static str)
        ensures
            exists|elapsed: u64| r@ == health_after(self.status, elapsed),
    {
        health_symbol(&self.status, elapsed_secs(&self.last_update))
    }
}

/// How serious a log entry is.
#[derive(Debug, Clone, Copy, PartialEq, Eq, Structural)]
pub enum LogLevel {
    Info,
    Warning,
    Error,
}

/// One entry of the dashboard's log.
#[derive(Debug)]
pub struct LogEntry {
    pub timestamp: Instant,
    pub level: LogLevel,
    pub message: String,
}

/// A view of the dashboard.
#[derive(Debug, Clone, Copy, PartialEq, Eq, Structural)]
pub enum Tab {
    Dashboard,
    ChainDetails,
    Logs,
}

/// The tab after `t`, cycling.
pub open spec fn tab_after(t: Tab) -> Tab {
    match t {
        Tab::Dashboard => Tab::ChainDetails,
        Tab::ChainDetails => Tab::Logs,
        Tab::Logs => Tab::Dashboard,
    }
}

/// The chain selected after "next" from `i`.
pub open spec fn next_index(i: int) -> int {
    (i + 1) % (CHAIN_COUNT as int)
}

/// The chain selected after "previous" from `i`.
pub open spec fn previous_index(i: int) -> int {
    if i == 0 {
        CHAIN_COUNT - 1
    } else {
        i - 1
    }
}

/// Moving the selection to the next chain and back, or back and then on,
/// returns to the chain selected before; both moves keep a valid selection
/// valid.
pub proof fn lemma_selection_moves_undo(i: int)
    requires
        0 <= i < CHAIN_COUNT,
    ensures
        previous_index(next_index(i)) == i,
        next_index(previous_index(i)) == i,
        0 <= next_index(i) < CHAIN_COUNT,
        0 <= previous_index(i) < CHAIN_COUNT,
{
}

/// Moving to the next chain once per chain comes back to where it started.
pub proof fn lemma_selection_cycles(i: int)
    requires
        0 <= i < CHAIN_COUNT,
    ensures
        next_index(next_index(next_index(next_index(next_index(i))))) == i,
{
}

/// Switching to the next tab three times comes back to the same tab.
pub proof fn lemma_tabs_cycle(t: Tab)
    ensures
        tab_after(tab_after(tab_after(t))) == t,
        tab_after(t) != t,
{
}

/// The dashboard fetches again once five seconds have passed since the last
/// refresh.
pub open spec fn refresh_due_after(elapsed: u64) -> bool {
    elapsed >= 5
}

/// Whether the dashboard fetches again `elapsed` seconds after its last refresh.
pub fn refresh_due(elapsed: u64) -> (r: bool)
    ensures
        r == refresh_due_after(elapsed),
{
    elapsed >= 5
}

/// The dashboard.
pub struct App {
    pub api_url: String,
    /// One status per chain, in the order of `Chain::all()`.
    pub chains: Vec<ChainStatus>,
    pub selected_chain_index: usize,
    pub logs: VecDeque<LogEntry>,
    pub client: reqwest::Client,
    pub should_quit: bool,
    pub current_tab: Tab,
    pub last_update: Instant,
}

/// The time, level and message of each log entry.
pub open spec fn log_lines(logs: Seq<LogEntry>) -> Seq<(Instant, LogLevel, Seq<char>)> {
    logs.map_values(|e: LogEntry| (e.timestamp, e.level, e.message@))
}

/// How many seconds back a manual refresh dates the last refresh, so that the
/// next update, due five seconds after it, fetches at once.
pub const REFRESH_BACKDATE_SECS: u64 = 10;

/// The message that a manual refresh logs.
pub open spec fn refresh_message() -> Seq<char> {
    "Manual refresh triggered"@
}

/// `t` is `s` with `entry` appended to the log, the oldest entry leaving
/// beyond 1000; nothing else changes.
pub open spec fn logged(s: App, t: App, entry: (Instant, LogLevel, Seq<char>)) -> bool {
    &&& t.log_view() == bounded_push(s.log_view(), entry, LOG_LIMIT as nat)
    &&& t == (App { logs: t.logs, ..s })
}

/// `t` is `s` after a manual refresh at `now`: the log gains the refresh
/// line stamped `now`, and the last refresh is dated at `mark` where there is
/// one (else it stays); nothing else changes.
pub open spec fn refreshed(s: App, t: App, now: Instant, mark: Option<Instant>) -> bool {
    &&& t.log_view() == bounded_push(s.log_view(), (now, LogLevel::Info, refresh_message()), LOG_LIMIT as nat)
    &&& t.last_update == (match mark {
        Some(m) => m,
        None => s.last_update,
    })
    &&& t == (App { logs: t.logs, last_update: t.last_update, ..s })
}

/// `app` is the dashboard for the API at `api_url` as started at `now`: it
/// knows nothing yet of any chain (each status created at `now`), shows the
/// first chain on the dashboard tab, counts as refreshed at `now`, and has
/// logged its start, stamped `now`.
pub open spec fn started(app: App, api_url: String, now: Instant) -> bool {
    &&& app.wf()
    &&& app.api_url == api_url
    &&& app.selected_chain_index == 0
    &&& app.should_quit == false
    &&& app.current_tab == Tab::Dashboard
    &&& app.last_update == now
    &&& app.log_view() == seq![(now, LogLevel::Info, "Chain Monitor started"@)]
    &&& forall|i: int| 0 <= i < CHAIN_COUNT ==> #[trigger] fresh_status(app.chains@[i], all_chains()[i], now)
}

impl App {
    /// The statuses are those of `Chain::all()`, in order, each within its limits.
    pub open spec fn wf(&self) -> bool {
        &&& self.chains@.len() == CHAIN_COUNT
        &&& forall|i: int| 0 <= i < CHAIN_COUNT ==> (#[trigger] self.chains@[i]).chain == all_chains()[i]
        &&& forall|i: int| 0 <= i < CHAIN_COUNT ==> (#[trigger] self.chains@[i]).wf()
        &&& self.logs@.len() <= LOG_LIMIT
    }

    /// The time, level and message of each log entry, oldest first.
    pub open spec fn log_view(&self) -> Seq<(Instant, LogLevel, Seq<char>)> {
        log_lines(self.logs@)
    }

    /// The dashboard for the API at `api_url`, started at `now`.
    pub fn new_at(api_url: String, now: Instant) -> (app: App)
        ensures
            started(app, api_url, now),
    {
        let all = Chain::all();
        let mut chains: Vec<ChainStatus> = Vec::new();
        let mut i: usize = 0;
        while i < all.len()
            invariant
                all@ == all_chains(),
                i <= CHAIN_COUNT,
                chains@.len() == i,
                forall|j: int| 0 <= j < i ==> {
                    &&& fresh_status(#[trigger] chains@[j], all_chains()[j], now)
                    &&& chains@[j].wf()
                },
            decreases CHAIN_COUNT - i,
        {
            chains.push(ChainStatus::new_at(all[i], now));
            i = i + 1;
        }
        let mut app = App {
            api_url,
            chains,
            selected_chain_index: 0,
            logs: VecDeque::with_capacity(LOG_LIMIT),
            client: new_http_client(),
            should_quit: false,
            current_tab: Tab::Dashboard,
            last_update: now,
        };
        assert(app.wf());
        app.add_log_at(LogLevel::Info, String::from_str("Chain Monitor started"), now);
        assert(app.log_view() =~= seq![(now, LogLevel::Info, "Chain Monitor started"@)]);
        app
    }

    /// A dashboard for the API at `api_url` that knows nothing yet of any
    /// chain, shows the first chain on the dashboard tab, and has logged its
    /// start; it is started at the current instant of the monotonic clock.
    pub fn new(api_url: String) -> (app: App)
        ensures
            app.wf(),
            exists|now: Instant| #[trigger] started(app, api_url, now),
    {
        let now = instant_now();
        let app = App::new_at(api_url, now);
        app
    }

    /// Appends an entry stamped `now` to the log, the oldest entry leaving
    /// beyond 1000.
    pub fn add_log_at(&mut self, level: LogLevel, message: String, now: Instant)
        ensures
            logged(*old(self), *final(self), (now, level, message@)),
            old(self).wf() ==> final(self).wf(),
    {
        let ghost before = self.logs@;
        let ghost line = (now, level, message@);
        self.logs.push_back(LogEntry { timestamp: now, level, message });
        assert(log_lines(self.logs@) =~= log_lines(before).push(line));
        if self.logs.len() > LOG_LIMIT {
            self.logs.pop_front();
            assert(log_lines(self.logs@) =~= log_lines(before).push(line).drop_first());
        }
    }

    /// Appends an entry to the log, stamped by the monotonic clock, the
    /// oldest entry leaving beyond 1000.
    pub fn add_log(&mut self, level: LogLevel, message: String)
        ensures
            exists|now: Instant| #[trigger] logged(*old(self), *final(self), (now, level, message@)),
            old(self).wf() ==> final(self).wf(),
    {
        let now = instant_now();
        self.add_log_at(level, message, now);
    }

    /// The status of the selected chain, where the selection names one.
    pub fn get_selected_chain(&self) -> (r: Option<&ChainStatus>)
        requires
            self.wf(),
        ensures
            self.selected_chain_index < CHAIN_COUNT ==> r == Some(&self.chains@[self.selected_chain_index as int]),
            self.selected_chain_index >= CHAIN_COUNT ==> r is None,
            r matches Some(s) ==> s.chain == all_chains()[self.selected_chain_index as int],
    {
        let all = Chain::all();
        if self.selected_chain_index < all.len() {
            let chain = all[self.selected_chain_index];
            Some(&self.chains[chain.index()])
        } else {
            None
        }
    }

    /// Selects the next chain, from the last back to the first.
    pub fn next_chain(&mut self)
        requires
            old(self).selected_chain_index < usize::MAX,
        ensures
            final(self).selected_chain_index == next_index(old(self).selected_chain_index as int),
            *final(self) == (App { selected_chain_index: final(self).selected_chain_index, ..*old(self) }),
    {
        self.selected_chain_index = (self.selected_chain_index + 1) % CHAIN_COUNT;
    }

    /// Selects the previous chain, from the first back to the last.
    pub fn previous_chain(&mut self)
        ensures
            final(self).selected_chain_index == previous_index(old(self).selected_chain_index as int),
            *final(self) == (App { selected_chain_index: final(self).selected_chain_index, ..*old(self) }),
    {
        if self.selected_chain_index == 0 {
            self.selected_chain_index = CHAIN_COUNT - 1;
        } else {
            self.selected_chain_index = self.selected_chain_index - 1;
        }
    }

    /// Shows the next tab: dashboard, chain details, logs, and round again.
    pub fn next_tab(&mut self)
        ensures
            final(self).current_tab == tab_after(old(self).current_tab),
            *final(self) == (App { current_tab: final(self).current_tab, ..*old(self) }),
    {
        self.current_tab = match self.current_tab {
            Tab::Dashboard => Tab::ChainDetails,
            Tab::ChainDetails => Tab::Logs,
            Tab::Logs => Tab::Dashboard,
        };
    }

    /// Asks the dashboard to stop.
    pub fn quit(&mut self)
        ensures
            *final(self) == (App { should_quit: true, ..*old(self) }),
    {
        self.should_quit = true;
    }

    /// Records a block fetched for `chain`, arrived at `now`, in that chain's
    /// status.
    pub fn record_block_at(&mut self, chain: Chain, block: Block, now: Instant)
        requires
            old(self).wf(),
        ensures
            final(self).wf(),
            block_recorded(
                old(self).chains@[crate::chains::chain_index(chain)],
                final(self).chains@[crate::chains::chain_index(chain)],
                block,
                now,
            ),
            forall|i: int| 0 <= i < CHAIN_COUNT && i != crate::chains::chain_index(chain) ==> #[trigger] final(self).chains@[i]
                == old(self).chains@[i],
            *final(self) == (App { chains: final(self).chains, ..*old(self) }),
    {
        let i = chain.index();
        let mut status = self.chains.remove(i);
        status.update_block_at(block, now);
        self.chains.insert(i, status);
        assert(forall|j: int| 0 <= j < CHAIN_COUNT && j != i ==> self.chains@[j] == old(self).chains@[j]);
    }

    /// Records a block fetched for `chain` in that chain's status, dated by
    /// the monotonic clock.
    pub fn record_block(&mut self, chain: Chain, block: Block)
        requires
            old(self).wf(),
        ensures
            final(self).wf(),
            exists|now: Instant| #[trigger] block_recorded(
                old(self).chains@[crate::chains::chain_index(chain)],
                final(self).chains@[crate::chains::chain_index(chain)],
                block,
                now,
            ),
            forall|i: int| 0 <= i < CHAIN_COUNT && i != crate::chains::chain_index(chain) ==> #[trigger] final(self).chains@[i]
                == old(self).chains@[i],
            *final(self) == (App { chains: final(self).chains, ..*old(self) }),
    {
        let now = instant_now();
        self.record_block_at(chain, block, now);
    }

    /// Records metrics fetched for `chain`, arrived at `now`, in that chain's
    /// status.
    pub fn record_metrics_at(&mut self, chain: Chain, metrics: ChainMetrics, now: Instant)
        requires
            old(self).wf(),
            metrics.tps.den > 0,
        ensures
            final(self).wf(),
            metrics_recorded(
                old(self).chains@[crate::chains::chain_index(chain)],
                final(self).chains@[crate::chains::chain_index(chain)],
                metrics,
                now,
            ),
            forall|i: int| 0 <= i < CHAIN_COUNT && i != crate::chains::chain_index(chain) ==> #[trigger] final(self).chains@[i]
                == old(self).chains@[i],
            *final(self) == (App { chains: final(self).chains, ..*old(self) }),
    {
        let i = chain.index();
        let mut status = self.chains.remove(i);
        status.update_metrics_at(metrics, now);
        self.chains.insert(i, status);
        assert(forall|j: int| 0 <= j < CHAIN_COUNT && j != i ==> self.chains@[j] == old(self).chains@[j]);
    }

    /// Records metrics fetched for `chain` in that chain's status, dated by
    /// the monotonic clock.
    pub fn record_metrics(&mut self, chain: Chain, metrics: ChainMetrics)
        requires
            old(self).wf(),
            metrics.tps.den > 0,
        ensures
            final(self).wf(),
            exists|now: Instant| #[trigger] metrics_recorded(
                old(self).chains@[crate::chains::chain_index(chain)],
                final(self).chains@[crate::chains::chain_index(chain)],
                metrics,
                now,
            ),
            forall|i: int| 0 <= i < CHAIN_COUNT && i != crate::chains::chain_index(chain) ==> #[trigger] final(self).chains@[i]
                == old(self).chains@[i],
            *final(self) == (App { chains: final(self).chains, ..*old(self) }),
    {
        let now = instant_now();
        self.record_metrics_at(chain, metrics, now);
    }

    /// Whether five seconds or more have passed since the last refresh, as
    /// `refresh_due` decides it from the clock's reading.
    pub fn needs_refresh(&self) -> (r: bool)
        ensures
            exists|elapsed: u64| r == refresh_due_after(elapsed),
    {
        refresh_due(elapsed_secs(&self.last_update))
    }

    /// Marks the data as refreshed at `now`.
    pub fn mark_refreshed_at(&mut self, now: Instant)
        ensures
            *final(self) == (App { last_update: now, ..*old(self) }),
    {
        self.last_update = now;
    }

    /// Marks the data as refreshed at the current instant of the monotonic
    /// clock.
    pub fn mark_refreshed(&mut self)
        ensures
            *final(self) == (App { last_update: final(self).last_update, ..*old(self) }),
    {
        self.mark_refreshed_at(instant_now());
    }

    /// Dates the last refresh at `mark` where there is one; without one the
    /// date stays.
    pub fn apply_refresh_mark(&mut self, mark: Option<Instant>)
        ensures
            final(self).last_update == (match mark {
                Some(t) => t,
                None => old(self).last_update,
            }),
            *final(self) == (App { last_update: final(self).last_update, ..*old(self) }),
    {
        match mark {
            Some(t) => {
                self.last_update = t;
            },
            None => {},
        }
    }

    /// A manual refresh at `now`: logs it, stamped `now`, and dates the last
    /// refresh at `mark`, the instant that the next update measures from.
    pub fn request_refresh_at(&mut self, now: Instant, mark: Option<Instant>)
        ensures
            refreshed(*old(self), *final(self), now, mark),
            old(self).wf() ==> final(self).wf(),
    {
        self.add_log_at(LogLevel::Info, String::from_str("Manual refresh triggered"), now);
        self.apply_refresh_mark(mark);
    }

    /// Logs a manual refresh and dates the last refresh `REFRESH_BACKDATE_SECS`
    /// seconds before the current instant, so that the next update fetches
    /// again; where the clock cannot go back that far, the date stays. The
    /// instants that the clock gives are not stated.
    pub fn request_refresh(&mut self)
        ensures
            exists|now: Instant, mark: Option<Instant>| #[trigger] refreshed(*old(self), *final(self), now, mark),
            old(self).wf() ==> final(self).wf(),
    {
        let now = instant_now();
        let mark = instant_before(&now, REFRESH_BACKDATE_SECS);
        self.request_refresh_at(now, mark);
    }
}

} // verus!
