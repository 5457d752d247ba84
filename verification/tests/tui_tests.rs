use chain_monitor::chains::{Block, Chain, ChainMetrics, Ratio};
use chain_monitor::tui::app::{health_symbol, refresh_due, App, ChainStatus, ConnectionStatus, LogLevel, Tab, REFRESH_BACKDATE_SECS};
use std::time::{Duration, Instant};
use chain_monitor::tui::events::{EventHandler, KeyCode, KeyInput};
use chain_monitor::clock::unix_timestamp_from;
use chain_monitor::tui::view::{
    detail_fields, detail_label, DetailField,
    hash_preview, height_text, long_age_label, max_tps, number_or_dash, recent_block_lines, recent_logs, short_age_label,
    tab_index, transactions_text,
};
use std::collections::VecDeque;

fn block(height: u64, transaction_count: usize) -> Block {
    Block { chain: Chain::Bitcoin, height, hash: format!("{:064x}", height), timestamp: 0, transaction_count, size: 0 }
}

fn metrics(num: i128, den: u64) -> ChainMetrics {
    ChainMetrics { chain: Chain::Bitcoin, tps: Ratio { num, den }, block_time: Ratio::whole(600), pending_transactions: 0, peer_count: 0 }
}

fn key(c: char) -> KeyInput {
    KeyInput { code: KeyCode::Char(c), ctrl: false }
}

#[test]
fn new_dashboard_knows_every_chain() {
    let app = App::new("http://localhost:3000".to_string());
    assert_eq!(app.chains.len(), 5);
    for (i, chain) in Chain::all().iter().enumerate() {
        assert_eq!(app.chains[i].chain, *chain);
        assert!(app.chains[i].latest_block.is_none());
        assert_eq!(app.chains[i].status, ConnectionStatus::Disconnected);
        assert_eq!(app.chains[i].health_indicator(), "🔴");
    }
    assert_eq!(app.logs.len(), 1);
    assert_eq!(app.logs[0].message, "Chain Monitor started");
    assert_eq!(app.current_tab, Tab::Dashboard);
    assert_eq!(app.selected_chain_index, 0);
    assert!(!app.should_quit);
}

#[test]
fn block_history_keeps_the_last_hundred() {
    let mut status = ChainStatus::new(Chain::Bitcoin);
    for h in 0..130u64 {
        status.update_block(block(h, 1));
    }
    assert_eq!(status.block_history.len(), 100);
    assert_eq!(status.block_history.front().unwrap().height, 30);
    assert_eq!(status.block_history.back().unwrap().height, 129);
    assert_eq!(status.latest_block.as_ref().unwrap().height, 129);
    assert_eq!(status.status, ConnectionStatus::Connected);
    assert_eq!(status.health_indicator(), "🟢");
}

#[test]
fn tps_history_keeps_the_last_fifty_whole_readings() {
    let mut status = ChainStatus::new(Chain::Ethereum);
    for i in 0..60i128 {
        status.update_metrics(metrics(2 * i + 1, 2));
    }
    assert_eq!(status.tps_history.len(), 50);
    assert_eq!(*status.tps_history.front().unwrap(), 10);
    assert_eq!(*status.tps_history.back().unwrap(), 59);
    assert_eq!(status.metrics.unwrap().tps.num, 119);
}

#[test]
fn health_symbols() {
    assert_eq!(health_symbol(&ConnectionStatus::Connected, 0), "🟢");
    assert_eq!(health_symbol(&ConnectionStatus::Connected, 29), "🟢");
    assert_eq!(health_symbol(&ConnectionStatus::Connected, 30), "🟡");
    assert_eq!(health_symbol(&ConnectionStatus::Disconnected, 0), "🔴");
    assert_eq!(health_symbol(&ConnectionStatus::Error("x".to_string()), 0), "❌");
    assert_eq!(health_symbol(&ConnectionStatus::Error("x".to_string()), 100), "❌");
}

#[test]
fn log_keeps_the_last_thousand() {
    let mut app = App::new(String::new());
    for i in 0..1005 {
        app.add_log(LogLevel::Warning, format!("entry {}", i));
    }
    assert_eq!(app.logs.len(), 1000);
    assert_eq!(app.logs.front().unwrap().message, "entry 5");
    assert_eq!(app.logs.back().unwrap().message, "entry 1004");
}

#[test]
fn selection_wraps_both_ways() {
    let mut app = App::new(String::new());
    app.previous_chain();
    assert_eq!(app.selected_chain_index, 4);
    assert_eq!(app.get_selected_chain().unwrap().chain, Chain::Polkadot);
    app.next_chain();
    assert_eq!(app.selected_chain_index, 0);
    for _ in 0..5 {
        app.next_chain();
    }
    assert_eq!(app.selected_chain_index, 0);
    app.selected_chain_index = 9;
    assert!(app.get_selected_chain().is_none());
}

#[test]
fn tabs_cycle() {
    let mut app = App::new(String::new());
    app.next_tab();
    assert_eq!(app.current_tab, Tab::ChainDetails);
    app.next_tab();
    assert_eq!(app.current_tab, Tab::Logs);
    app.next_tab();
    assert_eq!(app.current_tab, Tab::Dashboard);
}

#[test]
fn recording_updates_only_the_named_chain() {
    let mut app = App::new(String::new());
    app.record_block(Chain::Cardano, block(77, 3));
    app.record_metrics(Chain::Cardano, metrics(9, 20));
    assert_eq!(app.chains[2].latest_block.as_ref().unwrap().height, 77);
    assert_eq!(*app.chains[2].tps_history.back().unwrap(), 0);
    assert!(app.chains[0].latest_block.is_none());
    assert!(app.chains[0].tps_history.is_empty());
}

#[test]
fn keys_drive_the_dashboard() {
    let handler = EventHandler::new();
    let mut app = App::new(String::new());
    assert!(!handler.handle_key_event(KeyInput { code: KeyCode::Down, ctrl: false }, &mut app));
    assert_eq!(app.selected_chain_index, 1);
    assert!(!handler.handle_key_event(key('k'), &mut app));
    assert_eq!(app.selected_chain_index, 0);
    assert!(!handler.handle_key_event(key('j'), &mut app));
    assert!(!handler.handle_key_event(KeyInput { code: KeyCode::Up, ctrl: false }, &mut app));
    assert_eq!(app.selected_chain_index, 0);
    assert!(!handler.handle_key_event(key('3'), &mut app));
    assert_eq!(app.current_tab, Tab::Logs);
    assert!(!handler.handle_key_event(key('2'), &mut app));
    assert_eq!(app.current_tab, Tab::ChainDetails);
    assert!(!handler.handle_key_event(key('1'), &mut app));
    assert_eq!(app.current_tab, Tab::Dashboard);
    assert!(!handler.handle_key_event(KeyInput { code: KeyCode::Tab, ctrl: false }, &mut app));
    assert_eq!(app.current_tab, Tab::ChainDetails);
    assert!(!handler.handle_key_event(key('c'), &mut app));
    assert!(!app.should_quit);
    assert!(!handler.handle_key_event(KeyInput { code: KeyCode::F(5), ctrl: false }, &mut app));
    assert_eq!(app.logs.back().unwrap().message, "Manual refresh triggered");
    assert!(app.needs_refresh());
    assert!(!handler.handle_key_event(key('r'), &mut app));
    assert_eq!(app.logs.len(), 3);
    assert!(!handler.handle_key_event(KeyInput { code: KeyCode::Other, ctrl: true }, &mut app));
    assert!(handler.handle_key_event(KeyInput { code: KeyCode::Char('c'), ctrl: true }, &mut app));
    assert!(app.should_quit);
}

#[test]
fn quit_keys() {
    let handler = EventHandler::new();
    for c in ['q', 'Q'] {
        let mut app = App::new(String::new());
        assert!(handler.handle_key_event(key(c), &mut app));
        assert!(app.should_quit);
    }
}

#[test]
fn refresh_comes_after_five_seconds() {
    assert!(!refresh_due(0));
    assert!(!refresh_due(4));
    assert!(refresh_due(5));
    assert!(refresh_due(3600));
}

#[test]
fn refreshed_dashboard_waits_again() {
    let mut app = App::new(String::new());
    app.mark_refreshed();
    assert!(!app.needs_refresh());
}

#[test]
fn view_texts() {
    assert_eq!(tab_index(Tab::Dashboard), 0);
    assert_eq!(tab_index(Tab::ChainDetails), 1);
    assert_eq!(tab_index(Tab::Logs), 2);
    assert_eq!(short_age_label(59), "59s ago");
    assert_eq!(short_age_label(3700), "61m ago");
    assert_eq!(long_age_label(0), "0s ago");
    assert_eq!(long_age_label(3599), "59m ago");
    assert_eq!(long_age_label(7200), "2h ago");
    assert_eq!(number_or_dash(Some(12)), "12");
    assert_eq!(number_or_dash(None), "-");
    assert_eq!(height_text(&Some(block(840000, 3))), "840000");
    assert_eq!(height_text(&None), "-");
    assert_eq!(transactions_text(&Some(block(1, 3))), "3");
    assert_eq!(transactions_text(&None), "-");
    assert_eq!(hash_preview("0123456789abcdefghijklmnop"), "0123456789abcdefghij");
    assert_eq!(hash_preview("short"), "short");
}

#[test]
fn tps_peak_and_recent_lists() {
    assert_eq!(max_tps(&VecDeque::new()), 1);
    assert_eq!(max_tps(&VecDeque::from(vec![3, 9, 2])), 9);
    let history: VecDeque<Block> = (0..25).map(|h| block(h, h as usize * 2)).collect();
    let lines = recent_block_lines(&history);
    assert_eq!(lines.len(), 20);
    assert_eq!(lines[0], "Block #24 - 48 txs");
    assert_eq!(lines[19], "Block #5 - 10 txs");
    let mut app = App::new(String::new());
    app.add_log(LogLevel::Error, "later".to_string());
    let recent = recent_logs(&app.logs, 20);
    assert_eq!(recent.len(), 2);
    assert_eq!(recent[0].message, "later");
    assert_eq!(recent[1].message, "Chain Monitor started");
}

#[test]
fn clock_steps_stamp_the_given_instant() {
    let t0 = Instant::now();
    let t1 = t0 + Duration::from_secs(3);
    let mut app = App::new_at(String::new(), t0);
    assert_eq!(app.last_update, t0);
    assert_eq!(app.logs[0].timestamp, t0);
    assert!(app.chains.iter().all(|s| s.last_update == t0));
    app.add_log_at(LogLevel::Warning, "w".to_string(), t1);
    assert_eq!(app.logs.back().unwrap().timestamp, t1);
    app.record_block_at(Chain::Solana, block(5, 1), t1);
    assert_eq!(app.chains[3].last_update, t1);
    assert_eq!(app.chains[3].status, ConnectionStatus::Connected);
    assert_eq!(app.chains[0].last_update, t0);
    app.record_metrics_at(Chain::Polkadot, metrics(6, 1), t1);
    assert_eq!(app.chains[4].last_update, t1);
    app.mark_refreshed_at(t1);
    assert_eq!(app.last_update, t1);
    let mut status = ChainStatus::new_at(Chain::Bitcoin, t0);
    assert_eq!(status.last_update, t0);
    status.update_block_at(block(1, 1), t1);
    assert_eq!(status.last_update, t1);
    status.update_metrics_at(metrics(1, 1), t0);
    assert_eq!(status.last_update, t0);
}

#[test]
fn refresh_key_dates_the_last_refresh_back() {
    let handler = EventHandler::new();
    let t0 = Instant::now();
    let now = t0 + Duration::from_secs(60);
    let mark = now - Duration::from_secs(REFRESH_BACKDATE_SECS);
    let mut app = App::new_at(String::new(), t0);
    assert!(!handler.handle_key_event_at(key('r'), &mut app, now, Some(mark)));
    assert_eq!(app.last_update, mark);
    assert_eq!(app.logs.len(), 2);
    assert_eq!(app.logs[1].timestamp, now);
    assert_eq!(app.logs[1].message, "Manual refresh triggered");
    assert!(!handler.handle_key_event_at(KeyInput { code: KeyCode::F(5), ctrl: false }, &mut app, now, None));
    assert_eq!(app.last_update, mark);
    assert_eq!(app.logs.len(), 3);
    assert!(!handler.handle_key_event_at(key('j'), &mut app, now, Some(t0)));
    assert_eq!(app.last_update, mark);
    assert_eq!(app.logs.len(), 3);
    app.apply_refresh_mark(Some(t0));
    assert_eq!(app.last_update, t0);
    app.apply_refresh_mark(None);
    assert_eq!(app.last_update, t0);
    let mut fresh = App::new(String::new());
    fresh.request_refresh();
    assert!(fresh.needs_refresh());
}

#[test]
fn unix_timestamps_fit_an_i64() {
    assert_eq!(unix_timestamp_from(Some(1_700_000_000)), Some(1_700_000_000));
    assert_eq!(unix_timestamp_from(Some(i64::MAX as u64)), Some(i64::MAX));
    assert_eq!(unix_timestamp_from(Some(i64::MAX as u64 + 1)), None);
    assert_eq!(unix_timestamp_from(None), None);
}

#[test]
fn details_tab_lines_follow_what_is_known() {
    let mut status = ChainStatus::new(Chain::Cardano);
    assert_eq!(detail_fields(&status), vec![DetailField::Chain, DetailField::Status]);
    status.update_metrics(metrics(3, 1));
    assert_eq!(detail_fields(&status), vec![DetailField::Chain, DetailField::Status, DetailField::Tps, DetailField::BlockTime]);
    status.update_block(block(9, 2));
    assert_eq!(
        detail_fields(&status),
        vec![
            DetailField::Chain,
            DetailField::Status,
            DetailField::LatestBlock,
            DetailField::BlockHash,
            DetailField::Transactions,
            DetailField::Tps,
            DetailField::BlockTime,
        ]
    );
    assert_eq!(detail_label(DetailField::Chain), "Chain: ");
    assert_eq!(detail_label(DetailField::LatestBlock), "Latest Block: ");
    assert_eq!(detail_label(DetailField::BlockHash), "Block Hash: ");
    assert_eq!(detail_label(DetailField::Transactions), "Transactions: ");
    assert_eq!(detail_label(DetailField::Tps), "TPS: ");
    assert_eq!(detail_label(DetailField::BlockTime), "Block Time: ");
    assert_eq!(detail_label(DetailField::Status), "Status: ");
}
