use super::app::{next_index, previous_index, refreshed, tab_after, App, Tab, REFRESH_BACKDATE_SECS};
use crate::chains::CHAIN_COUNT;
use crate::clock::{instant_before, instant_now};
use std::time::Instant;
use vstd::prelude::*;

verus! {

/// A key, as far as the dashboard tells keys apart.
#[derive(Debug, Clone, Copy, PartialEq, Eq, Structural)]
pub enum KeyCode {
    Char(char),
    Up,
    Down,
    Tab,
    F(u8),
    Other,
}

/// A key press: the key and whether Control was held.
#[derive(Debug, Clone, Copy, PartialEq, Eq, Structural)]
pub struct KeyInput {
    pub code: KeyCode,
    pub ctrl: bool,
}

/// What a key press does to the dashboard.
pub enum KeyAction {
    Quit,
    PreviousChain,
    NextChain,
    NextTab,
    ShowTab(Tab),
    Refresh,
    Ignore,
}

/// The action of a key: `q`, `Q` or Control-`c` quit; Up or `k` and Down or
/// `j` move the selection; Tab and `1`-`3` switch tabs; `r` or F5 refresh.
pub open spec fn key_action(k: KeyInput) -> KeyAction {
    match k.code {
        KeyCode::Char(c) => if c == 'q' || c == 'Q' {
            KeyAction::Quit
        } else if c == 'c' && k.ctrl {
            KeyAction::Quit
        } else if c == 'k' {
            KeyAction::PreviousChain
        } else if c == 'j' {
            KeyAction::NextChain
        } else if c == '1' {
            KeyAction::ShowTab(Tab::Dashboard)
        } else if c == '2' {
            KeyAction::ShowTab(Tab::ChainDetails)
        } else if c == '3' {
            KeyAction::ShowTab(Tab::Logs)
        } else if c == 'r' {
            KeyAction::Refresh
        } else {
            KeyAction::Ignore
        },
        KeyCode::Up => KeyAction::PreviousChain,
        KeyCode::Down => KeyAction::NextChain,
        KeyCode::Tab => KeyAction::NextTab,
        KeyCode::F(n) => if n == 5 {
            KeyAction::Refresh
        } else {
            KeyAction::Ignore
        },
        KeyCode::Other => KeyAction::Ignore,
    }
}

/// The dashboard after the key press `k`, apart from the log and the date of
/// the last refresh (which a refresh changes).
pub open spec fn after_key(app: App, k: KeyInput) -> App {
    match key_action(k) {
        KeyAction::Quit => App { should_quit: true, ..app },
        KeyAction::PreviousChain => App {
            selected_chain_index: previous_index(app.selected_chain_index as int) as usize,
            ..app
        },
        KeyAction::NextChain => App { selected_chain_index: next_index(app.selected_chain_index as int) as usize, ..app },
        KeyAction::NextTab => App { current_tab: tab_after(app.current_tab), ..app },
        KeyAction::ShowTab(t) => App { current_tab: t, ..app },
        KeyAction::Refresh => app,
        KeyAction::Ignore => app,
    }
}

/// Turns key presses into changes of the dashboard.
pub struct EventHandler;

impl EventHandler {
    pub fn new() -> EventHandler {
        EventHandler
    }

    /// Applies the key press `key` to `app` at the instant `now`; a refresh
    /// logs a line stamped `now` and dates the last refresh at `mark`. True
    /// where the key asks the dashboard to stop.
    pub fn handle_key_event_at(&self, key: KeyInput, app: &mut App, now: Instant, mark: Option<Instant>) -> (quit: bool)
        requires
            key_action(key) is NextChain ==> old(app).selected_chain_index < usize::MAX,
        ensures
            quit == key_action(key) is Quit,
            !(key_action(key) is Refresh) ==> *final(app) == after_key(*old(app), key),
            key_action(key) is Refresh ==> refreshed(*old(app), *final(app), now, mark),
            old(app).wf() ==> final(app).wf(),
            old(app).selected_chain_index < CHAIN_COUNT ==> final(app).selected_chain_index < CHAIN_COUNT,
    {
        match key.code {
            KeyCode::Char('q') | KeyCode::Char('Q') => {
                app.quit();
                return true;
            },
            KeyCode::Char('c') if key.ctrl => {
                app.quit();
                return true;
            },
            KeyCode::Up | KeyCode::Char('k') => {
                app.previous_chain();
            },
            KeyCode::Down | KeyCode::Char('j') => {
                app.next_chain();
            },
            KeyCode::Tab => {
                app.next_tab();
            },
            KeyCode::Char('1') => {
                app.current_tab = Tab::Dashboard;
            },
            KeyCode::Char('2') => {
                app.current_tab = Tab::ChainDetails;
            },
            KeyCode::Char('3') => {
                app.current_tab = Tab::Logs;
            },
            KeyCode::Char('r') | KeyCode::F(5) => {
                app.request_refresh_at(now, mark);
            },
            _ => {},
        }
        false
    }

    /// Applies the key press `key` to `app`; true where the key asks the
    /// dashboard to stop. A refresh (`r` or F5) logs a line stamped with the
    /// current instant of the monotonic clock and dates the last refresh
    /// `REFRESH_BACKDATE_SECS` seconds before it, where the clock can go back
    /// that far; the instants themselves are not stated.
    pub fn handle_key_event(&self, key: KeyInput, app: &mut App) -> (quit: bool)
        requires
            key_action(key) is NextChain ==> old(app).selected_chain_index < usize::MAX,
        ensures
            quit == key_action(key) is Quit,
            !(key_action(key) is Refresh) ==> *final(app) == after_key(*old(app), key),
            key_action(key) is Refresh ==> exists|now: Instant, mark: Option<Instant>| #[trigger] refreshed(*old(app), *final(app), now, mark),
            old(app).wf() ==> final(app).wf(),
            old(app).selected_chain_index < CHAIN_COUNT ==> final(app).selected_chain_index < CHAIN_COUNT,
    {
        let now = instant_now();
        let mark = instant_before(&now, REFRESH_BACKDATE_SECS);
        self.handle_key_event_at(key, app, now, mark)
    }
}

} // verus!
