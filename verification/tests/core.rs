use diesel_demo::api::respond;
use diesel_demo::cli::{parse_cli_choice, console_render, CliChoice, ConsoleRender, CLI_FETCH_LIMIT};
use diesel_demo::errors::{Error, StorageError};
use diesel_demo::guard::{AccessEvent, ConnectionGuard};
use diesel_demo::gui::GuiApp;
use diesel_demo::models::Instrument;
use diesel_demo::modes::{select_mode, Mode, ModeState};
use diesel_demo::session::{Limit, Session};
use diesel_demo::api::to_decimal;

fn instr(id: i32) -> Instrument {
    Instrument {
        id,
        name: Some(format!("instrument {id}")),
        make: Some(String::from("Acme")),
        model: None,
        type_: None,
        country_of_manufacture: None,
        serial_number: None,
        sku: None,
        new: None,
        created_at: None,
        updated_at: None,
        created_by: None,
        updated_by: None,
        model_id: None,
        line: None,
        picture: None,
    }
}

fn catalog(ids: &[i32]) -> Session {
    let rows: Vec<Instrument> = ids.iter().map(|&i| instr(i)).collect();
    Session::new(rows, true).expect("identifiers are unique")
}

fn ids(rows: &[Instrument]) -> Vec<i32> {
    rows.iter().map(|r| r.id).collect()
}

#[test]
fn bounded_fetch_returns_at_most_limit() {
    let mut guard = ConnectionGuard::new(catalog(&[1, 2, 3, 4, 5, 6, 7]));
    let five = guard.list_instruments(1, Limit::Bounded(5)).unwrap();
    assert_eq!(ids(&five), vec![1, 2, 3, 4, 5]);
    let none = guard.list_instruments(1, Limit::Bounded(0)).unwrap();
    assert!(none.is_empty());
    let all = guard.list_instruments(1, Limit::Bounded(10)).unwrap();
    assert_eq!(all.len(), 7);
}

#[test]
fn unbounded_fetch_returns_every_record() {
    let mut guard = ConnectionGuard::new(catalog(&[1, 2, 3, 4, 5, 6, 7]));
    let all = guard.list_instruments(1, Limit::Unbounded).unwrap();
    assert_eq!(ids(&all), vec![1, 2, 3, 4, 5, 6, 7]);
    assert_eq!(all[0], instr(1));
}

#[test]
fn fetch_of_empty_catalog_is_empty() {
    let mut guard = ConnectionGuard::new(catalog(&[]));
    let rows = guard.list_instruments(1, Limit::Bounded(5)).unwrap();
    assert!(rows.is_empty());
}

#[test]
fn fetched_identifiers_are_present_and_unique() {
    let mut guard = ConnectionGuard::new(catalog(&[3, 1, 4, 15, 9, 2, 6]));
    let rows = guard.list_instruments(1, Limit::Unbounded).unwrap();
    let mut seen = ids(&rows);
    seen.sort();
    seen.dedup();
    assert_eq!(seen.len(), rows.len());
}

#[test]
fn session_rejects_duplicate_identifiers() {
    let rows = vec![instr(1), instr(2), instr(1)];
    assert!(Session::new(rows, true).is_none());
}

#[test]
fn fetch_twice_yields_same_identifiers() {
    let mut guard = ConnectionGuard::new(catalog(&[5, 3, 8, 1]));
    let first = guard.list_instruments(1, Limit::Unbounded).unwrap();
    let second = guard.list_instruments(1, Limit::Unbounded).unwrap();
    let mut a = ids(&first);
    let mut b = ids(&second);
    a.sort();
    b.sort();
    assert_eq!(a, b);
}

#[test]
fn guard_serializes_two_callers() {
    let mut guard = ConnectionGuard::new(catalog(&[1, 2]));
    guard.list_instruments(1, Limit::Unbounded).unwrap();
    guard.list_instruments(2, Limit::Bounded(1)).unwrap();
    assert_eq!(
        guard.log,
        vec![
            AccessEvent::Enter(1),
            AccessEvent::Exit(1),
            AccessEvent::Enter(2),
            AccessEvent::Exit(2),
        ]
    );
    // Enter/exit windows never overlap: each enter is followed at once
    // by the same caller's exit.
    for pair in guard.log.chunks(2) {
        match pair {
            [AccessEvent::Enter(a), AccessEvent::Exit(b)] => assert_eq!(a, b),
            other => panic!("overlapping access window: {other:?}"),
        }
    }
}

#[test]
fn with_connection_runs_the_operation_under_the_guard() {
    let mut guard = ConnectionGuard::new(catalog(&[1, 2, 3]));
    let count = guard.with_connection(7, |s: &Session| s.rows.len()).unwrap();
    assert_eq!(count, 3);
    assert_eq!(guard.log, vec![AccessEvent::Enter(7), AccessEvent::Exit(7)]);
}

#[test]
fn poisoned_guard_refuses_access() {
    let mut guard = ConnectionGuard::new(catalog(&[1]));
    guard.poison();
    let r = guard.list_instruments(1, Limit::Unbounded);
    assert_eq!(r.unwrap_err(), Error::ConnectionUnavailable);
    assert!(guard.log.is_empty());
    let r2 = guard.with_connection(2, |s: &Session| s.rows.len());
    assert_eq!(r2.unwrap_err(), Error::ConnectionUnavailable);
}

#[test]
fn disconnected_session_fails_the_fetch() {
    let mut session = catalog(&[1, 2, 3]);
    session.set_connected(false);
    let mut guard = ConnectionGuard::new(session);
    let r = guard.list_instruments(1, Limit::Unbounded);
    assert_eq!(r.unwrap_err(), Error::FetchFailed(StorageError::Disconnected));
}

#[test]
fn select_then_clear_unsets_selection() {
    let mut app = GuiApp::new();
    app.refresh(Ok(vec![instr(1), instr(2), instr(3)]));
    app.select_row(2);
    assert_eq!(app.selected_row, Some(2));
    app.clear();
    assert_eq!(app.selected_row, None);
    assert!(app.instruments.is_empty());
}

#[test]
fn refresh_replaces_rows_and_clears_selection() {
    let mut app = GuiApp::new();
    app.refresh(Ok(vec![instr(1), instr(2)]));
    app.select_row(1);
    let err = app.refresh(Ok(vec![instr(9)]));
    assert!(err.is_none());
    assert_eq!(ids(&app.instruments), vec![9]);
    assert_eq!(app.selected_row, None);
}

#[test]
fn refresh_failure_keeps_the_table_and_reports() {
    let mut app = GuiApp::new();
    app.refresh(Ok(vec![instr(1), instr(2)]));
    app.select_row(0);
    let err = app.refresh(Err(Error::FetchFailed(StorageError::Disconnected)));
    assert_eq!(err, Some(Error::FetchFailed(StorageError::Disconnected)));
    assert_eq!(ids(&app.instruments), vec![1, 2]);
    assert_eq!(app.selected_row, Some(0));
}

#[test]
fn selecting_past_the_table_changes_nothing() {
    let mut app = GuiApp::new();
    app.refresh(Ok(vec![instr(1)]));
    app.select_row(5);
    assert_eq!(app.selected_row, None);
}

#[test]
fn selected_instrument_follows_the_selection() {
    let mut app = GuiApp::new();
    app.refresh(Ok(vec![instr(4), instr(8)]));
    assert!(app.selected_instrument().is_none());
    app.select_row(1);
    assert_eq!(app.selected_instrument().unwrap().id, 8);
}

#[test]
fn startup_choice_selects_each_mode() {
    assert_eq!(select_mode("1"), (Mode::Rest, true));
    assert_eq!(select_mode("2"), (Mode::Cli, true));
    assert_eq!(select_mode("3"), (Mode::Gui, true));
    assert_eq!(select_mode("4"), (Mode::Gui, false));
    assert_eq!(select_mode(""), (Mode::Gui, false));
    assert_eq!(select_mode("12"), (Mode::Gui, false));
}

#[test]
fn mode_selection_is_terminal() {
    let mut state = ModeState::Unselected;
    assert!(state.apply_choice("2"));
    assert_eq!(state, ModeState::Selected(Mode::Cli));
    assert!(!state.apply_choice("1"));
    assert_eq!(state, ModeState::Selected(Mode::Cli));
}

#[test]
fn console_menu_choices() {
    assert_eq!(parse_cli_choice("1"), CliChoice::List);
    assert_eq!(parse_cli_choice("2"), CliChoice::Quit);
    assert_eq!(parse_cli_choice("3"), CliChoice::Invalid);
    assert_eq!(parse_cli_choice(""), CliChoice::Invalid);
    assert_eq!(parse_cli_choice("quit"), CliChoice::Invalid);
}

#[test]
fn console_lists_exactly_the_bounded_fetch() {
    assert_eq!(CLI_FETCH_LIMIT, 5);
    let mut guard = ConnectionGuard::new(catalog(&[1, 2, 3, 4, 5, 6, 7]));
    assert_eq!(parse_cli_choice("1"), CliChoice::List);
    let fetch = guard.list_instruments(1, Limit::Bounded(CLI_FETCH_LIMIT));
    match console_render(fetch) {
        ConsoleRender::Rows(rows) => assert_eq!(ids(&rows), vec![1, 2, 3, 4, 5]),
        ConsoleRender::ErrorMessage(m) => panic!("unexpected error: {m}"),
    }
}

#[test]
fn console_shows_the_error_and_keeps_running() {
    let mut session = catalog(&[1, 2, 3]);
    session.set_connected(false);
    let mut guard = ConnectionGuard::new(session);
    let choice = parse_cli_choice("1");
    assert_ne!(choice, CliChoice::Quit);
    let fetch = guard.list_instruments(1, Limit::Bounded(CLI_FETCH_LIMIT));
    match console_render(fetch) {
        ConsoleRender::ErrorMessage(m) => {
            assert_eq!(m, "fetch failed: storage connection lost")
        }
        ConsoleRender::Rows(_) => panic!("a failed fetch must not render rows"),
    }
}

#[test]
fn network_responder_serves_all_seven() {
    let mut guard = ConnectionGuard::new(catalog(&[1, 2, 3, 4, 5, 6, 7]));
    let reply = respond(guard.list_instruments(1, Limit::Unbounded));
    assert_eq!(reply.status, 200);
    let body = reply.body.expect("success carries a body");
    assert_eq!(ids(&body.data), vec![1, 2, 3, 4, 5, 6, 7]);
    assert_eq!(body.message, "Fetched 7 instruments");
    assert!(reply.error.is_none());
}

#[test]
fn network_responder_never_masks_a_failed_fetch() {
    let mut session = catalog(&[1, 2, 3]);
    session.set_connected(false);
    let mut guard = ConnectionGuard::new(session);
    let reply = respond(guard.list_instruments(1, Limit::Unbounded));
    assert_ne!(reply.status, 200);
    assert_eq!(reply.status, 500);
    assert!(reply.body.is_none());
    assert_eq!(reply.error.unwrap(), "fetch failed: storage connection lost");
}

#[test]
fn decimal_formatting_is_exact() {
    assert_eq!(to_decimal(0), "0");
    assert_eq!(to_decimal(7), "7");
    assert_eq!(to_decimal(10), "10");
    assert_eq!(to_decimal(42), "42");
    assert_eq!(to_decimal(100), "100");
    assert_eq!(to_decimal(987654321), "987654321");
}

#[test]
fn every_error_has_its_text() {
    assert_eq!(
        Error::ConnectionUnavailable.message(),
        "connection unavailable: storage session cannot be acquired"
    );
    assert_eq!(
        Error::FetchFailed(StorageError::Disconnected).message(),
        "fetch failed: storage connection lost"
    );
    assert_eq!(
        Error::RenderFailed.message(),
        "render failed: display could not be initialized"
    );
}
