use lock_unspents::control::{command_of, without_tx, Action, Command, Session};
use lock_unspents::event::{AppEvent, KeyPress};
use lock_unspents::rpc::{RpcError, Unspent};

fn u(txid: &str, vout: u64) -> Unspent {
    Unspent { txid: txid.to_string(), vout }
}

fn key(c: char) -> AppEvent {
    AppEvent::Input(KeyPress::Char(c))
}

fn started(list: Vec<Unspent>) -> Session {
    Session::start(Ok(list), None).unwrap()
}

#[test]
fn keyboard_map() {
    assert_eq!(command_of(KeyPress::Char('q')), Command::Quit);
    assert_eq!(command_of(KeyPress::Char('l')), Command::Lock);
    assert_eq!(command_of(KeyPress::Char('r')), Command::Refresh);
    assert_eq!(command_of(KeyPress::Char('x')), Command::Ignore);
    assert_eq!(command_of(KeyPress::Down), Command::Down);
    assert_eq!(command_of(KeyPress::Up), Command::Up);
    assert_eq!(command_of(KeyPress::Other), Command::Ignore);
}

#[test]
fn transport_failure_on_first_listing_is_fatal() {
    let r = Session::start(Err(RpcError::Transport), None);
    assert_eq!(r.err(), Some(RpcError::Transport));
}

#[test]
fn auth_failure_on_first_listing_is_fatal() {
    let r = Session::start(Err(RpcError::Auth), None);
    assert_eq!(r.err(), Some(RpcError::Auth));
}

#[test]
fn start_shows_the_listing_with_nothing_selected() {
    let s = started(vec![u("a", 0), u("b", 1)]);
    assert_eq!(s.registry.len(), 2);
    assert_eq!(s.selection.selected(), None);
    assert!(s.running);
    assert_eq!(s.status, None);
}

#[test]
fn lock_on_empty_registry_makes_no_call() {
    let mut s = started(vec![]);
    assert_eq!(s.handle_event(key('l')), Action::Redraw);
    s.handle_event(AppEvent::Input(KeyPress::Down));
    assert_eq!(s.selection.selected(), Some(0));
    assert_eq!(s.handle_event(key('l')), Action::Redraw);
    assert!(s.running);
}

#[test]
fn lock_without_selection_makes_no_call() {
    let mut s = started(vec![u("a", 0)]);
    assert_eq!(s.handle_event(key('l')), Action::Redraw);
}

#[test]
fn lock_locks_the_highlighted_entry() {
    let mut s = started(vec![u("a", 0), u("b", 1), u("c", 0)]);
    s.handle_event(AppEvent::Input(KeyPress::Down));
    s.handle_event(AppEvent::Input(KeyPress::Down));
    assert_eq!(s.handle_event(key('l')), Action::Lock(1));
}

#[test]
fn lock_on_the_slot_past_the_end_makes_no_call() {
    let mut s = started(vec![u("a", 0)]);
    s.handle_event(AppEvent::Input(KeyPress::Up));
    s.handle_event(AppEvent::Input(KeyPress::Down));
    assert_eq!(s.selection.selected(), Some(1));
    assert_eq!(s.handle_event(key('l')), Action::Redraw);
}

#[test]
fn refresh_after_lock_shows_the_shrunk_list() {
    let mut s = started(vec![u("a", 0), u("b", 1), u("c", 0)]);
    s.handle_event(AppEvent::Input(KeyPress::Down));
    assert_eq!(s.handle_event(key('l')), Action::Lock(0));
    s.lock_done(Ok(()));
    assert_eq!(s.handle_event(key('r')), Action::Refresh);
    s.refreshed(Ok(vec![u("b", 1), u("c", 0)]));
    assert_eq!(s.registry.len(), 2);
    assert_eq!(s.registry[0].txid, "b");
    assert_eq!(s.registry[1].txid, "c");
    assert_eq!(s.selection.selected(), Some(0));
}

#[test]
fn refresh_keeps_the_highlight_by_number() {
    let mut s = started(vec![u("a", 0), u("b", 1), u("c", 0)]);
    s.handle_event(AppEvent::Input(KeyPress::Down));
    s.handle_event(AppEvent::Input(KeyPress::Down));
    assert_eq!(s.handle_event(key('l')), Action::Lock(1));
    s.lock_done(Ok(()));
    assert_eq!(s.handle_event(key('r')), Action::Refresh);
    s.refreshed(Ok(vec![u("a", 0), u("c", 0)]));
    assert_eq!(s.registry.len(), 2);
    assert_eq!(s.registry[0].txid, "a");
    assert_eq!(s.registry[1].txid, "c");
    assert_eq!(s.selection.selected(), Some(1));
}

#[test]
fn refresh_keeps_the_omitted_transaction_out() {
    let mut s = Session::start(Ok(vec![u("a", 0), u("b", 1)]), Some("a".to_string())).unwrap();
    assert_eq!(s.registry.len(), 1);
    s.refreshed(Ok(vec![u("a", 0), u("a", 1), u("c", 4)]));
    assert_eq!(s.registry.len(), 1);
    assert_eq!(s.registry[0].txid, "c");
    assert_eq!(s.registry[0].vout, 4);
}

#[test]
fn failed_lock_is_shown_and_the_loop_goes_on() {
    let mut s = started(vec![u("a", 0)]);
    s.lock_done(Err(RpcError::Transport));
    assert_eq!(s.status, Some(RpcError::Transport));
    assert!(s.running);
    s.lock_done(Ok(()));
    assert_eq!(s.status, None);
}

#[test]
fn failed_refresh_keeps_the_registry() {
    let mut s = started(vec![u("a", 0), u("b", 1)]);
    s.refreshed(Err(RpcError::Protocol));
    assert_eq!(s.status, Some(RpcError::Protocol));
    assert_eq!(s.registry.len(), 2);
}

#[test]
fn tick_and_other_keys_change_nothing() {
    let mut s = started(vec![u("a", 0)]);
    assert_eq!(s.handle_event(AppEvent::Tick), Action::Redraw);
    assert_eq!(s.handle_event(AppEvent::Input(KeyPress::Other)), Action::Redraw);
    assert_eq!(s.handle_event(key('z')), Action::Redraw);
    assert_eq!(s.selection.selected(), None);
    assert!(s.running);
}

#[test]
fn quit_stops_the_loop() {
    let mut s = started(vec![u("a", 0)]);
    assert_eq!(s.handle_event(key('q')), Action::Exit);
    assert!(!s.running);
}

#[test]
fn omitted_transaction_is_kept_out() {
    let list = vec![u("a", 0), u("b", 1), u("a", 2), u("c", 0)];
    let kept = without_tx(&list, &Some("a".to_string()));
    let ids: Vec<(String, u64)> = kept.iter().map(|x| (x.txid.clone(), x.vout)).collect();
    assert_eq!(ids, vec![("b".to_string(), 1), ("c".to_string(), 0)]);
    assert_eq!(without_tx(&list, &None).len(), 4);
    let s = Session::start(Ok(list), Some("b".to_string())).unwrap();
    assert_eq!(s.registry.len(), 3);
    assert!(s.registry.iter().all(|x| x.txid != "b"));
}
