use lock_unspents::event::{AppEvent, KeyPress, Ticker, TICK_RATE_MS};

#[test]
fn timeout_is_time_left_until_the_tick() {
    let t = Ticker::new();
    assert_eq!(TICK_RATE_MS, 200);
    assert_eq!(t.timeout_ms(0), 200);
    assert_eq!(t.timeout_ms(150), 50);
    assert_eq!(t.timeout_ms(200), 0);
    assert_eq!(t.timeout_ms(900), 0);
}

#[test]
fn key_before_deadline_is_sent_alone() {
    let mut t = Ticker::new();
    let ev = t.wake(Some(KeyPress::Down), 120);
    assert_eq!(ev, vec![AppEvent::Input(KeyPress::Down)]);
    assert_eq!(t.next_tick_ms, 200);
}

#[test]
fn tick_at_deadline_moves_it_one_period() {
    let mut t = Ticker::new();
    let ev = t.wake(None, 201);
    assert_eq!(ev, vec![AppEvent::Tick]);
    assert_eq!(t.next_tick_ms, 400);
    assert_eq!(t.timeout_ms(201), 199);
}

#[test]
fn key_and_tick_keep_their_order() {
    let mut t = Ticker::new();
    let ev = t.wake(Some(KeyPress::Char('q')), 250);
    assert_eq!(ev, vec![AppEvent::Input(KeyPress::Char('q')), AppEvent::Tick]);
}

#[test]
fn quiet_wake_before_deadline_sends_nothing() {
    let mut t = Ticker::new();
    assert!(t.wake(None, 10).is_empty());
    assert_eq!(t.next_tick_ms, 200);
}

#[test]
fn deadline_holds_at_the_clock_limit() {
    let mut t = Ticker { next_tick_ms: u64::MAX - 1 };
    let ev = t.wake(None, u64::MAX);
    assert_eq!(ev, vec![AppEvent::Tick]);
    assert_eq!(t.next_tick_ms, u64::MAX);
}
