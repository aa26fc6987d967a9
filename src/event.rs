use vstd::prelude::*;

verus! {

/// A key press, as far as the control loop tells keys apart.
#[derive(Clone, Copy, Debug, PartialEq, Eq, Structural)]
pub enum KeyPress {
    Char(char),
    Down,
    Up,
    Other,
}

/// What the control loop receives: a key press, or the periodic tick.
#[derive(Clone, Copy, Debug, PartialEq, Eq, Structural)]
pub enum AppEvent {
    Input(KeyPress),
    Tick,
}

/// The tick period, in milliseconds.
pub const TICK_RATE_MS: u64 = 200;

/// The event source's clock: when the next tick is due, in milliseconds
/// since the source started. The key poller waits at most until then, so
/// keys and ticks share one wait.
#[derive(Clone, Copy, Debug, PartialEq, Eq, Structural)]
pub struct Ticker {
    pub next_tick_ms: u64,
}

/// The deadline after `deadline`, one period later (held at the largest
/// time the clock can tell).
pub open spec fn advance(deadline: u64) -> u64 {
    if deadline <= u64::MAX - TICK_RATE_MS {
        (deadline + TICK_RATE_MS) as u64
    } else {
        u64::MAX
    }
}

/// What one wake of the poller emits: the key first, if one came, then the
/// tick, if it is due.
pub open spec fn emitted(key: Option<KeyPress>, tick_due: bool) -> Seq<AppEvent> {
    let keys = match key {
        Some(k) => seq![AppEvent::Input(k)],
        None => Seq::<AppEvent>::empty(),
    };
    if tick_due {
        keys.push(AppEvent::Tick)
    } else {
        keys
    }
}

impl Ticker {
    /// A clock started at time 0: the first tick is due one period later.
    pub fn new() -> (r: Ticker)
        ensures
            r.next_tick_ms == TICK_RATE_MS,
    {
        Ticker { next_tick_ms: TICK_RATE_MS }
    }

    /// How long the poller may wait for a key at time `now_ms`: the time left
    /// until the next tick, or nothing if it is already due.
    pub fn timeout_ms(&self, now_ms: u64) -> (r: u64)
        ensures
            r == (if now_ms < self.next_tick_ms {
                (self.next_tick_ms - now_ms) as u64
            } else {
                0
            }),
    {
        if now_ms < self.next_tick_ms {
            self.next_tick_ms - now_ms
        } else {
            0
        }
    }

    /// The poller woke at time `now_ms`, with `key` if one was pressed.
    /// Returns the events to send, in order; when the tick is emitted its
    /// deadline moves one period on.
    pub fn wake(&mut self, key: Option<KeyPress>, now_ms: u64) -> (r: Vec<AppEvent>)
        ensures
            r@ == emitted(key, now_ms >= old(self).next_tick_ms),
            final(self).next_tick_ms == (if now_ms >= old(self).next_tick_ms {
                advance(old(self).next_tick_ms)
            } else {
                old(self).next_tick_ms
            }),
    {
        let mut events: Vec<AppEvent> = Vec::new();
        match key {
            Some(k) => events.push(AppEvent::Input(k)),
            None => {},
        }
        if now_ms >= self.next_tick_ms {
            events.push(AppEvent::Tick);
            if self.next_tick_ms <= u64::MAX - TICK_RATE_MS {
                self.next_tick_ms = self.next_tick_ms + TICK_RATE_MS;
            } else {
                self.next_tick_ms = u64::MAX;
            }
        }
        assert(events@ =~= emitted(key, now_ms >= old(self).next_tick_ms));
        events
    }
}

} // verus!
