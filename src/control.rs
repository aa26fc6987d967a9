use vstd::prelude::*;
use crate::event::{AppEvent, KeyPress};
use crate::rpc::{RpcError, Unspent};
use crate::selection::{SelectionState, down_spec, up_spec};

verus! {

/// What a key asks the control loop to do.
#[derive(Clone, Copy, Debug, PartialEq, Eq, Structural)]
pub enum Command {
    Quit,
    Down,
    Up,
    Lock,
    Refresh,
    Ignore,
}

/// What the driver of the loop must do after an event.
#[derive(Clone, Copy, Debug, PartialEq, Eq, Structural)]
pub enum Action {
    /// Nothing beyond the next redraw.
    Redraw,
    /// Release the terminal and stop.
    Exit,
    /// Lock the registry entry at this index, then report with `lock_done`.
    Lock(usize),
    /// Fetch the registry again, then report with `refreshed`.
    Refresh,
}

/// The keyboard map: `q` quits, the arrows move, `l` locks, `r` refreshes.
pub open spec fn command_spec(key: KeyPress) -> Command {
    match key {
        KeyPress::Char(c) => if c == 'q' {
            Command::Quit
        } else if c == 'l' {
            Command::Lock
        } else if c == 'r' {
            Command::Refresh
        } else {
            Command::Ignore
        },
        KeyPress::Down => Command::Down,
        KeyPress::Up => Command::Up,
        KeyPress::Other => Command::Ignore,
    }
}

/// The command that `key` stands for.
pub fn command_of(key: KeyPress) -> (r: Command)
    ensures
        r == command_spec(key),
{
    match key {
        KeyPress::Char(c) => if c == 'q' {
            Command::Quit
        } else if c == 'l' {
            Command::Lock
        } else if c == 'r' {
            Command::Refresh
        } else {
            Command::Ignore
        },
        KeyPress::Down => Command::Down,
        KeyPress::Up => Command::Up,
        KeyPress::Other => Command::Ignore,
    }
}

/// The outputs that a list of entries stands for, in order.
pub open spec fn outputs(list: Seq<Unspent>) -> Seq<(Seq<char>, u64)> {
    list.map_values(|u: Unspent| u@)
}

/// `list` without the outputs of transaction `omit`, if one is given.
pub open spec fn omit_spec(list: Seq<(Seq<char>, u64)>, omit: Option<Seq<char>>) -> Seq<(Seq<char>, u64)>
    decreases list.len(),
{
    if list.len() == 0 {
        Seq::empty()
    } else {
        let kept = omit_spec(list.drop_last(), omit);
        if omit == Some(list.last().0) {
            kept
        } else {
            kept.push(list.last())
        }
    }
}

/// Whether no entry of `list` belongs to transaction `omit`.
pub open spec fn omits(list: Seq<(Seq<char>, u64)>, omit: Option<Seq<char>>) -> bool {
    forall|i: int| 0 <= i < list.len() ==> omit != Some(#[trigger] list[i].0)
}

/// Leaving out transaction `omit` leaves none of its entries.
pub proof fn lemma_omit_spec_omits(list: Seq<(Seq<char>, u64)>, omit: Option<Seq<char>>)
    ensures
        omits(omit_spec(list, omit), omit),
    decreases list.len(),
{
    if list.len() > 0 {
        lemma_omit_spec_omits(list.drop_last(), omit);
        let kept = omit_spec(list.drop_last(), omit);
        if omit != Some(list.last().0) {
            assert forall|i: int| 0 <= i < kept.len() + 1 implies omit != Some(
                #[trigger] kept.push(list.last())[i].0,
            ) by {
                if i < kept.len() {
                    assert(kept.push(list.last())[i] == kept[i]);
                }
            }
        }
    }
}

/// A list with no entry of transaction `omit` is shown as it is.
pub proof fn lemma_omit_absent(list: Seq<(Seq<char>, u64)>, omit: Option<Seq<char>>)
    requires
        omits(list, omit),
    ensures
        omit_spec(list, omit) == list,
    decreases list.len(),
{
    if list.len() > 0 {
        assert(omits(list.drop_last(), omit)) by {
            assert forall|i: int| 0 <= i < list.len() - 1 implies omit != Some(
                #[trigger] list.drop_last()[i].0,
            ) by {
                assert(list.drop_last()[i] == list[i]);
            }
        }
        lemma_omit_absent(list.drop_last(), omit);
        assert(omit != Some(list[list.len() - 1].0));
        assert(list.drop_last().push(list.last()) =~= list);
    }
}

/// The entries of `list` that do not belong to transaction `omit`, in order.
pub fn without_tx(list: &Vec<Unspent>, omit: &Option<String>) -> (r: Vec<Unspent>)
    ensures
        outputs(r@) == omit_spec(outputs(list@), opt_view(omit)),
{
    let mut kept: Vec<Unspent> = Vec::new();
    let mut i: usize = 0;
    while i < list.len()
        invariant
            i <= list@.len(),
            outputs(kept@) == omit_spec(outputs(list@).subrange(0, i as int), opt_view(omit)),
        decreases list.len() - i,
    {
        let u = &list[i];
        let skip = match omit {
            Some(t) => u.txid == *t,
            None => false,
        };
        let ghost before = kept@;
        if !skip {
            kept.push(Unspent { txid: u.txid.clone(), vout: u.vout });
            assert(outputs(kept@) =~= outputs(before).push(u@));
        }
        let ghost done = outputs(list@).subrange(0, i + 1);
        assert(done.drop_last() =~= outputs(list@).subrange(0, i as int));
        assert(done.last() == u@);
        i = i + 1;
    }
    assert(outputs(list@).subrange(0, list@.len() as int) =~= outputs(list@));
    kept
}

/// The view of an optional string.
pub open spec fn opt_view(s: &Option<String>) -> Option<Seq<char>> {
    match s {
        Some(t) => Some(t@),
        None => None,
    }
}

/// The control loop's state, as the contracts see it.
pub struct SessionView {
    pub registry: Seq<(Seq<char>, u64)>,
    pub highlighted: Option<usize>,
    pub running: bool,
    pub status: Option<RpcError>,
    pub omit: Option<Seq<char>>,
}

impl SessionView {
    /// The registry on display holds no entry of the omitted transaction.
    pub open spec fn wf(self) -> bool {
        omits(self.registry, self.omit)
    }
}

/// The control loop's state: the registry on display, the highlight, whether
/// the loop still runs, the last failed call (shown as a status line), and
/// the transaction whose outputs are kept out of display and locking.
pub struct Session {
    pub registry: Vec<Unspent>,
    pub selection: SelectionState,
    pub running: bool,
    pub status: Option<RpcError>,
    pub omit: Option<String>,
}

impl View for Session {
    type V = SessionView;

    open spec fn view(&self) -> SessionView {
        SessionView {
            registry: outputs(self.registry@),
            highlighted: self.selection.highlighted,
            running: self.running,
            status: self.status,
            omit: opt_view(&self.omit),
        }
    }
}

/// The state and the action after event `ev` in state `s`.
///
/// Moving goes by the selection machine over the registry's length. Locking
/// needs a highlighted entry of the registry; without one the key does
/// nothing, and no call is made. A tick changes nothing.
pub open spec fn event_spec(s: SessionView, ev: AppEvent) -> (SessionView, Action) {
    match ev {
        AppEvent::Tick => (s, Action::Redraw),
        AppEvent::Input(key) => match command_spec(key) {
            Command::Quit => (SessionView { running: false, ..s }, Action::Exit),
            Command::Down => (
                SessionView { highlighted: down_spec(s.highlighted, s.registry.len() as usize), ..s },
                Action::Redraw,
            ),
            Command::Up => (
                SessionView { highlighted: up_spec(s.highlighted, s.registry.len() as usize), ..s },
                Action::Redraw,
            ),
            Command::Lock => match s.highlighted {
                Some(i) => if i < s.registry.len() {
                    (s, Action::Lock(i))
                } else {
                    (s, Action::Redraw)
                },
                None => (s, Action::Redraw),
            },
            Command::Refresh => (s, Action::Refresh),
            Command::Ignore => (s, Action::Redraw),
        },
    }
}

/// The state after a `lockunspent` call ended with `result`: a failure is
/// kept for the status line, a success clears it.
pub open spec fn lock_done_spec(s: SessionView, result: Result<(), RpcError>) -> SessionView {
    match result {
        Ok(_) => SessionView { status: None, ..s },
        Err(e) => SessionView { status: Some(e), ..s },
    }
}

/// The state after a refetch ended with `result`: on success the registry is
/// replaced wholesale (less the omitted transaction) and the highlight keeps
/// its number; on failure the registry stays and the failure is kept for the
/// status line.
pub open spec fn refreshed_spec(
    s: SessionView,
    result: Result<Seq<(Seq<char>, u64)>, RpcError>,
) -> SessionView {
    match result {
        Ok(list) => SessionView { registry: omit_spec(list, s.omit), status: None, ..s },
        Err(e) => SessionView { status: Some(e), ..s },
    }
}

/// The view of a fetch result.
pub open spec fn fetched(result: Result<Vec<Unspent>, RpcError>) -> Result<Seq<(Seq<char>, u64)>, RpcError> {
    match result {
        Ok(list) => Ok(outputs(list@)),
        Err(e) => Err(e),
    }
}

impl Session {
    /// Starts the loop on the first listing. A failed listing is fatal: it is
    /// handed back and no session exists to draw.
    pub fn start(initial: Result<Vec<Unspent>, RpcError>, omit: Option<String>) -> (r: Result<Session, RpcError>)
        ensures
            match initial {
                Ok(list) => r matches Ok(s) && s@ == (SessionView {
                    registry: omit_spec(outputs(list@), opt_view(&omit)),
                    highlighted: None,
                    running: true,
                    status: None,
                    omit: opt_view(&omit),
                }) && s@.wf(),
                Err(e) => r == Err::<Session, RpcError>(e),
            },
    {
        match initial {
            Ok(list) => {
                let registry = without_tx(&list, &omit);
                proof {
                    lemma_omit_spec_omits(outputs(list@), opt_view(&omit));
                }
                Ok(Session { registry, selection: SelectionState::new(), running: true, status: None, omit })
            },
            Err(e) => Err(e),
        }
    }

    /// Handles one event and says what the driver must do next.
    pub fn handle_event(&mut self, ev: AppEvent) -> (r: Action)
        ensures
            (final(self)@, r) == event_spec(old(self)@, ev),
            old(self)@.wf() ==> final(self)@.wf(),
    {
        match ev {
            AppEvent::Tick => Action::Redraw,
            AppEvent::Input(key) => match command_of(key) {
                Command::Quit => {
                    self.running = false;
                    Action::Exit
                },
                Command::Down => {
                    self.selection.down(self.registry.len());
                    Action::Redraw
                },
                Command::Up => {
                    self.selection.up(self.registry.len());
                    Action::Redraw
                },
                Command::Lock => match self.selection.selected() {
                    Some(i) => if i < self.registry.len() {
                        Action::Lock(i)
                    } else {
                        Action::Redraw
                    },
                    None => Action::Redraw,
                },
                Command::Refresh => Action::Refresh,
                Command::Ignore => Action::Redraw,
            },
        }
    }

    /// Records how a `lockunspent` call ended.
    pub fn lock_done(&mut self, result: Result<(), RpcError>)
        ensures
            final(self)@ == lock_done_spec(old(self)@, result),
            old(self)@.wf() ==> final(self)@.wf(),
    {
        match result {
            Ok(_) => self.status = None,
            Err(e) => self.status = Some(e),
        }
    }

    /// Records how a refetch of the registry ended.
    pub fn refreshed(&mut self, result: Result<Vec<Unspent>, RpcError>)
        ensures
            final(self)@ == refreshed_spec(old(self)@, fetched(result)),
            result is Ok || old(self)@.wf() ==> final(self)@.wf(),
    {
        match result {
            Ok(list) => {
                self.registry = without_tx(&list, &self.omit);
                proof {
                    lemma_omit_spec_omits(outputs(list@), opt_view(&self.omit));
                }
                self.status = None;
            },
            Err(e) => self.status = Some(e),
        }
    }
}

/// With an empty registry the lock key changes nothing and asks the driver
/// for no call to the node.
pub proof fn lemma_lock_on_empty_registry(s: SessionView, key: KeyPress)
    requires
        s.registry.len() == 0,
        command_spec(key) == Command::Lock,
    ensures
        event_spec(s, AppEvent::Input(key)) == (s, Action::Redraw),
{
}

/// After a lock, whatever its outcome, the refresh key asks the driver to
/// fetch the registry again, and the list fetched then is what is displayed,
/// less the omitted transaction: a list that shrank shows shrunk, exactly as
/// fetched when it holds nothing of the omitted transaction. The highlight
/// keeps its number.
pub proof fn lemma_refresh_after_lock(
    s: SessionView,
    lock_key: KeyPress,
    lock_result: Result<(), RpcError>,
    refresh_key: KeyPress,
    fresh: Seq<(Seq<char>, u64)>,
)
    requires
        command_spec(lock_key) == Command::Lock,
        command_spec(refresh_key) == Command::Refresh,
    ensures
        ({
            let s1 = event_spec(s, AppEvent::Input(lock_key)).0;
            let s2 = lock_done_spec(s1, lock_result);
            let (s3, a) = event_spec(s2, AppEvent::Input(refresh_key));
            &&& a == Action::Refresh
            &&& refreshed_spec(s3, Ok(fresh)).registry == omit_spec(fresh, s.omit)
            &&& refreshed_spec(s3, Ok(fresh)).highlighted == s.highlighted
            &&& refreshed_spec(s3, Ok(fresh)).wf()
            &&& omits(fresh, s.omit) ==> refreshed_spec(s3, Ok(fresh)).registry == fresh
        }),
{
    lemma_omit_spec_omits(fresh, s.omit);
    if omits(fresh, s.omit) {
        lemma_omit_absent(fresh, s.omit);
    }
}

} // verus!
