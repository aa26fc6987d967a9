use vstd::prelude::*;

verus! {

/// Which entry of the output list is highlighted, if any.
///
/// Moving walks a ring of `n + 1` slots `0, 1, ..., n`: slot `n` lies one
/// past the last entry and highlights nothing. This keeps the wrap test
/// against `n` (not `n - 1`), so that `Down` from `n - 1` stops on the empty
/// slot `n` before wrapping to `0`, and `Up` from `0` lands on `n`.
/// An index beyond `n` (left there when the list shrank) wraps to `0` on
/// the next `Down`.
#[derive(Clone, Copy, Debug, PartialEq, Eq, Structural)]
pub struct SelectionState {
    pub highlighted: Option<usize>,
}

/// The highlight after one `Down` press over a list of `n` entries.
pub open spec fn down_spec(sel: Option<usize>, n: usize) -> Option<usize> {
    match sel {
        None => Some(0),
        Some(i) => if i == n || i == usize::MAX {
            Some(0)
        } else {
            Some((i + 1) as usize)
        },
    }
}

/// The highlight after one `Up` press over a list of `n` entries.
/// With nothing highlighted and an empty list, nothing changes.
pub open spec fn up_spec(sel: Option<usize>, n: usize) -> Option<usize> {
    match sel {
        None => if n == 0 {
            None
        } else {
            Some((n - 1) as usize)
        },
        Some(i) => if i == 0 {
            Some(n)
        } else {
            Some((i - 1) as usize)
        },
    }
}

/// The highlight after `k` `Down` presses.
pub open spec fn downs(sel: Option<usize>, n: usize, k: nat) -> Option<usize>
    decreases k,
{
    if k == 0 {
        sel
    } else {
        down_spec(downs(sel, n, (k - 1) as nat), n)
    }
}

/// The highlight after `k` `Up` presses.
pub open spec fn ups(sel: Option<usize>, n: usize, k: nat) -> Option<usize>
    decreases k,
{
    if k == 0 {
        sel
    } else {
        up_spec(ups(sel, n, (k - 1) as nat), n)
    }
}

impl SelectionState {
    /// Nothing highlighted.
    pub fn new() -> (r: SelectionState)
        ensures
            r.highlighted is None,
    {
        SelectionState { highlighted: None }
    }

    /// The highlighted index, if any.
    pub fn selected(&self) -> (r: Option<usize>)
        ensures
            r == self.highlighted,
    {
        self.highlighted
    }

    /// Forget the highlight.
    pub fn reset(&mut self)
        ensures
            final(self).highlighted is None,
    {
        self.highlighted = None;
    }

    /// Move the highlight one step down over a list of `n` entries.
    pub fn down(&mut self, n: usize)
        ensures
            final(self).highlighted == down_spec(old(self).highlighted, n),
    {
        self.highlighted = match self.highlighted {
            None => Some(0),
            Some(i) => if i == n || i == usize::MAX {
                Some(0)
            } else {
                Some(i + 1)
            },
        };
    }

    /// Move the highlight one step up over a list of `n` entries.
    pub fn up(&mut self, n: usize)
        ensures
            final(self).highlighted == up_spec(old(self).highlighted, n),
    {
        self.highlighted = match self.highlighted {
            None => if n == 0 {
                None
            } else {
                Some(n - 1)
            },
            Some(i) => if i == 0 {
                Some(n)
            } else {
                Some(i - 1)
            },
        };
    }
}

/// Pressing `Down` `k >= 1` times from nothing highlighted visits
/// `0, 1, ..., n, 0, 1, ...`: after `k` presses the highlight is at
/// `(k - 1) mod (n + 1)`.
pub proof fn lemma_downs_from_none_cycle(n: usize, k: nat)
    requires
        n >= 1,
        k >= 1,
    ensures
        downs(None, n, k) == Some(((k - 1) % (n as int + 1)) as usize),
    decreases k,
{
    if k == 1 {
        assert(downs(None, n, 0) == None::<usize>);
        assert(0int % (n as int + 1) == 0) by (nonlinear_arith)
            requires n >= 1;
    } else {
        lemma_downs_from_none_cycle(n, (k - 1) as nat);
        let m = n as int + 1;
        let j = (k - 2) as int;
        assert(0 <= j % m < m) by (nonlinear_arith)
            requires m >= 2, j >= 0;
        if j % m == n as int {
            assert((j + 1) % m == 0) by (nonlinear_arith)
                requires m >= 2, j >= 0, j % m == m - 1;
        } else {
            assert((j + 1) % m == j % m + 1) by (nonlinear_arith)
                requires m >= 2, j >= 0, 0 <= j % m < m - 1;
        }
    }
}

/// `Up` undoes `Down` on every slot of the ring `0..=n`.
pub proof fn lemma_up_after_down(i: usize, n: usize)
    requires
        i <= n,
    ensures
        up_spec(down_spec(Some(i), n), n) == Some(i),
        down_spec(up_spec(Some(i), n), n) == Some(i),
{
}

/// `k` `Down` presses keep a highlight on the ring `0..=n`.
pub proof fn lemma_downs_in_ring(i: usize, n: usize, k: nat)
    requires
        i <= n,
    ensures
        downs(Some(i), n, k) matches Some(j) && j <= n,
    decreases k,
{
    if k > 0 {
        lemma_downs_in_ring(i, n, (k - 1) as nat);
    }
}

/// `k` `Up` presses keep a highlight on the ring `0..=n`.
pub proof fn lemma_ups_in_ring(i: usize, n: usize, k: nat)
    requires
        i <= n,
    ensures
        ups(Some(i), n, k) matches Some(j) && j <= n,
    decreases k,
{
    if k > 0 {
        lemma_ups_in_ring(i, n, (k - 1) as nat);
    }
}

/// Over a list of `n >= 1` entries, `k` `Down` presses followed by `k` `Up`
/// presses, or `k` `Up` presses followed by `k` `Down` presses, return to the
/// highlighted slot, the one-past-end slot `n` included. (From nothing
/// highlighted they do not: the first press always highlights something.)
pub proof fn lemma_downs_then_ups(i: usize, n: usize, k: nat)
    requires
        n >= 1,
        i <= n,
    ensures
        ups(downs(Some(i), n, k), n, k) == Some(i),
        downs(ups(Some(i), n, k), n, k) == Some(i),
    decreases k,
{
    if k > 0 {
        let k1 = (k - 1) as nat;
        lemma_downs_then_ups_step(i, n, k1);
        lemma_downs_then_ups(i, n, k1);
    }
}

proof fn lemma_ups_shift(sel: Option<usize>, n: usize, k: nat)
    ensures
        ups(up_spec(sel, n), n, k) == ups(sel, n, k + 1),
        downs(down_spec(sel, n), n, k) == downs(sel, n, k + 1),
    decreases k,
{
    if k > 0 {
        let k1 = (k - 1) as nat;
        lemma_ups_shift(sel, n, k1);
        assert(ups(sel, n, k + 1) == up_spec(ups(sel, n, k), n));
        assert(downs(sel, n, k + 1) == down_spec(downs(sel, n, k), n));
    } else {
        assert(ups(sel, n, 1) == up_spec(ups(sel, n, 0), n));
        assert(downs(sel, n, 1) == down_spec(downs(sel, n, 0), n));
    }
}

proof fn lemma_downs_then_ups_step(i: usize, n: usize, k: nat)
    requires
        i <= n,
    ensures
        ups(downs(Some(i), n, k + 1), n, k + 1) == ups(downs(Some(i), n, k), n, k),
        downs(ups(Some(i), n, k + 1), n, k + 1) == downs(ups(Some(i), n, k), n, k),
{
    lemma_downs_in_ring(i, n, k);
    lemma_ups_in_ring(i, n, k);
    let d = downs(Some(i), n, k);
    let u = ups(Some(i), n, k);
    lemma_up_after_down(d->Some_0, n);
    lemma_up_after_down(u->Some_0, n);
    lemma_ups_shift(down_spec(d, n), n, k);
    lemma_ups_shift(up_spec(u, n), n, k);
}

} // verus!
