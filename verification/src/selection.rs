//! The highlighted position inside the current network list.
//!
//! Navigation clamps at both ends: `move_up` floors the index at 0 and
//! `move_down` caps it at `list_len - 1`.

use vstd::prelude::*;
use crate::client::NetworkList;

verus! {

/// What one upward step does to an index.
pub open spec fn up_step(i: nat) -> nat {
    if i > 0 {
        (i - 1) as nat
    } else {
        0
    }
}

/// What one downward step does to an index, inside a list of `len`
/// entries (`len > 0`).
pub open spec fn down_step(i: nat, len: nat) -> nat {
    if i + 1 < len {
        i + 1
    } else {
        (len - 1) as nat
    }
}

/// `n` upward steps from `i`.
pub open spec fn up_steps(i: nat, n: nat) -> nat
    decreases n,
{
    if n == 0 {
        i
    } else {
        up_step(up_steps(i, (n - 1) as nat))
    }
}

/// `n` downward steps from `i` inside a list of `len` entries.
pub open spec fn down_steps(i: nat, n: nat, len: nat) -> nat
    decreases n,
{
    if n == 0 {
        i
    } else {
        down_step(down_steps(i, (n - 1) as nat, len), len)
    }
}

/// The index of the highlighted entry.
///
/// Whenever the list shown is non-empty the index stays inside
/// `[0, len - 1]`; for an empty list it is pinned at 0 and navigation is
/// a no-op.
#[derive(Debug, Clone, Copy, PartialEq, Eq)]
pub struct Selection {
    pub index: usize,
}

impl Selection {
    /// A selection resting on the first entry.
    pub fn new() -> (s: Selection)
        ensures
            s.index == 0,
    {
        Selection { index: 0 }
    }

    /// One step towards the top of the list, floored at 0.
    pub fn move_up(&mut self)
        ensures
            final(self).index == up_step(old(self).index as nat),
            final(self).index <= old(self).index,
    {
        if self.index > 0 {
            self.index = self.index - 1;
        }
    }

    /// One step towards the bottom of a list of `list_len` entries,
    /// capped at `list_len - 1`. Must not be invoked on an empty list.
    pub fn move_down(&mut self, list_len: usize)
        requires
            list_len > 0,
        ensures
            final(self).index == down_step(old(self).index as nat, list_len as nat),
            final(self).index < list_len,
    {
        if self.index < list_len - 1 {
            self.index = self.index + 1;
        } else {
            self.index = list_len - 1;
        }
    }

    /// The entry the marker rests on.
    pub fn current<'a>(&self, list: &'a NetworkList) -> (s: &'a String)
        requires
            self.index < list.spec_len(),
        ensures
            s@ == list.ssids.deep_view()[self.index as int],
    {
        proof {
            assert(list.ssids.deep_view()[self.index as int] == list.ssids@[self.index as int]@);
        }
        &list.ssids[self.index]
    }
}

/// An upward step never leaves `[0, len - 1]`: it never goes below 0 and
/// never moves away from the list.
pub proof fn lemma_move_up_stays_in_range(i: nat, len: nat)
    requires
        i < len,
    ensures
        up_step(i) < len,
        up_step(i) >= 0,
{
}

/// Repeated upward steps converge to 0: after at least `i` of them the
/// index is exactly 0.
pub proof fn lemma_move_up_converges(i: nat, n: nat)
    requires
        n >= i,
    ensures
        up_steps(i, n) == 0,
    decreases n,
{
    if n > 0 {
        if n - 1 >= i {
            lemma_move_up_converges(i, (n - 1) as nat);
        } else {
            lemma_up_steps_descend(i, (n - 1) as nat);
        }
    }
}

/// After `n` upward steps the index has dropped by `n`, until it hits 0.
proof fn lemma_up_steps_descend(i: nat, n: nat)
    requires
        n <= i,
    ensures
        up_steps(i, n) == i - n,
    decreases n,
{
    if n > 0 {
        lemma_up_steps_descend(i, (n - 1) as nat);
    }
}

/// A downward step inside a non-empty list of `len` entries never
/// produces an index at or beyond `len`.
pub proof fn lemma_move_down_stays_in_range(i: nat, len: nat)
    requires
        len > 0,
    ensures
        down_step(i, len) < len,
{
}

/// Repeated downward steps converge to the last entry: starting anywhere
/// inside a non-empty list of `len` entries, after at least `len - 1`
/// steps the index is exactly `len - 1`.
pub proof fn lemma_move_down_converges(i: nat, n: nat, len: nat)
    requires
        len > 0,
        i < len,
        n >= len - 1,
    ensures
        down_steps(i, n, len) == len - 1,
{
    lemma_down_steps_exact(i, n, len);
}

/// After `n` downward steps the index has risen by exactly `n`, capped
/// at the last entry.
proof fn lemma_down_steps_exact(i: nat, n: nat, len: nat)
    requires
        len > 0,
        i < len,
    ensures
        down_steps(i, n, len) == if i + n <= len - 1 {
            i + n
        } else {
            (len - 1) as nat
        },
    decreases n,
{
    if n > 0 {
        lemma_down_steps_exact(i, (n - 1) as nat, len);
    }
}

} // verus!
