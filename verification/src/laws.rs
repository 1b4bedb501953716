//! Properties that hold of the cursor and the scroll window across any
//! sequence of operations, stated and proved over the same spec
//! functions the executable contracts use.

use vstd::prelude::*;

use crate::state::{fresh_entry, next_idx, prev_idx, refreshed_with, Sebulba};
use crate::viewport::{max_offset, spec_scroll_down, spec_scroll_up};

verus! {

/// The cursor after `k` successive moves down from index `i` in a
/// catalog of length `len`.
pub open spec fn next_many(i: nat, len: nat, k: nat) -> nat
    decreases k,
{
    if k == 0 {
        i
    } else {
        next_idx(next_many(i, len, (k - 1) as nat), len)
    }
}

proof fn lemma_next_many_adds(i: nat, len: nat, k: nat)
    requires
        0 < len,
        i < len,
        k <= len,
    ensures
        next_many(i, len, k) == if i + k < len {
            i + k
        } else {
            (i + k - len) as nat
        },
    decreases k,
{
    if k > 0 {
        lemma_next_many_adds(i, len, (k - 1) as nat);
    }
}

/// Cycle law: in a non-empty catalog of length `len`, repeating the
/// move-down step exactly `len` times from any valid index returns the
/// cursor to where it started.
pub proof fn lemma_next_cycle(i: nat, len: nat)
    requires
        0 < len,
        i < len,
    ensures
        next_many(i, len, len) == i,
{
    lemma_next_many_adds(i, len, len);
}

/// Inverse law: the move-up step exactly undoes the move-down step on
/// every valid index.
pub proof fn lemma_prev_inverts_next(i: nat, len: nat)
    requires
        0 < len,
        i < len,
    ensures
        prev_idx(next_idx(i, len), len) == i,
{
}

/// The offset after a sequence of scroll steps, applied left to right;
/// `true` is a scroll down, `false` a scroll up.
pub open spec fn scroll_many(off: nat, n: nat, vh: nat, cmds: Seq<bool>) -> nat
    decreases cmds.len(),
{
    if cmds.len() == 0 {
        off
    } else {
        let rest = scroll_many(off, n, vh, cmds.drop_last());
        if cmds.last() {
            spec_scroll_down(rest, n, vh)
        } else {
            spec_scroll_up(rest)
        }
    }
}

/// Scroll-window law: starting from any valid offset, every sequence of
/// scroll steps over content of `n` lines in a viewport of height `vh`
/// leaves the offset within `[0, max_offset(n, vh)]`.
pub proof fn lemma_scroll_window_invariant(off: nat, n: nat, vh: nat, cmds: Seq<bool>)
    requires
        off <= max_offset(n, vh),
    ensures
        scroll_many(off, n, vh, cmds) <= max_offset(n, vh),
    decreases cmds.len(),
{
    if cmds.len() > 0 {
        lemma_scroll_window_invariant(off, n, vh, cmds.drop_last());
    }
}

/// Refresh idempotence: two refreshes from the same stable listing
/// leave catalogs with identical entries in identical order, and the
/// cursor cleared both times.
pub proof fn lemma_refresh_idempotent(s1: Sebulba, s2: Sebulba, names: Seq<String>)
    requires
        refreshed_with(s1, names),
        refreshed_with(s2, names),
    ensures
        s1.selected_idx == s2.selected_idx,
        s1.all_containers@.len() == s2.all_containers@.len(),
        forall|i: int|
            0 <= i < s1.all_containers@.len() ==> (#[trigger] s1.all_containers@[i].name@
                == s2.all_containers@[i].name@ && s1.all_containers@[i].status
                == s2.all_containers@[i].status && s1.all_containers@[i].logs@
                == s2.all_containers@[i].logs@),
{
    assert forall|i: int|
        0 <= i < s1.all_containers@.len() implies (#[trigger] s1.all_containers@[i].name@
        == s2.all_containers@[i].name@ && s1.all_containers@[i].status
        == s2.all_containers@[i].status && s1.all_containers@[i].logs@
        == s2.all_containers@[i].logs@) by {
        assert(fresh_entry(s1.all_containers@[i], names[i]));
        assert(fresh_entry(s2.all_containers@[i], names[i]));
    }
}

} // verus!
