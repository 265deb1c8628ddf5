//! Most-recent-first selection: orders decoded samples by timestamp,
//! newest first, and keeps at most the requested number.

use vstd::multiset::Multiset;
use vstd::prelude::*;

use crate::state::EmotionalState;

verus! {

broadcast use
    vstd::seq_lib::group_to_multiset_ensures,
    vstd::multiset::group_multiset_axioms,
;

/// The number of entries a limited query yields: `limit` of them, or all of
/// them where fewer than `limit` are stored.
pub open spec fn capped(limit: int, n: int) -> int {
    if limit <= n {
        limit
    } else {
        n
    }
}

/// Newest first: timestamps never increase along the sequence.
pub open spec fn sorted_recent_first(s: Seq<EmotionalState>) -> bool {
    forall|i: int, j: int| 0 <= i <= j < s.len() ==> s[j].timestamp <= s[i].timestamp
}

/// How a history reply `out` relates to the stored samples `all`: `out` is
/// the first `capped(limit, all.len())` entries of some most-recent-first
/// arrangement of exactly the samples of `all`.
pub open spec fn recent_selection(
    all: Seq<EmotionalState>,
    limit: int,
    out: Seq<EmotionalState>,
) -> bool {
    exists|full: Seq<EmotionalState>|
        #![auto]
        {
            &&& full.to_multiset() == all.to_multiset()
            &&& sorted_recent_first(full)
            &&& out == full.take(capped(limit, all.len() as int))
        }
}

/// Orders the given samples newest first and keeps at most `limit` of them.
pub fn select_recent(states: Vec<EmotionalState>, limit: usize) -> (out: Vec<EmotionalState>)
    ensures
        recent_selection(states@, limit as int, out@),
        out@.len() == capped(limit as int, states@.len() as int),
        sorted_recent_first(out@),
{
    let ghost all = states@;
    let mut rest = states;
    let mut sorted: Vec<EmotionalState> = Vec::new();
    while rest.len() > 0
        invariant
            sorted@.to_multiset().add(rest@.to_multiset()) == all.to_multiset(),
            sorted@.len() + rest@.len() == all.len(),
            sorted_recent_first(sorted@),
            forall|i: int, j: int|
                0 <= i < sorted@.len() && 0 <= j < rest@.len() ==> rest@[j].timestamp
                    <= sorted@[i].timestamp,
        decreases rest@.len(),
    {
        let ghost rest0 = rest@;
        let mut best: usize = 0;
        let mut k: usize = 1;
        while k < rest.len()
            invariant
                rest@ == rest0,
                rest@.len() > 0,
                best < k,
                k <= rest@.len(),
                forall|i: int| 0 <= i < k ==> rest@[i].timestamp <= rest@[best as int].timestamp,
            decreases rest@.len() - k,
        {
            if rest[k].timestamp > rest[best].timestamp {
                best = k;
            }
            k += 1;
        }
        let x = rest.remove(best);
        sorted.push(x);
        proof {
            assert(rest0.contains(x));
            assert(rest0.to_multiset().count(x) > 0);
            assert(sorted@.to_multiset().add(rest@.to_multiset()) =~= all.to_multiset());
        }
    }
    proof {
        broadcast use vstd::multiset::lemma_multiset_empty_len;

        assert(rest@.to_multiset().len() == 0);
        assert(rest@.to_multiset() =~= Multiset::<EmotionalState>::empty());
        assert(sorted@.to_multiset() =~= all.to_multiset());
    }
    let ghost full = sorted@;
    if limit < sorted.len() {
        sorted.truncate(limit);
    }
    proof {
        assert(sorted@ =~= full.take(capped(limit as int, all.len() as int)));
        assert(recent_selection(all, limit as int, sorted@));
    }
    sorted
}

} // verus!
