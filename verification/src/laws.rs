//! The store's cross-cutting guarantees, each stated over the same spec
//! functions the operations' contracts use, and proved once and for all.

use vstd::multiset::Multiset;
use vstd::prelude::*;

use crate::log::appended;
use crate::log::decoded_states;
use crate::log::LogRow;
use crate::recent::capped;
use crate::recent::recent_selection;
use crate::recent::sorted_recent_first;
use crate::state::default_state;
use crate::state::EmotionalState;
use crate::store::Store;

verus! {

broadcast use
    vstd::seq_lib::group_to_multiset_ensures,
    vstd::multiset::group_multiset_axioms,
;

/// Default before first write: a store whose cache still holds what
/// initialization placed there serves the documented default values — not
/// an error — on a read of the current state.
pub proof fn default_before_first_write(store: Store, read: EmotionalState)
    requires
        store.current() == default_state(
            store.current().timestamp,
        ),  // what Cache::initialize ensures, carried through Store::new
        read == store.current(),  // what get_emotional_state ensures of its result
    ensures
        read.focus == 500 && read.stress == 300 && read.confusion == 200,
        read.flow == 400 && read.valence == 0 && read.arousal == 500,
        read.context is None,
{
}

/// Write-then-read coherence: once an update has placed the sample `s` in
/// the store — which `update_emotional_state` guarantees whether or not the
/// durable append succeeded — a read of the current state returns `s`.
pub proof fn write_then_read_coherence(
    post: Store,
    s: EmotionalState,
    read: EmotionalState,
)
    requires
        post.current() == s,  // what update_emotional_state ensures of the store
        read == post.current(),  // what get_emotional_state ensures of its result
    ensures
        read == s,
{
}

/// History limits: a query returns `limit` samples, or all of them where
/// fewer are stored; a limit of zero returns nothing; a limit at or above
/// the stored count returns exactly the stored samples; and nothing comes
/// back that is not stored.
pub proof fn history_limit_respected(
    stored: Seq<EmotionalState>,
    limit: int,
    out: Seq<EmotionalState>,
)
    requires
        recent_selection(stored, limit, out),
        0 <= limit,
    ensures
        out.len() == capped(limit, stored.len() as int),
        limit == 0 ==> out == Seq::<EmotionalState>::empty(),
        limit >= stored.len() ==> out.to_multiset() == stored.to_multiset(),
        forall|x: EmotionalState|
            #[trigger] out.to_multiset().count(x) <= stored.to_multiset().count(x),
{
    let full = choose|full: Seq<EmotionalState>|
        #![auto]
        {
            &&& full.to_multiset() == stored.to_multiset()
            &&& sorted_recent_first(full)
            &&& out == full.take(capped(limit, stored.len() as int))
        };
    assert(full.len() == full.to_multiset().len());
    assert(stored.len() == stored.to_multiset().len());
    let cap = capped(limit, stored.len() as int);
    if limit == 0 {
        assert(out =~= Seq::<EmotionalState>::empty());
    }
    if limit >= stored.len() {
        assert(out =~= full);
    }
    assert forall|x: EmotionalState|
        #[trigger] out.to_multiset().count(x) <= stored.to_multiset().count(x) by {
        assert(full =~= full.take(cap) + full.skip(cap));
        vstd::seq_lib::lemma_multiset_commutative(full.take(cap), full.skip(cap));
    }
}

/// History recency: a limited query comes back newest first, and no omitted
/// sample is newer than a returned one — what is returned really is the most
/// recent of what is stored.
pub proof fn history_returns_most_recent(
    stored: Seq<EmotionalState>,
    limit: int,
    out: Seq<EmotionalState>,
)
    requires
        recent_selection(stored, limit, out),
        0 <= limit,
    ensures
        sorted_recent_first(out),
        forall|x: EmotionalState|
            #[trigger] stored.to_multiset().count(x) > out.to_multiset().count(x)
                ==> forall|i: int|
                0 <= i < out.len() ==> x.timestamp <= #[trigger] out[i].timestamp,
{
    let full = choose|full: Seq<EmotionalState>|
        #![auto]
        {
            &&& full.to_multiset() == stored.to_multiset()
            &&& sorted_recent_first(full)
            &&& out == full.take(capped(limit, stored.len() as int))
        };
    assert(full.len() == full.to_multiset().len());
    assert(stored.len() == stored.to_multiset().len());
    let cap = capped(limit, stored.len() as int);
    let omitted = full.skip(cap);
    assert(full =~= full.take(cap) + omitted);
    vstd::seq_lib::lemma_multiset_commutative(full.take(cap), omitted);
    assert forall|x: EmotionalState|
        #[trigger] stored.to_multiset().count(x) > out.to_multiset().count(x) implies (forall|
        i: int,
    |
        0 <= i < out.len() ==> x.timestamp <= #[trigger] out[i].timestamp) by {
        assert(omitted.to_multiset().count(x) > 0);
        assert(omitted.contains(x));
        let j = choose|j: int| 0 <= j < omitted.len() && omitted[j] == x;
        assert(full[cap + j] == x);
        assert forall|i: int| 0 <= i < out.len() implies x.timestamp
            <= #[trigger] out[i].timestamp by {
            assert(out[i] == full[i]);
        }
    }
}

/// History ordering: when exactly three samples with strictly increasing
/// timestamps are stored — whatever order they were inserted in — a query
/// for three returns them newest first.
pub proof fn history_ordering(
    stored: Seq<EmotionalState>,
    out: Seq<EmotionalState>,
    a: EmotionalState,
    b: EmotionalState,
    c: EmotionalState,
)
    requires
        stored.to_multiset() == seq![a, b, c].to_multiset(),
        a.timestamp < b.timestamp,
        b.timestamp < c.timestamp,
        recent_selection(stored, 3, out),
    ensures
        out == seq![c, b, a],
{
    let full = choose|full: Seq<EmotionalState>|
        #![auto]
        {
            &&& full.to_multiset() == stored.to_multiset()
            &&& sorted_recent_first(full)
            &&& out == full.take(capped(3, stored.len() as int))
        };
    let m = seq![a, b, c].to_multiset();
    assert(seq![a, b, c] =~= Seq::<EmotionalState>::empty().push(a).push(b).push(c));
    assert(m =~= Multiset::<EmotionalState>::empty().insert(a).insert(b).insert(c));
    assert(full.len() == full.to_multiset().len());
    assert(stored.len() == stored.to_multiset().len());
    assert(seq![a, b, c].len() == m.len());
    assert(full.len() == 3 && stored.len() == 3);
    assert(full.to_multiset().count(a) > 0 && full.to_multiset().count(b) > 0
        && full.to_multiset().count(c) > 0);
    assert(full.contains(a) && full.contains(b) && full.contains(c));
    let ia = choose|i: int| 0 <= i < full.len() && full[i] == a;
    let ib = choose|i: int| 0 <= i < full.len() && full[i] == b;
    let ic = choose|i: int| 0 <= i < full.len() && full[i] == c;
    assert(ia != ib && ia != ic && ib != ic);
    assert(full[ic].timestamp > full[ib].timestamp && full[ib].timestamp > full[ia].timestamp);
    assert(ic < ib && ib < ia);
    assert(ic == 0 && ib == 1 && ia == 2);
    assert(out =~= seq![c, b, a]);
}

/// Round trip through storage: whatever instant a later query runs at, the
/// rows left by an append decode to every prior sample, unchanged and in
/// place, followed by the appended sample itself.
pub proof fn append_decodes_to_push(
    old_rows: Seq<LogRow>,
    new_rows: Seq<LogRow>,
    s: EmotionalState,
    id: i64,
    now: i64,
)
    requires
        appended(old_rows, new_rows, s, id),
    ensures
        decoded_states(new_rows, now) =~= decoded_states(old_rows, now).push(s),
{
}

/// Identifiers stay strictly increasing across the rows as each append adds
/// its row at the end with a fresh, larger identifier.
pub open spec fn ids_strictly_increasing(rows: Seq<LogRow>) -> bool {
    forall|i: int, j: int| 0 <= i < j < rows.len() ==> rows[i].id < rows[j].id
}

/// Append uniqueness, first half: an append keeps the identifiers strictly
/// increasing, since the new row's identifier exceeds every earlier one.
pub proof fn append_keeps_ids_increasing(
    old_rows: Seq<LogRow>,
    new_rows: Seq<LogRow>,
    s: EmotionalState,
    id: i64,
)
    requires
        ids_strictly_increasing(old_rows),
        appended(old_rows, new_rows, s, id),
    ensures
        ids_strictly_increasing(new_rows),
{
    assert forall|i: int, j: int| 0 <= i < j < new_rows.len() implies new_rows[i].id
        < new_rows[j].id by {
        if j == new_rows.len() - 1 {
            assert(new_rows[i] == old_rows[i]);
            assert(new_rows[j] == new_rows.last());
        }
    }
}

/// Append uniqueness, second half: strictly increasing identifiers are
/// pairwise distinct, so no two appended rows ever share one.
pub proof fn increasing_ids_distinct(rows: Seq<LogRow>)
    requires
        ids_strictly_increasing(rows),
    ensures
        forall|i: int, j: int|
            0 <= i < rows.len() && 0 <= j < rows.len() && i != j ==> rows[i].id != rows[j].id,
{
}

/// Immutability: an append leaves every previously stored row in place,
/// byte for byte; records are never mutated or removed.
pub proof fn append_preserves_prior_records(
    old_rows: Seq<LogRow>,
    new_rows: Seq<LogRow>,
    s: EmotionalState,
    id: i64,
)
    requires
        appended(old_rows, new_rows, s, id),
    ensures
        new_rows.len() == old_rows.len() + 1,
        forall|i: int| 0 <= i < old_rows.len() ==> new_rows[i] == old_rows[i],
{
}

} // verus!
