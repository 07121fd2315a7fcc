//! Why the memory lookup balances.
//!
//! The first-touch table hands one tuple per address to the lookup, the
//! last-touch table takes one per address from it, and every access in
//! between takes the tuple that describes the address before the access and
//! hands over the tuple that describes it after. This module proves that
//! whenever every access sees what the most recent access left, and the
//! last-touch map records what the last access left, both sides of the lookup
//! hold the same tuples equally often.

use crate::air::Block;
use crate::field::felt_of;
use crate::field::Felt;
use crate::memory::finalize_cols;
use crate::memory::init_cols;
use crate::memory::MemoryChipKind;
use crate::memory::MemoryGlobalChip;
use crate::memory::MemoryInitCols;
use crate::memory::NUM_MEMORY_INIT_COLS;
use crate::runtime::ExecutionRecord;
use crate::runtime::MemoryRecord;
use crate::utils::repeat;
use vstd::prelude::*;

verus! {

/// The tuple that an access takes from the lookup: when the address was last
/// accessed, and what it held then.
pub open spec fn access_receives(a: MemoryRecord) -> Seq<Felt> {
    seq![
        a.prev_timestamp,
        a.addr,
        a.prev_value.0[0],
        a.prev_value.0[1],
        a.prev_value.0[2],
        a.prev_value.0[3],
    ]
}

/// The tuple that an access hands to the lookup: when it happened, and what
/// the address holds after it.
pub open spec fn access_sends(a: MemoryRecord) -> Seq<Felt> {
    seq![a.timestamp, a.addr, a.value.0[0], a.value.0[1], a.value.0[2], a.value.0[3]]
}

/// The tuples that the first-touch table hands to the lookup, one per entry
/// of the map.
pub open spec fn init_sends(first: Seq<(Felt, Block<Felt>)>) -> Seq<Seq<Felt>> {
    Seq::new(first.len(), |i: int| init_cols(first[i]).tuple())
}

/// The tuples that the last-touch table takes from the lookup, one per entry
/// of the map.
pub open spec fn finalize_receives(last: Seq<(Felt, Felt, Block<Felt>)>) -> Seq<Seq<Felt>> {
    Seq::new(last.len(), |i: int| finalize_cols(last[i]).tuple())
}

/// The tuples that a history of accesses hands to the lookup.
pub open spec fn history_sends(accesses: Seq<MemoryRecord>) -> Seq<Seq<Felt>> {
    Seq::new(accesses.len(), |i: int| access_sends(accesses[i]))
}

/// The tuples that a history of accesses takes from the lookup.
pub open spec fn history_receives(accesses: Seq<MemoryRecord>) -> Seq<Seq<Felt>> {
    Seq::new(accesses.len(), |i: int| access_receives(accesses[i]))
}

/// The memory after a history of accesses. The memory holds one tuple per
/// address; `slots[i]` is the position of the address of access `i`.
pub open spec fn replay(state: Seq<Seq<Felt>>, accesses: Seq<MemoryRecord>, slots: Seq<int>) -> Seq<
    Seq<Felt>,
>
    decreases accesses.len(),
{
    if accesses.len() == 0 || slots.len() == 0 {
        state
    } else {
        replay(
            state.update(slots[0], access_sends(accesses[0])),
            accesses.drop_first(),
            slots.drop_first(),
        )
    }
}

/// Whether every access of a history sees what the memory holds for its
/// address at that time.
pub open spec fn consistent(state: Seq<Seq<Felt>>, accesses: Seq<MemoryRecord>, slots: Seq<int>) -> bool
    decreases accesses.len(),
{
    if accesses.len() == 0 {
        slots.len() == 0
    } else {
        &&& slots.len() == accesses.len()
        &&& 0 <= slots[0] < state.len()
        &&& state[slots[0]] == access_receives(accesses[0])
        &&& consistent(
            state.update(slots[0], access_sends(accesses[0])),
            accesses.drop_first(),
            slots.drop_first(),
        )
    }
}

proof fn lemma_cons_multiset(x: Seq<Felt>, rest: Seq<Seq<Felt>>)
    ensures
        (seq![x] + rest).to_multiset() == rest.to_multiset().insert(x),
{
    vstd::seq_lib::to_multiset_insert(rest, 0, x);
    assert(rest.insert(0, x) =~= seq![x] + rest);
}

proof fn lemma_replay_balances(state: Seq<Seq<Felt>>, accesses: Seq<MemoryRecord>, slots: Seq<int>)
    requires
        consistent(state, accesses, slots),
    ensures
        state.to_multiset().add(history_sends(accesses).to_multiset()) == replay(
            state,
            accesses,
            slots,
        ).to_multiset().add(history_receives(accesses).to_multiset()),
    decreases accesses.len(),
{
    broadcast use vstd::multiset::group_multiset_axioms;

    if accesses.len() == 0 {
        assert(history_sends(accesses) =~= history_receives(accesses));
    } else {
        let a = accesses[0];
        let rest = accesses.drop_first();
        let sent = access_sends(a);
        let received = access_receives(a);
        let next = state.update(slots[0], sent);
        lemma_replay_balances(next, rest, slots.drop_first());
        vstd::seq_lib::to_multiset_update(state, slots[0], sent);
        assert(history_sends(accesses) =~= seq![sent] + history_sends(rest));
        assert(history_receives(accesses) =~= seq![received] + history_receives(rest));
        lemma_cons_multiset(sent, history_sends(rest));
        lemma_cons_multiset(received, history_receives(rest));
        let before = state.to_multiset();
        let after = next.to_multiset();
        let end = replay(state, accesses, slots).to_multiset();
        let hs = history_sends(rest).to_multiset();
        let hr = history_receives(rest).to_multiset();
        assert(after == before.insert(sent).remove(received));
        assert(after.add(hs) == end.add(hr));
        vstd::seq_lib::to_multiset_contains(state, received);
        assert(state.contains(received));
        assert(before.count(received) > 0);
        assert forall|v: Seq<Felt>|
            before.add(hs.insert(sent)).count(v) == end.add(hr.insert(received)).count(v) by {
            assert(after.add(hs).count(v) == end.add(hr).count(v));
            assert(after.count(v) + hs.count(v) == end.count(v) + hr.count(v));
            assert(before.insert(sent).count(received) > 0);
            assert(after.count(v) == before.insert(sent).count(v) - (if v == received {
                1int
            } else {
                0int
            }));
        }
        assert(before.add(hs.insert(sent)) =~= end.add(hr.insert(received)));
    }
}

/// The memory lookup balances. Let the memory start as the first-touch map
/// says, let every access see what the memory holds for its address and
/// leave its own value there, and let the last-touch map list what the
/// memory holds in the end, in any order. Then the tuples handed over by the
/// first-touch table and by the accesses are, counted with their number,
/// the tuples taken by the last-touch table and by the accesses.
pub proof fn lemma_memory_lookup_balances(
    first: Seq<(Felt, Block<Felt>)>,
    last: Seq<(Felt, Felt, Block<Felt>)>,
    accesses: Seq<MemoryRecord>,
    slots: Seq<int>,
)
    requires
        consistent(init_sends(first), accesses, slots),
        finalize_receives(last).to_multiset() == replay(
            init_sends(first),
            accesses,
            slots,
        ).to_multiset(),
    ensures
        init_sends(first).to_multiset().add(history_sends(accesses).to_multiset())
            == finalize_receives(last).to_multiset().add(history_receives(accesses).to_multiset()),
{
    lemma_replay_balances(init_sends(first), accesses, slots);
}

/// With no access in between, the two tables balance on their own exactly
/// when the last-touch map lists the first-touch values at time zero.
pub proof fn lemma_untouched_memory_balances(
    first: Seq<(Felt, Block<Felt>)>,
    last: Seq<(Felt, Felt, Block<Felt>)>,
)
    requires
        last.len() == first.len(),
        forall|i: int|
            0 <= i < first.len() ==> #[trigger] last[i] == (first[i].0, felt_of(0), first[i].1),
    ensures
        init_sends(first).to_multiset() == finalize_receives(last).to_multiset(),
{
    assert(init_sends(first) =~= finalize_receives(last));
}

/// What row `r` of a memory table contributes to the lookup: a real row its
/// entry's tuple, once; a padding row the zero tuple, not at all.
pub proof fn lemma_row_lookup(chip: MemoryGlobalChip, input: ExecutionRecord, r: int)
    requires
        0 <= r,
    ensures
        chip.row_spec(input, r).len() == NUM_MEMORY_INIT_COLS,
        r < chip.num_real_rows(input) ==> MemoryInitCols::of_row(chip.row_spec(input, r)).is_real
            == felt_of(1),
        r < chip.num_real_rows(input) && chip.kind == MemoryChipKind::Init ==> MemoryInitCols::of_row(
            chip.row_spec(input, r),
        ).tuple() == init_sends(input.first_memory_record@)[r],
        r < chip.num_real_rows(input) && chip.kind == MemoryChipKind::Finalize
            ==> MemoryInitCols::of_row(chip.row_spec(input, r)).tuple() == finalize_receives(
            input.last_memory_record@,
        )[r],
        r >= chip.num_real_rows(input) ==> MemoryInitCols::of_row(chip.row_spec(input, r)).is_real
            == felt_of(0),
        r >= chip.num_real_rows(input) ==> MemoryInitCols::of_row(chip.row_spec(input, r)).tuple()
            == repeat(felt_of(0), 6),
{
    let cols = MemoryInitCols::of_row(chip.row_spec(input, r));
    if r >= chip.num_real_rows(input) {
        assert(cols.tuple() =~= repeat(felt_of(0), 6));
    } else {
        match chip.kind {
            MemoryChipKind::Init => {
                assert(cols.tuple() =~= init_cols(input.first_memory_record@[r]).tuple());
            },
            MemoryChipKind::Finalize => {
                assert(cols.tuple() =~= finalize_cols(input.last_memory_record@[r]).tuple());
            },
        }
    }
}

} // verus!
