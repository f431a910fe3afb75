//! The store as mathematics: a sequence of ticket views in storage order.
//!
//! Lookup is by identity and the first match wins. Nothing keeps two tickets
//! from sharing an identity, so every function here is defined on sequences
//! with repeated identities too.

use vstd::prelude::*;

use crate::ticket::TicketView;

verus! {

/// Some ticket of `s` has the identity `id`.
pub open spec fn has_id(s: Seq<TicketView>, id: u8) -> bool {
    exists|i: int| 0 <= i < s.len() && (#[trigger] s[i]).id == id
}

/// `i` is the position of the first ticket of `s` whose identity is `id`.
pub open spec fn is_first(s: Seq<TicketView>, id: u8, i: int) -> bool {
    &&& 0 <= i < s.len()
    &&& s[i].id == id
    &&& forall|j: int| 0 <= j < i ==> (#[trigger] s[j]).id != id
}

/// The position of the first ticket of `s` whose identity is `id`, or
/// `s.len()` where there is none.
pub open spec fn first_position(s: Seq<TicketView>, id: u8) -> int
    decreases s.len(),
{
    if s.len() == 0 || s[0].id == id {
        0
    } else {
        1 + first_position(s.drop_first(), id)
    }
}

/// The ticket that a read of `id` finds.
pub open spec fn lookup(s: Seq<TicketView>, id: u8) -> Option<TicketView> {
    if has_id(s, id) {
        Some(s[first_position(s, id)])
    } else {
        None
    }
}

/// The store after an update of `id` to `t`: the first ticket with that
/// identity gives way to `t`, and a store without one stays as it is.
pub open spec fn replaced(s: Seq<TicketView>, id: u8, t: TicketView) -> Seq<TicketView> {
    if has_id(s, id) {
        s.update(first_position(s, id), t)
    } else {
        s
    }
}

/// The store after a delete of `id`: the first ticket with that identity
/// leaves and the others keep their order; a store without one stays as it is.
pub open spec fn removed(s: Seq<TicketView>, id: u8) -> Seq<TicketView> {
    if has_id(s, id) {
        s.remove(first_position(s, id))
    } else {
        s
    }
}

/// At most one ticket of `s` has the identity `id`.
pub open spec fn at_most_one(s: Seq<TicketView>, id: u8) -> bool {
    forall|i: int, j: int|
        0 <= i < s.len() && 0 <= j < s.len() && (#[trigger] s[i]).id == id && (#[trigger] s[j]).id
            == id ==> i == j
}

/// No two tickets of `s` share an identity.
pub open spec fn distinct_ids(s: Seq<TicketView>) -> bool {
    forall|i: int, j: int|
        0 <= i < j < s.len() ==> (#[trigger] s[i]).id != (#[trigger] s[j]).id
}

/// `first_position` stays within `0..=s.len()`, reaches `s.len()` exactly
/// where no ticket has the identity, and otherwise names the first match.
pub proof fn lemma_first_position(s: Seq<TicketView>, id: u8)
    ensures
        0 <= first_position(s, id) <= s.len(),
        has_id(s, id) <==> first_position(s, id) < s.len(),
        has_id(s, id) ==> is_first(s, id, first_position(s, id)),
    decreases s.len(),
{
    if s.len() == 0 || s[0].id == id {
    } else {
        let rest = s.drop_first();
        lemma_first_position(rest, id);
        let p = first_position(rest, id);
        assert forall|j: int| 0 <= j < 1 + p implies (#[trigger] s[j]).id != id by {
            if j > 0 {
                assert(rest[j - 1] == s[j]);
            }
        }
        if has_id(s, id) {
            let i = choose|i: int| 0 <= i < s.len() && (#[trigger] s[i]).id == id;
            assert(rest[i - 1].id == id);
        }
    }
}

/// The first match is unique: a position that satisfies `is_first` is the one
/// that `first_position` computes.
pub proof fn lemma_first_is(s: Seq<TicketView>, id: u8, i: int)
    requires
        is_first(s, id, i),
    ensures
        has_id(s, id),
        first_position(s, id) == i,
{
    lemma_first_position(s, id);
}

} // verus!
