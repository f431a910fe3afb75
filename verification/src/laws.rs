//! What holds across operations, stated over the store's model.
//!
//! The store lets several tickets share an identity, and then only the first
//! of them is ever reached. Where a statement needs the identity to be held
//! once at most, it says so in its `requires`.

use vstd::prelude::*;

use crate::handlers::{
    after_update, error_reply, get_reply, remove_reply, ticket_reply, update_reply,
};
use crate::model::{
    at_most_one, distinct_ids, first_position, has_id, lemma_first_is, lemma_first_position,
    lookup, removed, replaced,
};
use crate::store::seed;
use crate::ticket::{id_mismatch, not_found, TicketView};

verus! {

/// After a create, the store holds an identity exactly if it held it before
/// or the new ticket brought it.
pub proof fn lemma_ids_after_create(s: Seq<TicketView>, t: TicketView, id: u8)
    ensures
        has_id(s.push(t), id) <==> has_id(s, id) || t.id == id,
{
    let grown = s.push(t);
    if has_id(s, id) {
        let i = choose|i: int| 0 <= i < s.len() && (#[trigger] s[i]).id == id;
        assert(grown[i].id == id);
    }
    if t.id == id {
        assert(grown[s.len() as int].id == id);
    }
    if has_id(grown, id) && t.id != id {
        let i = choose|i: int| 0 <= i < grown.len() && (#[trigger] grown[i]).id == id;
        assert(s[i].id == id);
    }
}

/// An update with a ticket that carries the identity it is filed under leaves
/// the identities of the store as they were, position by position.
pub proof fn lemma_ids_after_update(s: Seq<TicketView>, id: u8, t: TicketView, other: u8)
    requires
        t.id == id,
    ensures
        replaced(s, id, t).len() == s.len(),
        forall|i: int| 0 <= i < s.len() ==> (#[trigger] replaced(s, id, t)[i]).id == s[i].id,
        has_id(replaced(s, id, t), other) <==> has_id(s, other),
{
    lemma_first_position(s, id);
    let changed = replaced(s, id, t);
    if has_id(s, other) {
        let i = choose|i: int| 0 <= i < s.len() && (#[trigger] s[i]).id == other;
        assert(changed[i].id == other);
    }
    if has_id(changed, other) {
        let i = choose|i: int| 0 <= i < changed.len() && (#[trigger] changed[i]).id == other;
        assert(s[i].id == other);
    }
}

/// After a delete of `id`, the store holds another identity exactly if it
/// held it before, and holds `id` itself exactly if it held it more than
/// once.
pub proof fn lemma_ids_after_delete(s: Seq<TicketView>, id: u8, other: u8)
    ensures
        other != id ==> (has_id(removed(s, id), other) <==> has_id(s, other)),
        has_id(removed(s, id), id) <==> has_id(s, id) && !at_most_one(s, id),
{
    lemma_first_position(s, id);
    let shrunk = removed(s, id);
    let p = first_position(s, id);
    if has_id(s, id) {
        // A ticket at `i` in the shrunk store stood at `i`, in front of the
        // gap, or at `i + 1`, behind it.
        if has_id(s, other) && other != id {
            let i = choose|i: int| 0 <= i < s.len() && (#[trigger] s[i]).id == other;
            if i < p {
                assert(shrunk[i].id == other);
            } else {
                assert(shrunk[i - 1].id == other);
            }
        }
        if has_id(shrunk, other) {
            let i = choose|i: int| 0 <= i < shrunk.len() && (#[trigger] shrunk[i]).id == other;
            if i < p {
                assert(s[i].id == other);
            } else {
                assert(s[i + 1].id == other);
            }
        }
        if !at_most_one(s, id) {
            let (i, j) = choose|i: int, j: int|
                0 <= i < s.len() && 0 <= j < s.len() && (#[trigger] s[i]).id == id && (
                #[trigger] s[j]).id == id && i != j;
            let second = if i == p {
                j
            } else {
                i
            };
            assert(shrunk[second - 1].id == id);
        }
    }
}

/// Round trip: a ticket created under an identity that the store did not hold
/// is what a read of that identity finds, and what the read sends back.
pub proof fn lemma_create_then_get(s: Seq<TicketView>, t: TicketView)
    requires
        !has_id(s, t.id),
    ensures
        lookup(s.push(t), t.id) == Some(t),
        get_reply(s.push(t), t.id) == ticket_reply(t),
{
    let grown = s.push(t);
    assert forall|j: int| 0 <= j < s.len() implies (#[trigger] grown[j]).id != t.id by {
        assert(s[j].id != t.id);
    }
    lemma_first_is(grown, t.id, s.len() as int);
}

/// A create does not change what a read finds, unless it brings the identity
/// that is read into a store that did not hold it.
pub proof fn lemma_create_keeps_lookup(s: Seq<TicketView>, t: TicketView, id: u8)
    requires
        has_id(s, id) || t.id != id,
    ensures
        lookup(s.push(t), id) == lookup(s, id),
{
    lemma_ids_after_create(s, t, id);
    lemma_first_position(s, id);
    if has_id(s, id) {
        lemma_first_is(s.push(t), id, first_position(s, id));
    }
}

/// An update is what the next read of its identity finds.
pub proof fn lemma_update_then_get(s: Seq<TicketView>, id: u8, t: TicketView)
    requires
        has_id(s, id),
        t.id == id,
    ensures
        lookup(replaced(s, id, t), id) == Some(t),
        get_reply(replaced(s, id, t), id) == ticket_reply(t),
{
    lemma_first_position(s, id);
    lemma_first_is(replaced(s, id, t), id, first_position(s, id));
}

/// An update of one identity does not change what a read of another finds.
pub proof fn lemma_update_keeps_other_lookup(
    s: Seq<TicketView>,
    id: u8,
    t: TicketView,
    other: u8,
)
    requires
        t.id == id,
        other != id,
    ensures
        lookup(replaced(s, id, t), other) == lookup(s, other),
{
    lemma_ids_after_update(s, id, t, other);
    lemma_first_position(s, id);
    lemma_first_position(s, other);
    if has_id(s, other) {
        lemma_first_is(replaced(s, id, t), other, first_position(s, other));
    }
}

/// A delete of one identity does not change what a read of another finds.
pub proof fn lemma_delete_keeps_other_lookup(s: Seq<TicketView>, id: u8, other: u8)
    requires
        other != id,
    ensures
        lookup(removed(s, id), other) == lookup(s, other),
{
    lemma_ids_after_delete(s, id, other);
    lemma_first_position(s, id);
    lemma_first_position(s, other);
    if has_id(s, id) && has_id(s, other) {
        let p = first_position(s, id);
        let q = first_position(s, other);
        // The ticket that is read moves one place to the front exactly if
        // it stood behind the one that left.
        let q_shrunk = if q < p {
            q
        } else {
            q - 1
        };
        lemma_first_is(removed(s, id), other, q_shrunk);
    }
}

/// Delete, then read: once the only ticket with an identity is deleted, a
/// read of that identity finds nothing and sends the not-found error.
pub proof fn lemma_delete_then_get(s: Seq<TicketView>, id: u8)
    requires
        has_id(s, id),
        at_most_one(s, id),
    ensures
        lookup(removed(s, id), id) is None,
        get_reply(removed(s, id), id) == error_reply(not_found(id)),
{
    lemma_ids_after_delete(s, id, id);
}

/// The identity guard of the update: a body that names another identity than
/// the path gets the mismatch error for the identity of the path, and the
/// store stays as it was, whatever it holds.
pub proof fn lemma_update_guard(s: Seq<TicketView>, id: u8, t: TicketView)
    requires
        t.id != id,
    ensures
        update_reply(s, id, t) == error_reply(id_mismatch(id)),
        after_update(s, id, t) == s,
        id_mismatch(id).id == id,
{
}

/// An identity that the store does not hold: the read, the update with a
/// matching body and the delete all send the not-found error for that very
/// identity, and none of them changes the store.
pub proof fn lemma_absent_id(s: Seq<TicketView>, id: u8, t: TicketView)
    requires
        !has_id(s, id),
        t.id == id,
    ensures
        get_reply(s, id) == error_reply(not_found(id)),
        update_reply(s, id, t) == error_reply(not_found(id)),
        remove_reply(s, id) == error_reply(not_found(id)),
        after_update(s, id, t) == s,
        removed(s, id) == s,
        not_found(id).id == id,
{
}

/// The list shows a create: the new ticket is the last of the list, behind
/// the tickets that were there, which keep their places.
pub proof fn lemma_list_after_create(s: Seq<TicketView>, t: TicketView)
    ensures
        s.push(t).contains(t),
        s.push(t).last() == t,
        s.push(t).drop_last() == s,
{
    assert(s.push(t)[s.len() as int] == t);
    assert(s.push(t).drop_last() =~= s);
}

/// The list shows a delete: once the only ticket with an identity is deleted,
/// no ticket of the list has that identity.
pub proof fn lemma_list_after_delete(s: Seq<TicketView>, id: u8)
    requires
        at_most_one(s, id),
    ensures
        !has_id(removed(s, id), id),
{
    lemma_ids_after_delete(s, id, id);
}

/// Where no two tickets share an identity, each identity is held once at
/// most.
pub proof fn lemma_distinct_ids_at_most_one(s: Seq<TicketView>, id: u8)
    requires
        distinct_ids(s),
    ensures
        at_most_one(s, id),
{
}

/// The tickets that a fresh service starts with have distinct identities.
pub proof fn lemma_seed_distinct_ids()
    ensures
        distinct_ids(seed()),
{
}

/// A create under an identity that the store does not hold keeps the
/// identities distinct.
pub proof fn lemma_create_keeps_distinct_ids(s: Seq<TicketView>, t: TicketView)
    requires
        distinct_ids(s),
        !has_id(s, t.id),
    ensures
        distinct_ids(s.push(t)),
{
    let grown = s.push(t);
    assert forall|i: int, j: int| 0 <= i < j < grown.len() implies (#[trigger] grown[i]).id != (
    #[trigger] grown[j]).id by {
        if j < s.len() {
            assert(s[i].id != s[j].id);
        } else {
            assert(s[i].id != t.id);
        }
    }
}

/// An update with a ticket that carries the identity it is filed under keeps
/// the identities distinct.
pub proof fn lemma_update_keeps_distinct_ids(s: Seq<TicketView>, id: u8, t: TicketView)
    requires
        distinct_ids(s),
        t.id == id,
    ensures
        distinct_ids(replaced(s, id, t)),
{
    lemma_ids_after_update(s, id, t, id);
    let changed = replaced(s, id, t);
    assert forall|i: int, j: int| 0 <= i < j < changed.len() implies (#[trigger] changed[i]).id
        != (#[trigger] changed[j]).id by {
        assert(s[i].id != s[j].id);
    }
}

/// A delete keeps the identities distinct.
pub proof fn lemma_delete_keeps_distinct_ids(s: Seq<TicketView>, id: u8)
    requires
        distinct_ids(s),
    ensures
        distinct_ids(removed(s, id)),
{
    lemma_first_position(s, id);
    let shrunk = removed(s, id);
    let p = first_position(s, id);
    if has_id(s, id) {
        assert forall|i: int, j: int| 0 <= i < j < shrunk.len() implies (#[trigger] shrunk[i]).id
            != (#[trigger] shrunk[j]).id by {
            let was_i = if i < p {
                i
            } else {
                i + 1
            };
            let was_j = if j < p {
                j
            } else {
                j + 1
            };
            assert(s[was_i].id != s[was_j].id);
        }
    }
}

/// A request that can change the store.
pub enum Change {
    /// A create of the ticket.
    Create(TicketView),
    /// An update of the identity to the ticket, as the handler takes it: the
    /// ticket may name another identity, and is then turned away.
    Update(u8, TicketView),
    /// A delete of the identity.
    Delete(u8),
}

impl Change {
    /// The store after this request was handled.
    pub open spec fn apply(self, s: Seq<TicketView>) -> Seq<TicketView> {
        match self {
            Change::Create(t) => s.push(t),
            Change::Update(id, t) => after_update(s, id, t),
            Change::Delete(id) => removed(s, id),
        }
    }

    /// This request is a create under the identity `id`.
    pub open spec fn creates(self, id: u8) -> bool {
        self matches Change::Create(t) && t.id == id
    }

    /// This request is an update or a delete of the identity `id`.
    pub open spec fn rewrites(self, id: u8) -> bool {
        match self {
            Change::Create(_) => false,
            Change::Update(i, _) => i == id,
            Change::Delete(i) => i == id,
        }
    }
}

/// The store after the requests of `history` were handled one after the
/// other, the first of them on the store `s`.
pub open spec fn replayed(s: Seq<TicketView>, history: Seq<Change>) -> Seq<TicketView>
    decreases history.len(),
{
    if history.len() == 0 {
        s
    } else {
        history.last().apply(replayed(s, history.drop_last()))
    }
}

/// Round trip, over time: a ticket created under an identity that the store
/// did not hold is what a read of that identity finds after any run of
/// requests among which none updates or deletes that identity.
pub proof fn lemma_created_ticket_stays(s: Seq<TicketView>, t: TicketView, history: Seq<Change>)
    requires
        !has_id(s, t.id),
        forall|k: int| 0 <= k < history.len() ==> !(#[trigger] history[k]).rewrites(t.id),
    ensures
        lookup(replayed(s.push(t), history), t.id) == Some(t),
        get_reply(replayed(s.push(t), history), t.id) == ticket_reply(t),
    decreases history.len(),
{
    if history.len() == 0 {
        lemma_create_then_get(s, t);
    } else {
        let earlier = history.drop_last();
        assert forall|k: int| 0 <= k < earlier.len() implies !(#[trigger] earlier[k]).rewrites(
            t.id,
        ) by {
            assert(earlier[k] == history[k]);
        }
        lemma_created_ticket_stays(s, t, earlier);
        let before = replayed(s.push(t), earlier);
        assert(!history[history.len() - 1].rewrites(t.id));
        match history.last() {
            Change::Create(new) => {
                lemma_create_keeps_lookup(before, new, t.id);
            },
            Change::Update(id, new) => {
                if new.id == id {
                    lemma_update_keeps_other_lookup(before, id, new, t.id);
                }
            },
            Change::Delete(id) => {
                lemma_delete_keeps_other_lookup(before, id, t.id);
            },
        }
    }
}

/// An identity that the store does not hold stays unknown through any run of
/// requests among which none creates a ticket under it.
pub proof fn lemma_unknown_id_stays_unknown(s: Seq<TicketView>, id: u8, history: Seq<Change>)
    requires
        !has_id(s, id),
        forall|k: int| 0 <= k < history.len() ==> !(#[trigger] history[k]).creates(id),
    ensures
        !has_id(replayed(s, history), id),
        get_reply(replayed(s, history), id) == error_reply(not_found(id)),
    decreases history.len(),
{
    if history.len() > 0 {
        let earlier = history.drop_last();
        assert forall|k: int| 0 <= k < earlier.len() implies !(#[trigger] earlier[k]).creates(
            id,
        ) by {
            assert(earlier[k] == history[k]);
        }
        lemma_unknown_id_stays_unknown(s, id, earlier);
        let before = replayed(s, earlier);
        assert(!history[history.len() - 1].creates(id));
        match history.last() {
            Change::Create(new) => {
                lemma_ids_after_create(before, new, id);
            },
            Change::Update(i, new) => {
                if new.id == i {
                    lemma_ids_after_update(before, i, new, id);
                }
            },
            Change::Delete(i) => {
                lemma_ids_after_delete(before, i, id);
            },
        }
    }
}

/// An identity whose only ticket was deleted stays unknown through any run of
/// requests among which none creates a ticket under it.
pub proof fn lemma_deleted_id_stays_unknown(s: Seq<TicketView>, id: u8, history: Seq<Change>)
    requires
        at_most_one(s, id),
        forall|k: int| 0 <= k < history.len() ==> !(#[trigger] history[k]).creates(id),
    ensures
        !has_id(replayed(removed(s, id), history), id),
        get_reply(replayed(removed(s, id), history), id) == error_reply(not_found(id)),
{
    lemma_list_after_delete(s, id);
    lemma_unknown_id_stays_unknown(removed(s, id), id, history);
}

/// Every create of `history`, replayed from the store `s`, comes under an
/// identity that the store does not hold at that moment.
pub open spec fn creates_fresh(s: Seq<TicketView>, history: Seq<Change>) -> bool {
    forall|k: int|
        0 <= k < history.len() ==> (#[trigger] history[k] matches Change::Create(t) ==> !has_id(
            replayed(s, history.take(k)),
            t.id,
        ))
}

/// Identities stay distinct through any run of requests in which every create
/// comes under an identity that the store does not hold at that moment.
pub proof fn lemma_distinct_ids_stay(s: Seq<TicketView>, history: Seq<Change>)
    requires
        distinct_ids(s),
        creates_fresh(s, history),
    ensures
        distinct_ids(replayed(s, history)),
    decreases history.len(),
{
    if history.len() > 0 {
        let earlier = history.drop_last();
        assert(creates_fresh(s, earlier)) by {
            assert forall|k: int| 0 <= k < earlier.len() implies earlier.take(k) == history.take(
                k,
            ) && #[trigger] earlier[k] == history[k] by {
                assert(earlier.take(k) =~= history.take(k));
            }
        }
        lemma_distinct_ids_stay(s, earlier);
        let before = replayed(s, earlier);
        let last = history.len() - 1;
        assert(history.take(last) =~= earlier);
        match history[last] {
            Change::Create(new) => {
                lemma_create_keeps_distinct_ids(before, new);
            },
            Change::Update(i, new) => {
                if new.id == i {
                    lemma_update_keeps_distinct_ids(before, i, new);
                }
            },
            Change::Delete(i) => {
                lemma_delete_keeps_distinct_ids(before, i);
            },
        }
    }
}

} // verus!
