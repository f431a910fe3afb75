//! The ticket record, the error record, and their views.

use vstd::prelude::*;

verus! {

/// A ticket as the contracts see it: its identity and the characters of its
/// name.
pub struct TicketView {
    pub id: u8,
    pub name: Seq<char>,
}

/// The single record of the service. The client chooses `id`; `name` is free
/// text and is never validated.
#[derive(Debug, PartialEq, Eq)]
pub struct Ticket {
    pub id: u8,
    pub name: String,
}

impl View for Ticket {
    type V = TicketView;

    open spec fn view(&self) -> TicketView {
        TicketView { id: self.id, name: self.name@ }
    }
}

impl Clone for Ticket {
    fn clone(&self) -> (copy: Ticket)
        ensures
            copy@ == self@,
    {
        Ticket { id: self.id, name: self.name.clone() }
    }
}

impl Ticket {
    /// A ticket with the given identity and name.
    pub fn new(id: u8, name: &str) -> (t: Ticket)
        ensures
            t@ == (TicketView { id, name: name@ }),
    {
        Ticket { id, name: name.to_owned() }
    }
}

/// The views of a run of tickets, in the same order.
pub open spec fn views(tickets: Seq<Ticket>) -> Seq<TicketView> {
    tickets.map_values(|t: Ticket| t@)
}

/// An error record as the contracts see it: the identity the request named and
/// the characters of the message.
pub struct ErrNoIdView {
    pub id: u8,
    pub err: Seq<char>,
}

/// The outcome of a request that names an identity the service cannot act on.
/// It carries the identity that the request named, not one found in the store.
#[derive(Debug, PartialEq, Eq)]
pub struct ErrNoId {
    pub id: u8,
    pub err: String,
}

impl View for ErrNoId {
    type V = ErrNoIdView;

    open spec fn view(&self) -> ErrNoIdView {
        ErrNoIdView { id: self.id, err: self.err@ }
    }
}

/// The error for an identity that no ticket in the store has.
pub open spec fn not_found(id: u8) -> ErrNoIdView {
    ErrNoIdView { id, err: "ticket not found"@ }
}

/// The error for an update whose body names another identity than its path.
pub open spec fn id_mismatch(id: u8) -> ErrNoIdView {
    ErrNoIdView { id, err: "ticket id did not match"@ }
}

impl ErrNoId {
    /// The error for an identity that no ticket in the store has.
    pub fn not_found(id: u8) -> (e: ErrNoId)
        ensures
            e@ == not_found(id),
    {
        ErrNoId { id, err: "ticket not found".to_owned() }
    }

    /// The error for an update whose body names another identity than its
    /// path.
    pub fn id_mismatch(id: u8) -> (e: ErrNoId)
        ensures
            e@ == id_mismatch(id),
    {
        ErrNoId { id, err: "ticket id did not match".to_owned() }
    }
}

/// The two messages differ, so a client can tell a failed lookup from a
/// rejected update by the message alone.
pub proof fn lemma_messages_differ(id: u8, other: u8)
    ensures
        not_found(id) != id_mismatch(other),
{
    reveal_strlit("ticket not found");
    reveal_strlit("ticket id did not match");
    assert("ticket not found"@.len() != "ticket id did not match"@.len());
}

} // verus!
