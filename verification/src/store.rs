//! The ticket store: the collection and its five operations.

use vstd::prelude::*;

use crate::model::{has_id, is_first, lemma_first_is, lookup, removed, replaced};
use crate::ticket::{not_found, views, ErrNoId, Ticket, TicketView};

verus! {

/// The tickets of the service, in the order in which they were created.
///
/// The collection itself is private: a caller reaches it through `list`,
/// `create`, `get`, `update` and `delete` alone. Each of the five, the reads
/// too, takes the store by `&mut`: an operation has the whole collection to
/// itself for as long as it runs, and no other can see it half done.
///
/// A ticket is found by its identity with a scan from the front, and the
/// first match wins. `create` does not look for an identity that is already
/// taken, so a store can hold several tickets with one identity; only the
/// first of them is ever read, updated or deleted.
pub struct TicketStore {
    tickets: Vec<Ticket>,
}

impl View for TicketStore {
    type V = Seq<TicketView>;

    closed spec fn view(&self) -> Seq<TicketView> {
        views(self.tickets@)
    }
}

/// The two tickets that a fresh service starts with.
pub open spec fn seed() -> Seq<TicketView> {
    seq![
        TicketView { id: 1, name: "Anuj"@ },
        TicketView { id: 2, name: "Goldy"@ },
    ]
}

impl TicketStore {
    /// A store without tickets.
    pub fn new() -> (store: TicketStore)
        ensures
            store@ == Seq::<TicketView>::empty(),
    {
        TicketStore { tickets: Vec::new() }
    }

    /// The store that a fresh service starts with.
    pub fn seeded() -> (store: TicketStore)
        ensures
            store@ == seed(),
    {
        let mut tickets: Vec<Ticket> = Vec::new();
        tickets.push(Ticket::new(1, "Anuj"));
        tickets.push(Ticket::new(2, "Goldy"));
        TicketStore { tickets }
    }

    /// The position of the first ticket with the identity `id`, if there is
    /// one.
    fn position(&self, id: u8) -> (found: Option<usize>)
        ensures
            match found {
                Some(i) => is_first(self@, id, i as int) && i < self.tickets.len(),
                None => !has_id(self@, id),
            },
    {
        let mut i: usize = 0;
        while i < self.tickets.len()
            invariant
                i <= self.tickets.len(),
                forall|j: int| 0 <= j < i ==> (#[trigger] self@[j]).id != id,
            decreases self.tickets.len() - i,
        {
            if self.tickets[i].id == id {
                return Some(i);
            }
            i += 1;
        }
        None
    }

    /// A copy of every ticket, in storage order. The store stays as it was.
    pub fn list(&mut self) -> (all: Vec<Ticket>)
        ensures
            final(self)@ == old(self)@,
            views(all@) == old(self)@,
    {
        let mut all: Vec<Ticket> = Vec::new();
        let mut i: usize = 0;
        while i < self.tickets.len()
            invariant
                i <= self.tickets.len(),
                all.len() == i,
                forall|j: int| 0 <= j < i ==> (#[trigger] all[j])@ == self.tickets[j]@,
            decreases self.tickets.len() - i,
        {
            all.push(self.tickets[i].clone());
            i += 1;
        }
        all
    }

    /// Appends `t`, whatever identities the store already holds, and returns a
    /// copy of what was stored.
    pub fn create(&mut self, t: Ticket) -> (stored: Ticket)
        ensures
            final(self)@ == old(self)@.push(t@),
            stored@ == t@,
    {
        let stored = t.clone();
        self.tickets.push(t);
        stored
    }

    /// A copy of the first ticket with the identity `id`, or the not-found
    /// error for `id`. The store stays as it was.
    pub fn get(&mut self, id: u8) -> (found: Result<Ticket, ErrNoId>)
        ensures
            final(self)@ == old(self)@,
            match found {
                Ok(t) => lookup(old(self)@, id) == Some(t@),
                Err(e) => lookup(old(self)@, id) is None && e@ == not_found(id),
            },
    {
        match self.position(id) {
            Some(i) => {
                proof {
                    lemma_first_is(self@, id, i as int);
                }
                Ok(self.tickets[i].clone())
            },
            None => Err(ErrNoId::not_found(id)),
        }
    }

    /// Puts `t` in the place of the first ticket with the identity `id` and
    /// returns a copy of it, or returns the not-found error for `id` and
    /// leaves the store as it was.
    ///
    /// The caller has checked that `t` carries the identity it is filed under.
    pub fn update(&mut self, id: u8, t: Ticket) -> (updated: Result<Ticket, ErrNoId>)
        requires
            t.id == id,
        ensures
            final(self)@ == replaced(old(self)@, id, t@),
            match updated {
                Ok(u) => has_id(old(self)@, id) && u@ == t@,
                Err(e) => !has_id(old(self)@, id) && e@ == not_found(id),
            },
    {
        match self.position(id) {
            Some(i) => {
                proof {
                    lemma_first_is(self@, id, i as int);
                }
                let updated = t.clone();
                self.tickets[i] = t;
                Ok(updated)
            },
            None => Err(ErrNoId::not_found(id)),
        }
    }

    /// Takes the first ticket with the identity `id` out of the store and
    /// returns it, or returns the not-found error for `id` and leaves the
    /// store as it was. The tickets that stay keep their order.
    pub fn delete(&mut self, id: u8) -> (deleted: Result<Ticket, ErrNoId>)
        ensures
            final(self)@ == removed(old(self)@, id),
            match deleted {
                Ok(t) => lookup(old(self)@, id) == Some(t@),
                Err(e) => lookup(old(self)@, id) is None && e@ == not_found(id),
            },
    {
        match self.position(id) {
            Some(i) => {
                proof {
                    lemma_first_is(self@, id, i as int);
                }
                let deleted = self.tickets.remove(i);
                Ok(deleted)
            },
            None => Err(ErrNoId::not_found(id)),
        }
    }
}

} // verus!
