//! The endpoints: from the store and a parsed request to a response.
//!
//! | endpoint | handler |
//! |---|---|
//! | `GET /tickets` | [`all_tickets`] |
//! | `POST /tickets` | [`create_ticket`] |
//! | `GET /tickets/{id}` | [`get_ticket`] |
//! | `PUT /tickets/{id}` | [`update_ticket`] |
//! | `DELETE /tickets/{id}` | [`remove_ticket`] |
//!
//! A handler takes the store by `&mut`, as the store's own operations do, and
//! changes it only as the one operation that it calls does. Every response is
//! JSON: a success has the status 200, and both kinds of error, the failed
//! lookup and the rejected update, have the status 404.

use vstd::prelude::*;

use crate::model::{has_id, lookup, removed, replaced};
use crate::store::TicketStore;
use crate::ticket::{id_mismatch, not_found, ErrNoId, ErrNoIdView, Ticket, TicketView};
use crate::wire::{encode_error, encode_ticket, encode_tickets, error_json, ticket_json, tickets_json};

verus! {

/// The status of a response that carries what was asked for.
pub const OK: u16 = 200;

/// The status of a response that carries an error.
pub const NOT_FOUND: u16 = 404;

/// A response as the contracts see it: its status and the characters of its
/// body.
pub struct ResponseView {
    pub status: u16,
    pub body: Seq<char>,
}

/// What a handler hands back for sending: the status and the JSON body.
#[derive(Debug, PartialEq, Eq)]
pub struct Response {
    pub status: u16,
    pub body: String,
}

impl View for Response {
    type V = ResponseView;

    open spec fn view(&self) -> ResponseView {
        ResponseView { status: self.status, body: self.body@ }
    }
}

impl Response {
    /// The media type of every response's body.
    pub fn content_type(&self) -> (media: &'static str)
        ensures
            media@ == "application/json"@,
    {
        "application/json"
    }
}

/// The response that carries the ticket `t`.
pub open spec fn ticket_reply(t: TicketView) -> ResponseView {
    ResponseView { status: OK, body: ticket_json(t) }
}

/// The response that carries the error `e`.
pub open spec fn error_reply(e: ErrNoIdView) -> ResponseView {
    ResponseView { status: NOT_FOUND, body: error_json(e) }
}

/// The response to a request for every ticket of the store `s`.
pub open spec fn list_reply(s: Seq<TicketView>) -> ResponseView {
    ResponseView { status: OK, body: tickets_json(s) }
}

/// The response to a read of `id` from the store `s`.
pub open spec fn get_reply(s: Seq<TicketView>, id: u8) -> ResponseView {
    match lookup(s, id) {
        Some(t) => ticket_reply(t),
        None => error_reply(not_found(id)),
    }
}

/// The response to an update of `id` to `t` in the store `s`. A body that
/// names another identity is turned away whatever the store holds.
pub open spec fn update_reply(s: Seq<TicketView>, id: u8, t: TicketView) -> ResponseView {
    if t.id != id {
        error_reply(id_mismatch(id))
    } else if has_id(s, id) {
        ticket_reply(t)
    } else {
        error_reply(not_found(id))
    }
}

/// The store after an update of `id` to `t` was handled: a body that names
/// another identity leaves it untouched.
pub open spec fn after_update(s: Seq<TicketView>, id: u8, t: TicketView) -> Seq<TicketView> {
    if t.id != id {
        s
    } else {
        replaced(s, id, t)
    }
}

/// The response to a delete of `id` from the store `s`: the ticket that
/// leaves, which is the one that a read would have found, or the error.
pub open spec fn remove_reply(s: Seq<TicketView>, id: u8) -> ResponseView {
    match lookup(s, id) {
        Some(t) => ticket_reply(t),
        None => error_reply(not_found(id)),
    }
}

impl Ticket {
    /// The response that carries this ticket.
    pub fn respond_to(self) -> (reply: Response)
        ensures
            reply@ == ticket_reply(self@),
    {
        Response { status: OK, body: encode_ticket(&self) }
    }
}

impl ErrNoId {
    /// The status that every error is sent with.
    pub fn status_code(&self) -> (status: u16)
        ensures
            status == NOT_FOUND,
    {
        NOT_FOUND
    }

    /// The response that carries this error.
    pub fn error_response(&self) -> (reply: Response)
        ensures
            reply@ == error_reply(self@),
    {
        Response { status: self.status_code(), body: encode_error(self) }
    }
}

/// `GET /tickets`: every ticket, in storage order. The store stays as it
/// was.
pub fn all_tickets(store: &mut TicketStore) -> (reply: Response)
    ensures
        final(store)@ == old(store)@,
        reply@ == list_reply(old(store)@),
{
    let tickets = store.list();
    Response { status: OK, body: encode_tickets(&tickets) }
}

/// `POST /tickets`: stores `req` and sends it back. The request cannot fail:
/// an identity that is already taken is stored once more.
pub fn create_ticket(store: &mut TicketStore, req: Ticket) -> (reply: Response)
    ensures
        final(store)@ == old(store)@.push(req@),
        reply@ == ticket_reply(req@),
{
    let stored = store.create(req);
    stored.respond_to()
}

/// `GET /tickets/{id}`: the first ticket with the identity `id`, or the
/// not-found error. The store stays as it was.
pub fn get_ticket(store: &mut TicketStore, id: u8) -> (reply: Response)
    ensures
        final(store)@ == old(store)@,
        reply@ == get_reply(old(store)@, id),
{
    match store.get(id) {
        Ok(ticket) => ticket.respond_to(),
        Err(e) => e.error_response(),
    }
}

/// `PUT /tickets/{id}`: puts `req` in the place of the first ticket with the
/// identity `id` and sends it back.
///
/// A body whose identity is not the one in the path is turned away before the
/// store is looked at, with the mismatch error for the identity of the path.
/// An identity that the store does not hold gives the not-found error. Either
/// way the store stays as it was.
pub fn update_ticket(store: &mut TicketStore, id: u8, req: Ticket) -> (reply: Response)
    ensures
        final(store)@ == after_update(old(store)@, id, req@),
        reply@ == update_reply(old(store)@, id, req@),
{
    if id != req.id {
        return ErrNoId::id_mismatch(id).error_response();
    }
    match store.update(id, req) {
        Ok(ticket) => ticket.respond_to(),
        Err(e) => e.error_response(),
    }
}

/// `DELETE /tickets/{id}`: takes the first ticket with the identity `id` out
/// of the store and sends it back, or sends the not-found error and leaves the
/// store as it was.
pub fn remove_ticket(store: &mut TicketStore, id: u8) -> (reply: Response)
    ensures
        final(store)@ == removed(old(store)@, id),
        reply@ == remove_reply(old(store)@, id),
{
    match store.delete(id) {
        Ok(ticket) => ticket.respond_to(),
        Err(e) => e.error_response(),
    }
}

} // verus!
