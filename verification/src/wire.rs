//! The JSON text of the service's response bodies.
//!
//! A ticket is written as `{"id":1,"name":"Anuj"}`, an error as
//! `{"id":1,"err":"ticket not found"}` and a list of tickets as an array of
//! ticket objects, all without white space. Identities are written in decimal.
//! Names and messages are written as JSON string literals by `serde_json`;
//! the framing around them is written, and proved, here.

use vstd::prelude::*;

use crate::ticket::{views, ErrNoId, ErrNoIdView, Ticket, TicketView};

verus! {

/// The JSON string literal that `serde_json` writes for the text `s`: `s`
/// between double quotes, with the characters that JSON does not allow inside
/// a literal replaced by escapes.
pub uninterp spec fn json_string(s: Seq<char>) -> Seq<char>;

/// `serde_json::to_string` on a string slice.
///
/// Trusted: the result is the JSON string literal for `s`, and depends on the
/// characters of `s` alone. `to_string` fails only where the value's own
/// serialisation fails or the value holds a map without string keys; a string
/// slice does neither, and the text is written to memory, so the call
/// always yields a literal.
#[verifier::external_body]
fn quote(s: &str) -> (quoted: String)
    ensures
        quoted@ == json_string(s@),
{
    serde_json::to_string(s).unwrap()
}

/// The ten decimal digits, in order.
pub open spec fn digits() -> Seq<char> {
    "0123456789"@
}

/// The decimal numeral of `n`, without leading zeros.
pub open spec fn decimal(n: nat) -> Seq<char>
    decreases n,
{
    if n < 10 {
        seq![digits()[n as int]]
    } else {
        decimal(n / 10).push(digits()[(n % 10) as int])
    }
}

/// The JSON object of a ticket, given its identity and the JSON string
/// literal of its name.
pub open spec fn ticket_object(id: u8, quoted_name: Seq<char>) -> Seq<char> {
    "{\"id\":"@ + decimal(id as nat) + ",\"name\":"@ + quoted_name + "}"@
}

/// The JSON object of an error, given the identity it names and the JSON
/// string literal of its message.
pub open spec fn error_object(id: u8, quoted_err: Seq<char>) -> Seq<char> {
    "{\"id\":"@ + decimal(id as nat) + ",\"err\":"@ + quoted_err + "}"@
}

/// The texts of `items` in order, with a comma between neighbours.
pub open spec fn joined(items: Seq<Seq<char>>) -> Seq<char>
    decreases items.len(),
{
    if items.len() == 0 {
        Seq::empty()
    } else if items.len() == 1 {
        items[0]
    } else {
        joined(items.drop_last()) + ","@ + items.last()
    }
}

/// The JSON array whose elements are the texts of `items`.
pub open spec fn array(items: Seq<Seq<char>>) -> Seq<char> {
    "["@ + joined(items) + "]"@
}

/// The JSON text of a ticket.
pub open spec fn ticket_json(t: TicketView) -> Seq<char> {
    ticket_object(t.id, json_string(t.name))
}

/// The JSON text of an error.
pub open spec fn error_json(e: ErrNoIdView) -> Seq<char> {
    error_object(e.id, json_string(e.err))
}

/// The JSON text of a list of tickets.
pub open spec fn tickets_json(s: Seq<TicketView>) -> Seq<char> {
    array(s.map_values(|t: TicketView| ticket_json(t)))
}

/// The one-character text of the digit `d`.
fn digit(d: u8) -> (text: &'static str)
    requires
        d < 10,
    ensures
        text@ == seq![digits()[d as int]],
{
    proof {
        reveal_strlit("0123456789");
    }
    let at: usize = d as usize;
    "0123456789".substring_char(at, at + 1)
}

/// The decimal numeral of `n`.
pub fn decimal_text(n: u8) -> (text: String)
    ensures
        text@ == decimal(n as nat),
{
    reveal_with_fuel(decimal, 3);
    let mut text = String::new();
    if n >= 100 {
        text.append(digit(n / 100));
    }
    if n >= 10 {
        text.append(digit((n / 10) % 10));
    }
    text.append(digit(n % 10));
    text
}

/// Frames a ticket's JSON object round the JSON string literal of its name.
pub fn frame_ticket(id: u8, quoted_name: &str) -> (text: String)
    ensures
        text@ == ticket_object(id, quoted_name@),
{
    let mut text = String::from_str("{\"id\":");
    text.append(decimal_text(id).as_str());
    text.append(",\"name\":");
    text.append(quoted_name);
    text.append("}");
    text
}

/// Frames an error's JSON object round the JSON string literal of its
/// message.
pub fn frame_error(id: u8, quoted_err: &str) -> (text: String)
    ensures
        text@ == error_object(id, quoted_err@),
{
    let mut text = String::from_str("{\"id\":");
    text.append(decimal_text(id).as_str());
    text.append(",\"err\":");
    text.append(quoted_err);
    text.append("}");
    text
}

/// The views of a run of texts, in the same order.
pub open spec fn texts(items: Seq<String>) -> Seq<Seq<char>> {
    items.map_values(|s: String| s@)
}

/// Frames a JSON array round texts that are JSON values already.
pub fn frame_array(items: &Vec<String>) -> (text: String)
    ensures
        text@ == array(texts(items@)),
{
    let ghost all = texts(items@);
    let mut text = String::from_str("[");
    let mut i: usize = 0;
    while i < items.len()
        invariant
            i <= items.len(),
            all == texts(items@),
            text@ == "["@ + joined(all.take(i as int)),
        decreases items.len() - i,
    {
        assert(all.take(i + 1).drop_last() =~= all.take(i as int));
        if i > 0 {
            text.append(",");
        }
        text.append(items[i].as_str());
        i += 1;
    }
    assert(all.take(i as int) =~= all);
    text.append("]");
    text
}

/// The JSON text of a ticket.
pub fn encode_ticket(t: &Ticket) -> (text: String)
    ensures
        text@ == ticket_json(t@),
{
    let quoted = quote(t.name.as_str());
    frame_ticket(t.id, quoted.as_str())
}

/// The JSON text of an error.
pub fn encode_error(e: &ErrNoId) -> (text: String)
    ensures
        text@ == error_json(e@),
{
    let quoted = quote(e.err.as_str());
    frame_error(e.id, quoted.as_str())
}

/// The JSON text of a list of tickets.
pub fn encode_tickets(tickets: &Vec<Ticket>) -> (text: String)
    ensures
        text@ == tickets_json(views(tickets@)),
{
    let mut items: Vec<String> = Vec::new();
    let mut i: usize = 0;
    while i < tickets.len()
        invariant
            i <= tickets.len(),
            items.len() == i,
            forall|j: int| 0 <= j < i ==> (#[trigger] items[j])@ == ticket_json(tickets[j]@),
        decreases tickets.len() - i,
    {
        items.push(encode_ticket(&tickets[i]));
        i += 1;
    }
    assert(texts(items@) =~= views(tickets@).map_values(|t: TicketView| ticket_json(t)));
    frame_array(&items)
}

} // verus!
