//! An in-memory ticket service, verified with Verus.
//!
//! The crate holds the whole of the service that is pure computation:
//!
//! - [`ticket`]: the ticket record, the error record, and the mathematical
//!   views that every contract is stated over;
//! - [`model`]: the store as a sequence of ticket views, with lookup by
//!   identity and the three mutations as spec functions;
//! - [`store`]: [`TicketStore`], the executable collection with its five
//!   operations, each proved against the model;
//! - [`wire`]: the JSON text of tickets, errors and ticket lists;
//! - [`handlers`]: one function per endpoint, from the store and the parsed
//!   request to the status and body of the response;
//! - [`laws`]: what holds across operations, as proved statements.
//!
//! Nothing here blocks, locks or performs I/O. A server owns one
//! [`TicketStore`] behind a mutual-exclusion lock, takes the lock for the
//! length of exactly one handler call, and sends the [`Response`] it gets.

pub mod handlers;
pub mod laws;
pub mod model;
pub mod store;
pub mod ticket;
pub mod wire;

pub use handlers::{
    all_tickets, create_ticket, get_ticket, remove_ticket, update_ticket, Response, ResponseView,
};
pub use store::TicketStore;
pub use ticket::{ErrNoId, ErrNoIdView, Ticket, TicketView};
