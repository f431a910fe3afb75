use tickets::{ErrNoId, Ticket, TicketStore};

fn ticket(id: u8, name: &str) -> Ticket {
    Ticket::new(id, name)
}

fn not_found(id: u8) -> ErrNoId {
    ErrNoId { id, err: String::from("ticket not found") }
}

#[test]
fn new_store_is_empty() {
    let mut store = TicketStore::new();
    assert_eq!(store.list(), Vec::<Ticket>::new());
}

#[test]
fn seeded_store_holds_the_two_seed_tickets() {
    let mut store = TicketStore::seeded();
    assert_eq!(store.list(), vec![ticket(1, "Anuj"), ticket(2, "Goldy")]);
}

#[test]
fn ticket_new_copies_its_arguments() {
    let t = Ticket::new(7, "Seven");
    assert_eq!(t.id, 7);
    assert_eq!(t.name, "Seven");
    assert_eq!(t.clone(), t);
}

#[test]
fn error_constructors_carry_id_and_message() {
    assert_eq!(ErrNoId::not_found(9), ErrNoId { id: 9, err: String::from("ticket not found") });
    assert_eq!(
        ErrNoId::id_mismatch(9),
        ErrNoId { id: 9, err: String::from("ticket id did not match") }
    );
    assert_ne!(ErrNoId::not_found(9), ErrNoId::id_mismatch(9));
}

#[test]
fn create_appends_and_returns_the_stored_copy() {
    let mut store = TicketStore::seeded();
    let stored = store.create(ticket(3, "Sam"));
    assert_eq!(stored, ticket(3, "Sam"));
    assert_eq!(store.list(), vec![ticket(1, "Anuj"), ticket(2, "Goldy"), ticket(3, "Sam")]);
}

#[test]
fn created_ticket_is_read_back() {
    let mut store = TicketStore::new();
    store.create(ticket(200, "Late"));
    assert_eq!(store.get(200), Ok(ticket(200, "Late")));
}

#[test]
fn read_survives_operations_on_other_ids() {
    let mut store = TicketStore::seeded();
    store.create(ticket(3, "Sam"));
    store.create(ticket(4, "Kim"));
    assert_eq!(store.update(1, ticket(1, "Anuj2")), Ok(ticket(1, "Anuj2")));
    assert_eq!(store.delete(2), Ok(ticket(2, "Goldy")));
    assert_eq!(store.get(3), Ok(ticket(3, "Sam")));
}

#[test]
fn get_finds_each_seed_ticket() {
    let mut store = TicketStore::seeded();
    assert_eq!(store.get(1), Ok(ticket(1, "Anuj")));
    assert_eq!(store.get(2), Ok(ticket(2, "Goldy")));
}

#[test]
fn get_of_unknown_id_is_not_found_with_that_id() {
    let mut store = TicketStore::seeded();
    assert_eq!(store.get(0), Err(not_found(0)));
    assert_eq!(store.get(3), Err(not_found(3)));
    assert_eq!(store.get(255), Err(not_found(255)));
}

#[test]
fn get_does_not_change_the_store() {
    let mut store = TicketStore::seeded();
    let before = store.list();
    let _ = store.get(1);
    let _ = store.get(9);
    assert_eq!(store.list(), before);
}

#[test]
fn update_replaces_in_place() {
    let mut store = TicketStore::seeded();
    store.create(ticket(3, "Sam"));
    assert_eq!(store.update(2, ticket(2, "Goldy2")), Ok(ticket(2, "Goldy2")));
    assert_eq!(store.list(), vec![ticket(1, "Anuj"), ticket(2, "Goldy2"), ticket(3, "Sam")]);
    assert_eq!(store.get(2), Ok(ticket(2, "Goldy2")));
}

#[test]
fn update_of_unknown_id_is_not_found_and_changes_nothing() {
    let mut store = TicketStore::seeded();
    assert_eq!(store.update(9, ticket(9, "Nine")), Err(not_found(9)));
    assert_eq!(store.list(), vec![ticket(1, "Anuj"), ticket(2, "Goldy")]);
}

#[test]
fn delete_removes_and_returns_the_ticket() {
    let mut store = TicketStore::seeded();
    store.create(ticket(3, "Sam"));
    assert_eq!(store.delete(2), Ok(ticket(2, "Goldy")));
    assert_eq!(store.list(), vec![ticket(1, "Anuj"), ticket(3, "Sam")]);
}

#[test]
fn delete_then_read_is_not_found() {
    let mut store = TicketStore::seeded();
    assert_eq!(store.delete(1), Ok(ticket(1, "Anuj")));
    assert_eq!(store.get(1), Err(not_found(1)));
    assert_eq!(store.delete(1), Err(not_found(1)));
    assert_eq!(store.update(1, ticket(1, "Back")), Err(not_found(1)));
}

#[test]
fn delete_of_unknown_id_is_not_found_and_changes_nothing() {
    let mut store = TicketStore::seeded();
    assert_eq!(store.delete(77), Err(not_found(77)));
    assert_eq!(store.list(), vec![ticket(1, "Anuj"), ticket(2, "Goldy")]);
}

#[test]
fn deleting_the_last_ticket_leaves_an_empty_store() {
    let mut store = TicketStore::new();
    store.create(ticket(5, "Only"));
    assert_eq!(store.delete(5), Ok(ticket(5, "Only")));
    assert_eq!(store.list(), Vec::<Ticket>::new());
}

#[test]
fn list_shows_create_and_delete() {
    let mut store = TicketStore::seeded();
    store.create(ticket(3, "Sam"));
    assert!(store.list().contains(&ticket(3, "Sam")));
    assert_eq!(store.delete(3), Ok(ticket(3, "Sam")));
    assert!(store.list().iter().all(|t| t.id != 3));
}

#[test]
fn list_is_a_snapshot() {
    let mut store = TicketStore::seeded();
    let mut snapshot = store.list();
    snapshot.push(ticket(9, "Local"));
    snapshot[0].name.push_str("!");
    assert_eq!(store.list(), vec![ticket(1, "Anuj"), ticket(2, "Goldy")]);
    let earlier = store.list();
    store.create(ticket(3, "Sam"));
    assert_eq!(earlier, vec![ticket(1, "Anuj"), ticket(2, "Goldy")]);
}

#[test]
fn create_accepts_an_identity_that_is_taken() {
    let mut store = TicketStore::seeded();
    let stored = store.create(ticket(1, "Second"));
    assert_eq!(stored, ticket(1, "Second"));
    assert_eq!(
        store.list(),
        vec![ticket(1, "Anuj"), ticket(2, "Goldy"), ticket(1, "Second")]
    );
}

#[test]
fn first_match_wins_where_an_identity_is_held_twice() {
    let mut store = TicketStore::seeded();
    store.create(ticket(1, "Second"));
    assert_eq!(store.get(1), Ok(ticket(1, "Anuj")));
    assert_eq!(store.update(1, ticket(1, "First")), Ok(ticket(1, "First")));
    assert_eq!(
        store.list(),
        vec![ticket(1, "First"), ticket(2, "Goldy"), ticket(1, "Second")]
    );
    assert_eq!(store.delete(1), Ok(ticket(1, "First")));
    assert_eq!(store.list(), vec![ticket(2, "Goldy"), ticket(1, "Second")]);
    assert_eq!(store.get(1), Ok(ticket(1, "Second")));
    assert_eq!(store.delete(1), Ok(ticket(1, "Second")));
    assert_eq!(store.get(1), Err(not_found(1)));
}

#[test]
fn identities_cover_the_whole_byte_range() {
    let mut store = TicketStore::new();
    store.create(ticket(0, "Zero"));
    store.create(ticket(255, "Max"));
    assert_eq!(store.get(0), Ok(ticket(0, "Zero")));
    assert_eq!(store.get(255), Ok(ticket(255, "Max")));
    assert_eq!(store.get(254), Err(not_found(254)));
}

#[test]
fn names_are_not_validated() {
    let mut store = TicketStore::new();
    store.create(ticket(1, ""));
    store.create(ticket(2, "  spaces \"quotes\" \\ and \n lines "));
    store.create(ticket(3, "naïve ☃ 票"));
    assert_eq!(store.get(1), Ok(ticket(1, "")));
    assert_eq!(store.get(2), Ok(ticket(2, "  spaces \"quotes\" \\ and \n lines ")));
    assert_eq!(store.get(3), Ok(ticket(3, "naïve ☃ 票")));
}
