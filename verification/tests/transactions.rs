use money_core::errors::Error;
use money_core::notify::NotificationRegistry;
use money_core::store::{Status, Store};
use money_core::transact::{self, Decision};

const NOW: i64 = 3_000_000;

fn s(v: &str) -> String {
    String::from(v)
}

fn pending(store: &mut Store, seller: &str, buyer: &str, name: &str, amount: i64) -> String {
    transact::request_transaction(
        store,
        Some(&s(seller)),
        &s(buyer),
        &s(name),
        amount,
        NOW,
    )
    .unwrap()
}

#[test]
fn request_transaction_needs_a_subject() {
    let mut store = Store::new();
    let r = transact::request_transaction(&mut store, None, &s("b"), &s("x"), 1, NOW);
    assert_eq!(r, Err(Error::Unauthorized));
    assert!(store.transactions.is_empty());
}

#[test]
fn request_transaction_inserts_pending_row() {
    let mut store = Store::new();
    let id = pending(&mut store, "alice", "bob", "lunch", 500);
    assert_eq!(id.len(), 8);
    assert!(id.chars().all(|c| c.is_ascii_alphabetic()));
    assert_eq!(store.transactions.len(), 1);
    let t = &store.transactions[0];
    assert_eq!(t.id, id);
    assert_eq!(t.seller, "alice");
    assert_eq!(t.buyer, "bob");
    assert_eq!(t.name, "lunch");
    assert_eq!(t.amount, 500);
    assert_eq!(t.status, Status::Pending);
    assert_eq!(t.created_at, NOW);
}

#[test]
fn respond_accept_resolves_row() {
    let mut store = Store::new();
    let id = pending(&mut store, "alice", "bob", "lunch", 500);
    let r = transact::respond(&mut store, &id, Some(&s("bob")), Decision::Accept);
    assert_eq!(r, Ok(()));
    assert_eq!(store.transactions[0].status, Status::Accepted);
}

#[test]
fn respond_reject_resolves_row() {
    let mut store = Store::new();
    let id = pending(&mut store, "alice", "bob", "lunch", 500);
    let r = transact::respond(&mut store, &id, Some(&s("bob")), Decision::Reject);
    assert_eq!(r, Ok(()));
    assert_eq!(store.transactions[0].status, Status::Rejected);
}

#[test]
fn respond_by_foreign_buyer_is_not_found_not_unauthorized() {
    let mut store = Store::new();
    let id = pending(&mut store, "alice", "bob", "lunch", 500);
    let r = transact::respond(&mut store, &id, Some(&s("mallory")), Decision::Accept);
    assert_eq!(r, Err(Error::NotFound));
    assert_eq!(store.transactions[0].status, Status::Pending);
}

#[test]
fn respond_on_missing_id_is_not_found() {
    let mut store = Store::new();
    let r = transact::respond(&mut store, &s("ABCDEFGH"), Some(&s("bob")), Decision::Accept);
    assert_eq!(r, Err(Error::NotFound));
}

#[test]
fn respond_needs_a_subject() {
    let mut store = Store::new();
    let id = pending(&mut store, "alice", "bob", "lunch", 500);
    let r = transact::respond(&mut store, &id, None, Decision::Accept);
    assert_eq!(r, Err(Error::Unauthorized));
}

#[test]
fn second_respond_cannot_flip_an_accepted_transaction() {
    let mut store = Store::new();
    let id = pending(&mut store, "alice", "bob", "lunch", 500);
    transact::respond(&mut store, &id, Some(&s("bob")), Decision::Accept).unwrap();
    let again = transact::respond(&mut store, &id, Some(&s("bob")), Decision::Reject);
    assert_eq!(again, Err(Error::NotFound));
    assert_eq!(store.transactions[0].status, Status::Accepted);
}

#[test]
fn authorize_watch_only_for_buyer_or_seller() {
    let mut store = Store::new();
    let id = pending(&mut store, "alice", "bob", "lunch", 500);
    assert!(transact::authorize_watch(&store, &id, &s("alice")));
    assert!(transact::authorize_watch(&store, &id, &s("bob")));
    assert!(!transact::authorize_watch(&store, &id, &s("mallory")));
    assert!(!transact::authorize_watch(&store, &s("ZZZZZZZZ"), &s("alice")));
}

#[test]
fn watch_transaction_parks_and_displaces() {
    let mut store = Store::new();
    let mut registry: NotificationRegistry<u32> = NotificationRegistry::new();
    let id = pending(&mut store, "alice", "bob", "lunch", 500);

    let refused = transact::watch_transaction(&store, &mut registry, &id, None, 1u32);
    assert_eq!(refused, Err(Error::Unauthorized));
    let refused = transact::watch_transaction(&store, &mut registry, &id, Some(&s("mallory")), 1u32);
    assert_eq!(refused, Err(Error::Unauthorized));

    let first = transact::watch_transaction(&store, &mut registry, &id, Some(&s("alice")), 1u32);
    assert_eq!(first, Ok(None));
    // a second watcher displaces (and does not close) the first
    let second = transact::watch_transaction(&store, &mut registry, &id, Some(&s("bob")), 2u32);
    assert_eq!(second, Ok(Some(1u32)));
}

#[test]
fn end_to_end_accept_notifies_watcher_once() {
    let mut store = Store::new();
    let mut registry: NotificationRegistry<u32> = NotificationRegistry::new();

    // seller A creates a transaction for buyer B, amount 500, name "lunch"
    let id = transact::request_transaction(
        &mut store,
        Some(&s("a")),
        &s("b"),
        &s("lunch"),
        500,
        NOW,
    )
    .unwrap();
    assert_eq!(id.len(), 8);

    // A watches the transaction
    transact::watch_transaction(&store, &mut registry, &id, Some(&s("a")), 7u32).unwrap();

    // B accepts: the row resolves and the watcher is owed exactly one message
    let out = transact::accept_transaction(&mut store, &mut registry, &id, Some(&s("b"))).unwrap();
    let (conn, msg) = out.expect("a watcher was registered");
    assert_eq!(conn, 7u32);
    assert_eq!(msg, "transaction_accepted");
    assert_eq!(store.transactions[0].status, Status::Accepted);

    // the slot is destroyed the moment it is delivered to: nobody is told twice
    let again = transact::reject_transaction(&mut store, &mut registry, &id, Some(&s("b")));
    assert_eq!(again, Err(Error::NotFound));
    assert_eq!(registry.take(&id), None);
}

#[test]
fn reject_notifies_with_rejected_message() {
    let mut store = Store::new();
    let mut registry: NotificationRegistry<u32> = NotificationRegistry::new();
    let id = pending(&mut store, "alice", "bob", "lunch", 500);
    transact::watch_transaction(&store, &mut registry, &id, Some(&s("bob")), 9u32).unwrap();
    let out = transact::reject_transaction(&mut store, &mut registry, &id, Some(&s("bob"))).unwrap();
    let (conn, msg) = out.unwrap();
    assert_eq!(conn, 9u32);
    assert_eq!(msg, "transaction_rejected");
}

#[test]
fn resolving_with_no_watcher_notifies_nobody() {
    let mut store = Store::new();
    let mut registry: NotificationRegistry<u32> = NotificationRegistry::new();
    let id = pending(&mut store, "alice", "bob", "lunch", 500);
    let out = transact::accept_transaction(&mut store, &mut registry, &id, Some(&s("bob"))).unwrap();
    assert_eq!(out, None);
}

#[test]
fn notification_registry_is_per_id() {
    let mut registry: NotificationRegistry<u32> = NotificationRegistry::new();
    assert_eq!(registry.register(s("AAAAAAAA"), 1), None);
    assert_eq!(registry.register(s("BBBBBBBB"), 2), None);
    assert_eq!(registry.take(&s("AAAAAAAA")), Some(1));
    // taking one id leaves the other alone
    assert_eq!(registry.take(&s("AAAAAAAA")), None);
    assert_eq!(registry.take(&s("BBBBBBBB")), Some(2));
}
