//! The transaction engine: create a pending transaction as its seller, let
//! its buyer accept or reject it exactly once, and notify any watcher of the
//! outcome.

use vstd::prelude::*;

use crate::errors::Error;
use crate::notify::NotificationRegistry;
use crate::store::{
    contains_transaction, transaction_index, Status, Store, StoreView, Transaction,
    TransactionView,
};
use crate::util::get_random_string;

verus! {

/// What a buyer decides about a pending transaction.
#[derive(Clone, Copy, Debug, PartialEq, Eq, Structural)]
pub enum Decision {
    Accept,
    Reject,
}

/// The terminal status a decision drives a transaction to.
pub open spec fn decided_status(d: Decision) -> Status {
    match d {
        Decision::Accept => Status::Accepted,
        Decision::Reject => Status::Rejected,
    }
}

/// May `buyer` resolve the transaction `id` right now?  Only if a row with
/// that id exists, names this buyer, and is still pending.  A caller cannot
/// tell from the outside which of the three conditions failed.
pub open spec fn respond_applicable(
    txs: Seq<TransactionView>,
    id: Seq<char>,
    buyer: Seq<char>,
) -> bool {
    contains_transaction(txs, id) && {
        let t = txs[transaction_index(txs, id)];
        t.buyer == buyer && t.status == Status::Pending
    }
}

/// Create a transaction: the authenticated caller becomes the seller, the
/// buyer is taken as given (no existence check at this layer), and the row
/// starts pending under a fresh random 8-character id.  A random id that
/// collides with a live one (statistically negligible, and needing an
/// occupant to collide with: with no rows, success is owed) leaves the store
/// alone and surfaces as `InternalError`.
pub fn request_transaction(
    store: &mut Store,
    subject: Option<&String>,
    buyer: &String,
    name: &String,
    amount: i64,
    now: i64,
) -> (r: Result<String, Error>)
    requires
        old(store).wf(),
    ensures
        final(store).wf(),
        final(store)@.users == old(store)@.users,
        final(store)@.sessions == old(store)@.sessions,
        match r {
            Err(Error::Unauthorized) => subject is None && final(store)@.transactions == old(
                store,
            )@.transactions,
            Err(Error::InternalError) => subject is Some && final(store)@.transactions == old(
                store,
            )@.transactions && old(store)@.transactions.len() > 0,
            Err(_) => false,
            Ok(id) => {
                &&& subject matches Some(seller)
                &&& id@.len() == 8
                &&& !contains_transaction(old(store)@.transactions, id@)
                &&& final(store)@.transactions == old(store)@.transactions.push(
                    (TransactionView {
                        id: id@,
                        buyer: buyer@,
                        seller: seller@,
                        name: name@,
                        amount: amount as int,
                        status: Status::Pending,
                        created_at: now as int,
                    }),
                )
            },
        },
{
    let seller = match subject {
        Some(s) => s,
        None => {
            return Err(Error::Unauthorized);
        },
    };
    let id = get_random_string(8);
    if store.find_transaction(&id).is_some() {
        return Err(Error::InternalError);
    }
    let ghost old_txs = store@.transactions;
    let tx = Transaction {
        id: id.clone(),
        buyer: buyer.clone(),
        seller: seller.clone(),
        name: name.clone(),
        amount,
        status: Status::Pending,
        created_at: now,
    };
    let ghost tv = tx@;
    store.transactions.push(tx);
    proof {
        assert(store@.transactions =~= old_txs.push(tv));
        assert(store@.users =~= old(store)@.users);
        assert(store@.sessions =~= old(store)@.sessions);
        assert forall|i: int, j: int|
            0 <= i < j < store@.transactions.len() implies store@.transactions[i].id
            != store@.transactions[j].id by {
            if j == store@.transactions.len() - 1 {
                assert(!contains_transaction(old_txs, tv.id));
            }
        }
    }
    Ok(id)
}

/// Resolve a transaction: an anonymous caller is refused outright; otherwise
/// the row must exist, belong to this buyer, and still be pending, and the
/// three failures are deliberately the same `NotFound` — a non-owner learns
/// nothing about a foreign id.  On success the row moves to its terminal
/// status, once and for all.
pub fn respond(store: &mut Store, id: &String, subject: Option<&String>, decision: Decision) -> (r:
    Result<(), Error>)
    requires
        old(store).wf(),
    ensures
        final(store).wf(),
        final(store)@.users == old(store)@.users,
        final(store)@.sessions == old(store)@.sessions,
        match r {
            Err(Error::Unauthorized) => subject is None && final(store)@.transactions == old(
                store,
            )@.transactions,
            Err(Error::NotFound) => {
                &&& subject matches Some(buyer)
                &&& !respond_applicable(old(store)@.transactions, id@, buyer@)
                &&& final(store)@.transactions == old(store)@.transactions
            },
            Err(_) => false,
            Ok(_) => {
                &&& subject matches Some(buyer)
                &&& respond_applicable(old(store)@.transactions, id@, buyer@)
                &&& final(store)@.transactions == old(store)@.transactions.update(
                    transaction_index(old(store)@.transactions, id@),
                    (TransactionView {
                        status: decided_status(decision),
                        ..old(store)@.transactions[transaction_index(
                            old(store)@.transactions,
                            id@,
                        )]
                    }),
                )
            },
        },
{
    let buyer = match subject {
        Some(s) => s,
        None => {
            return Err(Error::Unauthorized);
        },
    };
    let idx = match store.find_transaction(id) {
        Some(i) => i,
        None => {
            return Err(Error::NotFound);
        },
    };
    proof {
        let txs = store@.transactions;
        let i = transaction_index(txs, id@);
        assert(txs[idx as int].id == txs[i].id);
        assert(txs[idx as int] == txs[i]);
    }
    let applicable = store.transactions[idx].buyer == *buyer && matches!(
        store.transactions[idx].status,
        Status::Pending
    );
    if !applicable {
        return Err(Error::NotFound);
    }
    let ghost old_txs = store@.transactions;
    let new_status = match decision {
        Decision::Accept => Status::Accepted,
        Decision::Reject => Status::Rejected,
    };
    store.transactions[idx].status = new_status;
    proof {
        let i = transaction_index(old_txs, id@);
        assert(store@.transactions =~= old_txs.update(
            i,
            (TransactionView { status: decided_status(decision), ..old_txs[i] }),
        ));
        assert(store@.users =~= old(store)@.users);
        assert(store@.sessions =~= old(store)@.sessions);
        assert forall|a: int, b: int|
            0 <= a < b < store@.transactions.len() implies store@.transactions[a].id
            != store@.transactions[b].id by {
            assert(old_txs[a].id != old_txs[b].id);
        }
    }
    Ok(())
}

/// May `subject` watch transaction `id` for its outcome?  Only its buyer or
/// its seller may.
pub fn authorize_watch(store: &Store, id: &String, subject: &String) -> (r: bool)
    requires
        store.wf(),
    ensures
        r == (contains_transaction(store@.transactions, id@) && {
            let t = store@.transactions[transaction_index(store@.transactions, id@)];
            t.buyer == subject@ || t.seller == subject@
        }),
{
    match store.find_transaction(id) {
        Some(i) => {
            proof {
                let txs = store@.transactions;
                let j = transaction_index(txs, id@);
                assert(txs[i as int].id == txs[j].id);
                assert(txs[i as int] == txs[j]);
            }
            store.transactions[i].buyer == *subject || store.transactions[i].seller == *subject
        },
        None => false,
    }
}

/// Open a watch: an authenticated buyer or seller of `id` parks `conn` in
/// the registry (displacing, not closing, any earlier watcher of the same
/// id); anyone else is refused with `Unauthorized`, the registry untouched.
pub fn watch_transaction<C>(
    store: &Store,
    registry: &mut NotificationRegistry<C>,
    id: &String,
    subject: Option<&String>,
    conn: C,
) -> (r: Result<Option<C>, Error>)
    requires
        store.wf(),
        old(registry).wf(),
    ensures
        final(registry).wf(),
        match r {
            Err(e) => {
                &&& e == Error::Unauthorized
                &&& (subject matches Some(s) ==> !(contains_transaction(store@.transactions, id@)
                    && {
                    let t = store@.transactions[transaction_index(store@.transactions, id@)];
                    t.buyer == s@ || t.seller == s@
                }))
                &&& *final(registry) == *old(registry)
            },
            Ok(displaced) => {
                &&& subject matches Some(s) && (contains_transaction(store@.transactions, id@)
                    && {
                    let t = store@.transactions[transaction_index(store@.transactions, id@)];
                    t.buyer == s@ || t.seller == s@
                })
                &&& final(registry).contains_id(id@)
                &&& final(registry).conn_for(id@) == conn
                &&& (forall|x: Seq<char>|
                    x != id@ ==> #[trigger] final(registry).contains_id(x) == old(registry).contains_id(x))
                &&& (forall|x: Seq<char>|
                    x != id@ && old(registry).contains_id(x) ==> #[trigger] final(registry).conn_for(x) == old(registry).conn_for(x))
                &&& match displaced {
                    Some(c) => old(registry).contains_id(id@) && c == old(registry).conn_for(id@),
                    None => !old(registry).contains_id(id@),
                }
            },
        },
{
    let subject = match subject {
        Some(s) => s,
        None => {
            return Err(Error::Unauthorized);
        },
    };
    if !authorize_watch(store, id, subject) {
        return Err(Error::Unauthorized);
    }
    Ok(registry.register(id.clone(), conn))
}

/// Everything resolving a transaction and collecting its watcher promises:
/// how the store's rows move, how the registry's slots move, and what comes
/// back for each way the call can go.
pub open spec fn respond_and_notify_post<C>(
    pre: StoreView,
    post: StoreView,
    pre_reg: NotificationRegistry<C>,
    post_reg: NotificationRegistry<C>,
    id: Seq<char>,
    subject: Option<Seq<char>>,
    decision: Decision,
    r: Result<Option<(C, String)>, Error>,
) -> bool {
    &&& post.users == pre.users
    &&& post.sessions == pre.sessions
    &&& match r {
        Err(Error::Unauthorized) => subject is None && post.transactions == pre.transactions
            && post_reg == pre_reg,
        Err(Error::NotFound) => {
            &&& subject matches Some(buyer)
            &&& !respond_applicable(pre.transactions, id, buyer)
            &&& post.transactions == pre.transactions
            &&& post_reg == pre_reg
        },
        Err(_) => false,
        Ok(out) => {
            &&& subject matches Some(buyer)
            &&& respond_applicable(pre.transactions, id, buyer)
            &&& post.transactions == pre.transactions.update(
                transaction_index(pre.transactions, id),
                (TransactionView {
                    status: decided_status(decision),
                    ..pre.transactions[transaction_index(pre.transactions, id)]
                }),
            )
            &&& !post_reg.contains_id(id)
            &&& (forall|x: Seq<char>|
                x != id ==> #[trigger] post_reg.contains_id(x) == pre_reg.contains_id(x))
            &&& (forall|x: Seq<char>|
                x != id && pre_reg.contains_id(x) ==> #[trigger] post_reg.conn_for(x)
                    == pre_reg.conn_for(x))
            &&& match out {
                Some((c, msg)) => {
                    &&& pre_reg.contains_id(id)
                    &&& c == pre_reg.conn_for(id)
                    &&& msg@ == (if decision == Decision::Accept {
                        "transaction_accepted"@
                    } else {
                        "transaction_rejected"@
                    })
                },
                None => !pre_reg.contains_id(id),
            }
        },
    }
}

/// The view of an optional subject.
pub open spec fn subject_view(subject: Option<&String>) -> Option<Seq<char>> {
    match subject {
        Some(s) => Some(s@),
        None => None,
    }
}

/// Resolve a transaction and pick up its watcher in one step: the store is
/// updated first, and only then is the waiting connection (if any) taken out
/// of the registry, paired with the outcome message it is owed.  The caller
/// delivers the message and closes the connection; nobody waiting means
/// nobody is told, which is not an error.
pub fn respond_and_notify<C>(
    store: &mut Store,
    registry: &mut NotificationRegistry<C>,
    id: &String,
    subject: Option<&String>,
    decision: Decision,
) -> (r: Result<Option<(C, String)>, Error>)
    requires
        old(store).wf(),
        old(registry).wf(),
    ensures
        final(store).wf(),
        final(registry).wf(),
        respond_and_notify_post(
            old(store)@,
            final(store)@,
            *old(registry),
            *final(registry),
            id@,
            subject_view(subject),
            decision,
            r,
        ),
{
    match respond(store, id, subject, decision) {
        Ok(_) => {},
        Err(e) => {
            return Err(e);
        },
    }
    let conn = match registry.take(id) {
        Some(c) => c,
        None => {
            return Ok(None);
        },
    };
    let accepted = matches!(decision, Decision::Accept);
    let msg = crate::notify::outcome_message(accepted);
    Ok(Some((conn, msg.to_owned())))
}

/// Accept a transaction as its buyer and collect the watcher to tell.
pub fn accept_transaction<C>(
    store: &mut Store,
    registry: &mut NotificationRegistry<C>,
    id: &String,
    subject: Option<&String>,
) -> (r: Result<Option<(C, String)>, Error>)
    requires
        old(store).wf(),
        old(registry).wf(),
    ensures
        final(store).wf(),
        final(registry).wf(),
        respond_and_notify_post(
            old(store)@,
            final(store)@,
            *old(registry),
            *final(registry),
            id@,
            subject_view(subject),
            Decision::Accept,
            r,
        ),
{
    respond_and_notify(store, registry, id, subject, Decision::Accept)
}

/// Reject a transaction as its buyer and collect the watcher to tell.
pub fn reject_transaction<C>(
    store: &mut Store,
    registry: &mut NotificationRegistry<C>,
    id: &String,
    subject: Option<&String>,
) -> (r: Result<Option<(C, String)>, Error>)
    requires
        old(store).wf(),
        old(registry).wf(),
    ensures
        final(store).wf(),
        final(registry).wf(),
        respond_and_notify_post(
            old(store)@,
            final(store)@,
            *old(registry),
            *final(registry),
            id@,
            subject_view(subject),
            Decision::Reject,
            r,
        ),
{
    respond_and_notify(store, registry, id, subject, Decision::Reject)
}

/// A transaction someone else owns is out of a caller's reach: when the row
/// behind `id` names a different buyer, resolving is not applicable, so by
/// `respond`'s contract the caller gets `NotFound` — exactly what a missing
/// id gives, never `Unauthorized` — and cannot tell the two apart.
pub proof fn lemma_foreign_buyer_not_applicable(
    txs: Seq<TransactionView>,
    id: Seq<char>,
    caller: Seq<char>,
)
    requires
        contains_transaction(txs, id),
        txs[transaction_index(txs, id)].buyer != caller,
    ensures
        !respond_applicable(txs, id, caller),
{
}

/// A resolved transaction is final: after one successful `respond` moved the
/// row behind `id` to its terminal status, no caller — its buyer included —
/// can resolve it again, whatever the second decision would have been.  A
/// second accept or reject gets `NotFound` and the status stays.
pub proof fn lemma_respond_is_final(
    pre: Seq<TransactionView>,
    post: Seq<TransactionView>,
    id: Seq<char>,
    buyer: Seq<char>,
    decision: Decision,
    caller: Seq<char>,
)
    requires
        forall|a: int, b: int| 0 <= a < b < pre.len() ==> pre[a].id != pre[b].id,
        respond_applicable(pre, id, buyer),
        post == pre.update(
            transaction_index(pre, id),
            (TransactionView {
                status: decided_status(decision),
                ..pre[transaction_index(pre, id)]
            }),
        ),
    ensures
        !respond_applicable(post, id, caller),
        post[transaction_index(post, id)].status == decided_status(decision),
        post[transaction_index(post, id)].status != Status::Pending,
{
    let i = transaction_index(pre, id);
    assert(0 <= i < pre.len() && pre[i].id == id);
    assert(post[i].id == id);
    assert(contains_transaction(post, id));
    let j = transaction_index(post, id);
    assert(0 <= j < post.len() && post[j].id == id);
    if i != j {
        assert(pre[j].id == post[j].id);
        assert(pre[i].id != pre[j].id || i == j);
    }
    assert(j == i);
    assert(post[j].status == decided_status(decision));
}

} // verus!
