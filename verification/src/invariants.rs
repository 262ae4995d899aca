//! Proofs that every operation of the model keeps the store well formed,
//! and the facts about positions and identifiers that they rest on.

use vstd::prelude::*;
use crate::models::{InvoiceView, SubscriptionStatus};
use crate::model::{
    billable, charge, first_not_newer, insertion_point, settled, StoreModel,
};
use crate::plans::{price_cents, PlanId};

verus! {

/// The search for an insertion point from `from` stops at a position
/// between `from` and the length, past invoices that are all newer than
/// `at`, and on an invoice that is not.
pub proof fn lemma_first_not_newer(invoices: Seq<InvoiceView>, at: i64, from: int)
    requires
        0 <= from <= invoices.len(),
    ensures
        from <= first_not_newer(invoices, at, from) <= invoices.len(),
        forall|i: int|
            from <= i < first_not_newer(invoices, at, from) ==> (#[trigger] invoices[i]).issued_at
                > at,
        first_not_newer(invoices, at, from) < invoices.len() ==> invoices[first_not_newer(
            invoices,
            at,
            from,
        )].issued_at <= at,
    decreases invoices.len() - from,
{
    if from < invoices.len() && invoices[from].issued_at > at {
        lemma_first_not_newer(invoices, at, from + 1);
    }
}

/// In a well-formed store an invoice is found at its own position.
pub proof fn lemma_position(store: StoreModel, i: int)
    requires
        store.wf(),
        0 <= i < store.invoices.len(),
    ensures
        store.invoice_id_taken(store.invoices[i].id),
        store.position_of(store.invoices[i].id) == i,
        store.invoice(store.invoices[i].id) == Some(store.invoices[i]),
{
    let id = store.invoices[i].id;
    let p = store.position_of(id);
    assert(0 <= p < store.invoices.len() && store.invoices[p].id == id);
    if p < i {
        assert(store.invoices[p].id != store.invoices[i].id);
    } else if i < p {
        assert(store.invoices[i].id != store.invoices[p].id);
    }
}

/// In a well-formed store a subscription is found again by its identifier.
pub proof fn lemma_holder(store: StoreModel, user: u128)
    requires
        store.wf(),
        store.has_subscription(user),
    ensures
        store.subscription_id_taken(store.subscriptions[user].id),
        store.holder_of(store.subscriptions[user].id) == user,
{
    let id = store.subscriptions[user].id;
    let h = store.holder_of(id);
    assert(store.subscriptions.dom().contains(user) && store.subscriptions[user].id == id);
    assert(store.subscriptions.dom().contains(h) && store.subscriptions[h].id == id);
    assert(store.subscriptions[h].id == store.subscriptions[user].id);
}

/// Filing a billable invoice under an unused identifier keeps the store
/// well formed, adds that identifier and no other, and leaves the
/// subscriptions alone.
pub proof fn lemma_record(store: StoreModel, invoice: InvoiceView)
    requires
        store.wf(),
        billable(invoice),
        !store.invoice_id_taken(invoice.id),
    ensures
        store.record(invoice).wf(),
        store.record(invoice).subscriptions == store.subscriptions,
        store.record(invoice).invoices.len() == store.invoices.len() + 1,
        store.record(invoice).invoice(invoice.id) == Some(invoice),
        forall|id: u128|
            store.record(invoice).invoice_id_taken(id) <==> id == invoice.id
                || store.invoice_id_taken(id),
        forall|id: u128|
            id != invoice.id ==> store.record(invoice).invoice(id) == store.invoice(id),
{
    let k = insertion_point(store.invoices, invoice.issued_at);
    lemma_first_not_newer(store.invoices, invoice.issued_at, 0);
    let after = store.record(invoice);
    assert(after.invoices.len() == store.invoices.len() + 1);
    assert(after.invoices[k] == invoice);
    assert forall|i: int| 0 <= i < after.invoices.len() implies billable(
        #[trigger] after.invoices[i],
    ) by {
        if i < k {
            assert(after.invoices[i] == store.invoices[i]);
        } else if i > k {
            assert(after.invoices[i] == store.invoices[i - 1]);
        }
    }
    assert forall|i: int, j: int|
        #![trigger after.invoices[i], after.invoices[j]]
        0 <= i < j < after.invoices.len() implies after.invoices[i].id != after.invoices[j].id
        && after.invoices[i].issued_at >= after.invoices[j].issued_at by {
        let a = if i < k { i } else { i - 1 };
        let b = if j < k { j } else { j - 1 };
        if i != k {
            assert(after.invoices[i] == store.invoices[a]);
        }
        if j != k {
            assert(after.invoices[j] == store.invoices[b]);
        }
        if i == k {
            assert(store.invoices[b].id != invoice.id);
            if k < store.invoices.len() {
                assert(store.invoices[k].issued_at <= invoice.issued_at);
                if k < b {
                    assert(store.invoices[k].issued_at >= store.invoices[b].issued_at);
                }
            }
        } else if j == k {
            assert(store.invoices[a].id != invoice.id);
            assert(store.invoices[a].issued_at > invoice.issued_at);
        } else {
            assert(a < b);
            assert(store.invoices[a].id != store.invoices[b].id);
        }
    }
    assert(after.wf());
    assert forall|id: u128|
        after.invoice_id_taken(id) <==> id == invoice.id || store.invoice_id_taken(
            id,
        ) by {
        if after.invoice_id_taken(id) {
            let p = after.position_of(id);
            if p < k {
                assert(after.invoices[p] == store.invoices[p]);
            } else if p > k {
                assert(after.invoices[p] == store.invoices[p - 1]);
            }
        }
        if store.invoice_id_taken(id) {
            let p = store.position_of(id);
            if p < k {
                assert(after.invoices[p] == store.invoices[p]);
            } else {
                assert(after.invoices[p + 1] == store.invoices[p]);
            }
        }
        if id == invoice.id {
            assert(after.invoices[k].id == id);
        }
    }
    lemma_position(after, k);
    assert forall|id: u128| id != invoice.id implies after.invoice(id) == store.invoice(id) by {
        if store.invoice_id_taken(id) {
            let p = store.position_of(id);
            let q = if p < k { p } else { p + 1 };
            assert(after.invoices[q] == store.invoices[p]);
            lemma_position(after, q);
            lemma_position(store, p);
        }
    }
}

/// A plan change that the store does not refuse keeps it well formed.
pub proof fn lemma_upsert(
    store: StoreModel,
    user: u128,
    plan: PlanId,
    status: SubscriptionStatus,
    auto_renew: bool,
    now: i64,
    new_id: u128,
    invoice_id: u128,
)
    requires
        store.wf(),
        !store.upsert_blocked(user, plan, new_id, invoice_id),
    ensures
        store.upsert(user, plan, status, auto_renew, now, new_id, invoice_id).wf(),
{
    let row = store.written(user, plan, status, auto_renew, now, new_id);
    let filed = StoreModel { subscriptions: store.subscriptions.insert(user, row), ..store };
    lemma_filing(store, user, row);
    if price_cents(plan) > 0 {
        assert(forall|id: u128| filed.invoice_id_taken(id) == store.invoice_id_taken(id));
        lemma_record(filed, charge(row, now, invoice_id));
    }
}

/// Filing a record that is in step, under its own user and under an
/// identifier that no other user's record bears, keeps the store well
/// formed.
pub proof fn lemma_filing(store: StoreModel, user: u128, row: crate::models::Subscription)
    requires
        store.wf(),
        row.user_id == user,
        crate::model::in_step(row),
        store.has_subscription(user) ==> row.id == store.subscriptions[user].id,
        !store.has_subscription(user) ==> !store.subscription_id_taken(row.id),
    ensures
        (StoreModel { subscriptions: store.subscriptions.insert(user, row), ..store }).wf(),
{
    let filed = StoreModel { subscriptions: store.subscriptions.insert(user, row), ..store };
    assert forall|u: u128, v: u128|
        #![trigger filed.subscriptions[u], filed.subscriptions[v]]
        filed.subscriptions.dom().contains(u) && filed.subscriptions.dom().contains(v)
            && filed.subscriptions[u].id == filed.subscriptions[v].id implies u == v by {
        if u != v {
            if u == user {
                assert(store.subscriptions.dom().contains(v));
                if store.has_subscription(user) {
                    assert(store.subscriptions[user].id == store.subscriptions[v].id);
                } else {
                    assert(store.subscriptions[v].id == row.id);
                }
            } else if v == user {
                assert(store.subscriptions.dom().contains(u));
                if store.has_subscription(user) {
                    assert(store.subscriptions[u].id == store.subscriptions[user].id);
                } else {
                    assert(store.subscriptions[u].id == row.id);
                }
            } else {
                assert(store.subscriptions[u].id == store.subscriptions[v].id);
            }
        }
    }
}

/// A cancellation that the store does not refuse keeps it well formed.
pub proof fn lemma_cancel(store: StoreModel, user: u128, now: i64, new_id: u128)
    requires
        store.wf(),
        !store.creation_blocked(user, new_id),
    ensures
        store.cancel(user, now, new_id).wf(),
{
    lemma_filing(store, user, store.cancelled(user, now, new_id));
}

/// The registration of a user who has no record, under an unused
/// identifier, keeps the store well formed.
pub proof fn lemma_register(store: StoreModel, user: u128, now: i64, new_id: u128)
    requires
        store.wf(),
        !store.has_subscription(user),
        !store.subscription_id_taken(new_id),
    ensures
        store.register(user, now, new_id).wf(),
{
    lemma_filing(store, user, crate::model::free_subscription(new_id, user, true, now));
}

/// The payment of a payable invoice keeps the store well formed, changes
/// that invoice alone, and changes no identifier.
pub proof fn lemma_pay(store: StoreModel, id: u128, now: i64)
    requires
        store.wf(),
        store.payable(id),
    ensures
        store.pay(id, now).wf(),
        store.pay(id, now).invoice(id) == Some(
            settled(store.invoices[store.position_of(id)], now),
        ),
        forall|other: u128|
            store.pay(id, now).invoice_id_taken(other) == store.invoice_id_taken(other),
        forall|other: u128| other != id ==> store.pay(id, now).invoice(other) == store.invoice(other),
{
    let at = store.position_of(id);
    let after = store.pay(id, now);
    assert(0 <= at < store.invoices.len() && store.invoices[at].id == id);
    assert forall|i: int| 0 <= i < after.invoices.len() implies billable(
        #[trigger] after.invoices[i],
    ) by {
        assert(billable(store.invoices[i]));
    }
    assert forall|i: int, j: int|
        #![trigger after.invoices[i], after.invoices[j]]
        0 <= i < j < after.invoices.len() implies after.invoices[i].id != after.invoices[j].id
        && after.invoices[i].issued_at >= after.invoices[j].issued_at by {
        assert(store.invoices[i].id != store.invoices[j].id);
        assert(store.invoices[i].issued_at >= store.invoices[j].issued_at);
    }
    assert forall|other: u128|
        after.invoice_id_taken(other) == store.invoice_id_taken(other) by {
        if after.invoice_id_taken(other) {
            let p = after.position_of(other);
            assert(store.invoices[p].id == other);
        }
        if store.invoice_id_taken(other) {
            let p = store.position_of(other);
            assert(after.invoices[p].id == other);
        }
    }
    lemma_position(after, at);
    assert forall|other: u128| other != id implies after.invoice(other) == store.invoice(
        other,
    ) by {
        if store.invoice_id_taken(other) {
            let p = store.position_of(other);
            assert(after.invoices[p] == store.invoices[p]);
            lemma_position(after, p);
            lemma_position(store, p);
        }
    }
}

/// The deletion of a draft keeps the store well formed and removes that
/// invoice alone.
pub proof fn lemma_delete(store: StoreModel, id: u128)
    requires
        store.wf(),
        store.deletable(id),
    ensures
        store.delete(id).wf(),
        store.delete(id).invoices.len() == store.invoices.len() - 1,
        !store.delete(id).invoice_id_taken(id),
        store.delete(id).invoice(id) is None,
        forall|other: u128|
            other != id ==> store.delete(id).invoice(other) == store.invoice(other),
{
    let at = store.position_of(id);
    let after = store.delete(id);
    assert(0 <= at < store.invoices.len() && store.invoices[at].id == id);
    assert forall|i: int| 0 <= i < after.invoices.len() implies billable(
        #[trigger] after.invoices[i],
    ) by {
        if i < at {
            assert(after.invoices[i] == store.invoices[i]);
        } else {
            assert(after.invoices[i] == store.invoices[i + 1]);
        }
    }
    assert forall|i: int, j: int|
        #![trigger after.invoices[i], after.invoices[j]]
        0 <= i < j < after.invoices.len() implies after.invoices[i].id != after.invoices[j].id
        && after.invoices[i].issued_at >= after.invoices[j].issued_at by {
        let a = if i < at { i } else { i + 1 };
        let b = if j < at { j } else { j + 1 };
        assert(after.invoices[i] == store.invoices[a]);
        assert(after.invoices[j] == store.invoices[b]);
        assert(store.invoices[a].id != store.invoices[b].id);
    }
    if after.invoice_id_taken(id) {
        let p = after.position_of(id);
        let a = if p < at { p } else { p + 1 };
        assert(after.invoices[p] == store.invoices[a]);
        lemma_position(store, a);
        lemma_position(store, at);
    }
    assert forall|other: u128| other != id implies after.invoice(other) == store.invoice(
        other,
    ) by {
        if store.invoice_id_taken(other) {
            let p = store.position_of(other);
            let q = if p < at { p } else { p - 1 };
            assert(after.invoices[q] == store.invoices[p]);
            lemma_position(after, q);
            lemma_position(store, p);
        }
        if after.invoice_id_taken(other) {
            let p = after.position_of(other);
            let a = if p < at { p } else { p + 1 };
            assert(after.invoices[p] == store.invoices[a]);
            assert(store.invoices[a].id == other);
        }
    }
}

} // verus!
