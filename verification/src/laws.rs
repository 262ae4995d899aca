//! What holds of the billing store whatever it holds: the laws that relate
//! its operations to the catalog and to one another.

use vstd::prelude::*;
use crate::invariants::{
    lemma_cancel, lemma_delete, lemma_first_not_newer, lemma_holder, lemma_pay, lemma_record,
    lemma_register, lemma_upsert,
};
use crate::model::{
    charge, charged, default_summary, filed_invoice, free_subscription, insertion_point,
    owned_by, page_size, picked, status_admits, window, StoreModel,
};
use crate::models::{
    default_currency, InvoiceEntryView, InvoiceState, InvoiceView, QuotaSnapshot,
    SubscriptionStatus,
};
use crate::plans::{price_cents, project_quota, task_quota, PlanId};

verus! {

/// Filing an invoice adds it to its owner's invoices, at the place that
/// its date gives it, and to nobody else's.
pub proof fn lemma_record_owned(store: StoreModel, invoice: InvoiceView, user: u128)
    ensures
        store.record(invoice).invoices_of(user) == if invoice.user_id == user {
            store.invoices.take(insertion_point(store.invoices, invoice.issued_at)).filter(
                owned_by(user),
            ).push(invoice) + store.invoices.skip(
                insertion_point(store.invoices, invoice.issued_at),
            ).filter(owned_by(user))
        } else {
            store.invoices_of(user)
        },
        store.invoices_of(user) == store.invoices.take(
            insertion_point(store.invoices, invoice.issued_at),
        ).filter(owned_by(user)) + store.invoices.skip(
            insertion_point(store.invoices, invoice.issued_at),
        ).filter(owned_by(user)),
        store.record(invoice).invoices_of(user).len() == store.invoices_of(user).len() + if invoice.user_id
            == user {
            1int
        } else {
            0int
        },
{
    let k = insertion_point(store.invoices, invoice.issued_at);
    lemma_first_not_newer(store.invoices, invoice.issued_at, 0);
    let head = store.invoices.take(k);
    let tail = store.invoices.skip(k);
    let pred = owned_by(user);
    assert(store.invoices =~= head + tail);
    assert(store.record(invoice).invoices =~= head + seq![invoice] + tail);
    Seq::filter_distributes_over_add(head, tail, pred);
    Seq::filter_distributes_over_add(head + seq![invoice], tail, pred);
    Seq::filter_distributes_over_add(head, seq![invoice], pred);
    reveal_with_fuel(Seq::filter, 2);
    assert(seq![invoice].drop_last() =~= Seq::<InvoiceView>::empty());
    if invoice.user_id == user {
        assert(seq![invoice].filter(pred) =~= seq![invoice]);
        assert(head.filter(pred) + seq![invoice] =~= head.filter(pred).push(invoice));
    } else {
        assert(seq![invoice].filter(pred) =~= Seq::<InvoiceView>::empty());
        assert(head.filter(pred) + Seq::<InvoiceView>::empty() =~= head.filter(pred));
    }
}

/// After any plan change that the store accepts, a read of the user's
/// subscription and of the user's quota yields the catalog's limits for
/// the plan that was asked for.
pub proof fn law_change_sets_catalog_quotas(
    store: StoreModel,
    user: u128,
    plan: PlanId,
    status: SubscriptionStatus,
    auto_renew: bool,
    now: i64,
    new_id: u128,
    invoice_id: u128,
)
    ensures
        ({
            let after = store.upsert(user, plan, status, auto_renew, now, new_id, invoice_id);
            &&& after.summary(user).plan == plan
            &&& after.summary(user).max_projects == Some(project_quota(plan) as i32)
            &&& after.summary(user).max_tasks == Some(task_quota(plan) as i32)
            &&& after.quota(user).max_projects == project_quota(plan)
            &&& after.quota(user).max_tasks == task_quota(plan)
        }),
{
}

/// In a well-formed store every stored subscription reads with the
/// catalog's limits for its own plan.
pub proof fn law_stored_quotas_follow_plan(store: StoreModel, user: u128)
    requires
        store.wf(),
        store.has_subscription(user),
    ensures
        store.summary(user).max_projects == Some(project_quota(store.summary(user).plan) as i32),
        store.summary(user).max_tasks == Some(task_quota(store.summary(user).plan) as i32),
        store.quota(user).plan == store.summary(user).plan,
        store.quota(user).max_projects == project_quota(store.quota(user).plan),
        store.quota(user).max_tasks == task_quota(store.quota(user).plan),
{
}

/// A change to a paid plan adds exactly one invoice, to the user's
/// invoices and to the store's: paid, for the plan's price, in the default
/// currency, and linked to the user's subscription. A change to the free
/// plan adds none.
pub proof fn law_paid_change_issues_one_invoice(
    store: StoreModel,
    user: u128,
    plan: PlanId,
    status: SubscriptionStatus,
    auto_renew: bool,
    now: i64,
    new_id: u128,
    invoice_id: u128,
)
    requires
        store.wf(),
        !store.upsert_blocked(user, plan, new_id, invoice_id),
    ensures
        ({
            let after = store.upsert(user, plan, status, auto_renew, now, new_id, invoice_id);
            if price_cents(plan) > 0 {
                &&& after.invoices.len() == store.invoices.len() + 1
                &&& after.invoices_of(user).len() == store.invoices_of(user).len() + 1
                &&& after.invoice(invoice_id) matches Some(issued)
                &&& issued.user_id == user
                &&& issued.status == InvoiceState::Paid
                &&& issued.amount_cents == price_cents(plan)
                &&& issued.currency == default_currency()
                &&& issued.subscription_id == Some(after.subscriptions[user].id)
            } else {
                after.invoices == store.invoices
            }
        }),
{
    let row = store.written(user, plan, status, auto_renew, now, new_id);
    let filed = StoreModel { subscriptions: store.subscriptions.insert(user, row), ..store };
    lemma_upsert(store, user, plan, status, auto_renew, now, new_id, invoice_id);
    if price_cents(plan) > 0 {
        crate::invariants::lemma_filing(store, user, row);
        assert(forall|id: u128| filed.invoice_id_taken(id) == store.invoice_id_taken(id));
        lemma_record(filed, charge(row, now, invoice_id));
        lemma_record_owned(filed, charge(row, now, invoice_id), user);
        assert(filed.invoices_of(user) == store.invoices_of(user));
    }
}

/// A plan change that the store accepts writes the user's record under
/// the user, and is charged as `charged` says.
pub proof fn law_change_is_charged(
    store: StoreModel,
    user: u128,
    plan: PlanId,
    status: SubscriptionStatus,
    auto_renew: bool,
    now: i64,
    new_id: u128,
    invoice_id: u128,
)
    requires
        store.wf(),
        !store.upsert_blocked(user, plan, new_id, invoice_id),
    ensures
        ({
            let row = store.written(user, plan, status, auto_renew, now, new_id);
            let after = store.upsert(user, plan, status, auto_renew, now, new_id, invoice_id);
            &&& after.wf()
            &&& row.user_id == user
            &&& row.plan == plan
            &&& after.has_subscription(user)
            &&& after.subscriptions[user] == row
            &&& charged(store, after, row, now, invoice_id)
        }),
{
    let row = store.written(user, plan, status, auto_renew, now, new_id);
    let after = store.upsert(user, plan, status, auto_renew, now, new_id, invoice_id);
    let filed = StoreModel { subscriptions: store.subscriptions.insert(user, row), ..store };
    lemma_upsert(store, user, plan, status, auto_renew, now, new_id, invoice_id);
    if price_cents(plan) > 0 {
        let issued = charge(row, now, invoice_id);
        crate::invariants::lemma_filing(store, user, row);
        assert(forall|id: u128| filed.invoice_id_taken(id) == store.invoice_id_taken(id));
        assert(forall|id: u128| filed.invoice(id) == store.invoice(id));
        lemma_record(filed, issued);
        lemma_record_owned(filed, issued, user);
        assert(filed.invoices_of(user) == store.invoices_of(user));
        if store.invoices_of(user).len() == 0 {
            let k = insertion_point(filed.invoices, issued.issued_at);
            let head = filed.invoices.take(k).filter(owned_by(user));
            let tail = filed.invoices.skip(k).filter(owned_by(user));
            assert(head.len() + tail.len() == 0);
            assert(after.invoices_of(user) =~= seq![issued]);
        }
        lemma_holder(after, user);
        assert(after.label(issued) == plan);
    }
}

/// The filing of a billable invoice under an unused identifier leaves the
/// store as `filed_invoice` says.
pub proof fn law_invoice_is_filed(store: StoreModel, invoice: InvoiceView)
    requires
        store.wf(),
        crate::model::billable(invoice),
        !store.invoice_id_taken(invoice.id),
    ensures
        store.record(invoice).wf(),
        filed_invoice(store, store.record(invoice), invoice),
{
    lemma_record(store, invoice);
    lemma_record_owned(store, invoice, invoice.user_id);
}

/// Every change that lands on a paid plan bills again, also where the plan
/// did not change: two changes to one paid plan leave the user with two
/// invoices more.
pub proof fn law_each_change_bills_again(
    store: StoreModel,
    user: u128,
    plan: PlanId,
    first_at: i64,
    second_at: i64,
    new_id: u128,
    other_id: u128,
    first_invoice: u128,
    second_invoice: u128,
)
    requires
        store.wf(),
        price_cents(plan) > 0,
        !store.upsert_blocked(user, plan, new_id, first_invoice),
        !store.invoice_id_taken(second_invoice),
        first_invoice != second_invoice,
    ensures
        ({
            let once = store.upsert(
                user,
                plan,
                SubscriptionStatus::Active,
                true,
                first_at,
                new_id,
                first_invoice,
            );
            let twice = once.upsert(
                user,
                plan,
                SubscriptionStatus::Active,
                true,
                second_at,
                other_id,
                second_invoice,
            );
            &&& !once.upsert_blocked(user, plan, other_id, second_invoice)
            &&& once.subscriptions[user].plan == twice.subscriptions[user].plan
            &&& twice.invoices_of(user).len() == store.invoices_of(user).len() + 2
            &&& twice.invoice(first_invoice) is Some
            &&& twice.invoice(second_invoice) is Some
        }),
{
    let active = SubscriptionStatus::Active;
    let once = store.upsert(user, plan, active, true, first_at, new_id, first_invoice);
    law_paid_change_issues_one_invoice(
        store,
        user,
        plan,
        active,
        true,
        first_at,
        new_id,
        first_invoice,
    );
    lemma_upsert(store, user, plan, active, true, first_at, new_id, first_invoice);
    let row = store.written(user, plan, active, true, first_at, new_id);
    let filed = StoreModel { subscriptions: store.subscriptions.insert(user, row), ..store };
    crate::invariants::lemma_filing(store, user, row);
    assert(forall|id: u128| filed.invoice_id_taken(id) == store.invoice_id_taken(id));
    lemma_record(filed, charge(row, first_at, first_invoice));
    assert(once.has_subscription(user));
    assert(!once.invoice_id_taken(second_invoice));
    law_paid_change_issues_one_invoice(
        once,
        user,
        plan,
        active,
        true,
        second_at,
        other_id,
        second_invoice,
    );
    let again = once.written(user, plan, active, true, second_at, other_id);
    let refiled = StoreModel { subscriptions: once.subscriptions.insert(user, again), ..once };
    crate::invariants::lemma_filing(once, user, again);
    assert(forall|id: u128| refiled.invoice_id_taken(id) == once.invoice_id_taken(id));
    lemma_record(refiled, charge(again, second_at, second_invoice));
    assert(refiled.invoice(first_invoice) == once.invoice(first_invoice)) by {
        assert(refiled.invoices == once.invoices);
    }
}

/// A payment is final: the invoice is then paid, dated with the time of
/// the payment, and no longer payable, so that a second payment is
/// refused and leaves the date of the first.
pub proof fn law_payment_is_final(store: StoreModel, id: u128, now: i64)
    requires
        store.wf(),
        store.payable(id),
    ensures
        store.pay(id, now).wf(),
        !store.pay(id, now).payable(id),
        store.pay(id, now).invoice(id) matches Some(paid) && paid.status == InvoiceState::Paid
            && paid.paid_at == Some(now),
{
    lemma_pay(store, id, now);
    let after = store.pay(id, now);
    let at = store.position_of(id);
    assert(after.invoices[at].id == id);
    crate::invariants::lemma_position(after, at);
}

/// No operation leads out of `Paid`: a paid invoice can be neither paid
/// again nor deleted, and it stays as it is through every plan change,
/// cancellation, creation, payment and deletion that the store accepts.
pub proof fn law_paid_is_terminal(
    store: StoreModel,
    id: u128,
    user: u128,
    plan: PlanId,
    status: SubscriptionStatus,
    auto_renew: bool,
    now: i64,
    new_id: u128,
    invoice_id: u128,
    other: InvoiceView,
    target: u128,
)
    requires
        store.wf(),
        store.invoice(id) matches Some(paid) && paid.status == InvoiceState::Paid,
    ensures
        !store.payable(id),
        !store.deletable(id),
        !store.upsert_blocked(user, plan, new_id, invoice_id) ==> store.upsert(
            user,
            plan,
            status,
            auto_renew,
            now,
            new_id,
            invoice_id,
        ).invoice(id) == store.invoice(id),
        store.cancel(user, now, new_id).invoice(id) == store.invoice(id),
        crate::model::billable(other) && !store.invoice_id_taken(other.id) ==> store.record(
            other,
        ).invoice(id) == store.invoice(id),
        store.payable(target) ==> store.pay(target, now).invoice(id) == store.invoice(id),
        store.deletable(target) ==> store.delete(target).invoice(id) == store.invoice(id),
{
    if !store.upsert_blocked(user, plan, new_id, invoice_id) {
        let row = store.written(user, plan, status, auto_renew, now, new_id);
        let filed = StoreModel { subscriptions: store.subscriptions.insert(user, row), ..store };
        if price_cents(plan) > 0 {
            crate::invariants::lemma_filing(store, user, row);
            assert(forall|x: u128| filed.invoice_id_taken(x) == store.invoice_id_taken(x));
            lemma_record(filed, charge(row, now, invoice_id));
            assert(filed.invoice(id) == store.invoice(id));
        }
    }
    if crate::model::billable(other) && !store.invoice_id_taken(other.id) {
        lemma_record(store, other);
    }
    if store.payable(target) {
        lemma_pay(store, target, now);
    }
    if store.deletable(target) {
        lemma_delete(store, target);
    }
}

/// Only a draft can be deleted, and a deleted draft can no longer be read:
/// the store has one invoice less, and every other invoice reads as
/// before.
pub proof fn law_only_drafts_are_deleted(store: StoreModel, id: u128)
    requires
        store.wf(),
    ensures
        store.deletable(id) <==> (store.invoice(id) matches Some(invoice) && invoice.status
            == InvoiceState::Draft),
        store.deletable(id) ==> {
            &&& store.delete(id).wf()
            &&& store.delete(id).invoice(id) is None
            &&& store.delete(id).invoices.len() == store.invoices.len() - 1
            &&& forall|other: u128|
                other != id ==> store.delete(id).invoice(other) == store.invoice(other)
        },
{
    if store.deletable(id) {
        lemma_delete(store, id);
    }
}

/// The cancellation for a user who has no subscription creates one: on
/// the free plan, active, with renewal off and no expiry. For a user who
/// has one it resets the record to that state and keeps its identifier.
/// Either way the user then reads as on the free plan with its limits, and
/// no invoice is touched.
pub proof fn law_cancel_resets_to_free(store: StoreModel, user: u128, now: i64, new_id: u128)
    requires
        store.wf(),
        !store.creation_blocked(user, new_id),
    ensures
        ({
            let after = store.cancel(user, now, new_id);
            &&& after.wf()
            &&& after.has_subscription(user)
            &&& after.subscriptions[user].plan == PlanId::Free
            &&& after.subscriptions[user].status == SubscriptionStatus::Active
            &&& after.subscriptions[user].auto_renew == false
            &&& after.subscriptions[user].expires_at is None
            &&& !store.has_subscription(user) ==> after.subscriptions[user] == free_subscription(
                new_id,
                user,
                false,
                now,
            )
            &&& store.has_subscription(user) ==> after.subscriptions[user].id
                == store.subscriptions[user].id
            &&& after.summary(user).max_projects == Some(3i32)
            &&& after.summary(user).max_tasks == Some(100i32)
            &&& after.invoices == store.invoices
        }),
{
    lemma_cancel(store, user, now, new_id);
}

/// A user without a subscription reads as on the free plan, with its
/// limits of 3 projects and 100 tasks; the quota marks the subscription as
/// not active, the subscription read as active. Neither read is an
/// operation on the store, so no record appears.
pub proof fn law_reads_without_subscription(store: StoreModel, user: u128)
    requires
        !store.has_subscription(user),
    ensures
        store.quota(user) == (QuotaSnapshot {
            plan: PlanId::Free,
            subscription_active: false,
            max_projects: 3,
            max_tasks: 100,
        }),
        store.summary(user) == default_summary(user),
        store.summary(user).plan == PlanId::Free,
        store.summary(user).status == SubscriptionStatus::Active,
        store.summary(user).expires_at is None,
{
}

/// No operation removes a subscription: a user who has a record has one
/// after every plan change, cancellation and registration, whoever it is
/// for, and after every operation on invoices.
pub proof fn law_subscriptions_are_never_removed(
    store: StoreModel,
    holder: u128,
    user: u128,
    plan: PlanId,
    status: SubscriptionStatus,
    auto_renew: bool,
    now: i64,
    new_id: u128,
    invoice_id: u128,
    other: InvoiceView,
)
    requires
        store.has_subscription(holder),
    ensures
        store.upsert(user, plan, status, auto_renew, now, new_id, invoice_id).has_subscription(
            holder,
        ),
        store.cancel(user, now, new_id).has_subscription(holder),
        store.register(user, now, new_id).has_subscription(holder),
        store.record(other).has_subscription(holder),
        store.pay(invoice_id, now).has_subscription(holder),
        store.delete(invoice_id).has_subscription(holder),
{
}

/// What passes a filter stands in the order in which it stood before.
pub proof fn lemma_filter_keeps_order(
    invoices: Seq<InvoiceView>,
    pred: spec_fn(InvoiceView) -> bool,
)
    requires
        forall|i: int, j: int|
            #![trigger invoices[i], invoices[j]]
            0 <= i < j < invoices.len() ==> invoices[i].issued_at >= invoices[j].issued_at,
    ensures
        forall|i: int, j: int|
            #![trigger invoices.filter(pred)[i], invoices.filter(pred)[j]]
            0 <= i < j < invoices.filter(pred).len() ==> invoices.filter(pred)[i].issued_at
                >= invoices.filter(pred)[j].issued_at,
        forall|i: int|
            0 <= i < invoices.filter(pred).len() ==> invoices.len() > 0
                && (#[trigger] invoices.filter(pred)[i]).issued_at >= invoices.last().issued_at,
    decreases invoices.len(),
{
    reveal_with_fuel(Seq::filter, 2);
    if invoices.len() > 0 {
        let front = invoices.drop_last();
        assert forall|i: int, j: int|
            #![trigger front[i], front[j]]
            0 <= i < j < front.len() implies front[i].issued_at >= front[j].issued_at by {
            assert(front[i] == invoices[i] && front[j] == invoices[j]);
        }
        lemma_filter_keeps_order(front, pred);
        let kept = front.filter(pred);
        assert forall|i: int| 0 <= i < kept.len() implies (#[trigger] kept[i]).issued_at
            >= invoices.last().issued_at by {
            assert(front.len() > 0);
            assert(front.last() == invoices[invoices.len() - 2]);
            assert(invoices[invoices.len() - 2].issued_at >= invoices[invoices.len()
                - 1].issued_at);
        }
    }
}

/// A listing shows a user's invoices, all of them the user's own, from
/// the newest to the oldest.
pub proof fn law_listing_is_newest_first(store: StoreModel, user: u128)
    requires
        store.wf(),
    ensures
        forall|i: int|
            0 <= i < store.invoices_of(user).len() ==> (#[trigger] store.invoices_of(
                user,
            )[i]).user_id == user,
        forall|i: int, j: int|
            #![trigger store.invoices_of(user)[i], store.invoices_of(user)[j]]
            0 <= i < j < store.invoices_of(user).len() ==> store.invoices_of(user)[i].issued_at
                >= store.invoices_of(user)[j].issued_at,
{
    lemma_filter_keeps_order(store.invoices, owned_by(user));
    assert forall|i: int| 0 <= i < store.invoices_of(user).len() implies (
    #[trigger] store.invoices_of(user)[i]).user_id == user by {
        store.invoices.lemma_filter_pred(owned_by(user), i);
    }
}

/// A page holds the slice of the listing that its offset and size name: as
/// many invoices as the size allows and the listing still has, each the
/// one that stands that far into the listing, under its label.
pub proof fn law_page_holds_its_slice(
    store: StoreModel,
    user: u128,
    status: Option<Seq<char>>,
    offset: int,
    limit: int,
)
    requires
        0 <= offset,
        0 <= limit,
    ensures
        store.listing(user, status, offset, limit).len() == page_size(
            store.selected(user, status).len() as int,
            offset,
            limit,
        ),
        forall|i: int|
            0 <= i < store.listing(user, status, offset, limit).len() ==> {
                &&& (#[trigger] store.listing(user, status, offset, limit)[i]).invoice
                    == store.selected(user, status)[offset + i]
                &&& store.listing(user, status, offset, limit)[i].plan == store.label(
                    store.selected(user, status)[offset + i],
                )
            },
{
}

/// A listing honours the status that it is asked for: it holds the user's
/// invoices of that status, all of them and no others, from the newest to
/// the oldest. Asked for no status it holds all the user's invoices.
pub proof fn law_listing_honours_status(store: StoreModel, user: u128, status: Option<Seq<char>>)
    requires
        store.wf(),
    ensures
        forall|i: int|
            0 <= i < store.selected(user, status).len() ==> {
                &&& (#[trigger] store.selected(user, status)[i]).user_id == user
                &&& status_admits(status, store.selected(user, status)[i].status)
                &&& store.invoices.contains(store.selected(user, status)[i])
            },
        forall|i: int|
            0 <= i < store.invoices.len() && (#[trigger] store.invoices[i]).user_id == user
                && status_admits(status, store.invoices[i].status) ==> store.selected(
                user,
                status,
            ).contains(store.invoices[i]),
        forall|i: int, j: int|
            #![trigger store.selected(user, status)[i], store.selected(user, status)[j]]
            0 <= i < j < store.selected(user, status).len() ==> store.selected(
                user,
                status,
            )[i].issued_at >= store.selected(user, status)[j].issued_at,
        store.selected(user, None) == store.invoices_of(user),
{
    let wanted = picked(user, status);
    lemma_filter_keeps_order(store.invoices, wanted);
    assert forall|i: int| 0 <= i < store.selected(user, status).len() implies {
        &&& (#[trigger] store.selected(user, status)[i]).user_id == user
        &&& status_admits(status, store.selected(user, status)[i].status)
        &&& store.invoices.contains(store.selected(user, status)[i])
    } by {
        store.invoices.lemma_filter_pred(wanted, i);
        let found = store.selected(user, status)[i];
        assert(store.invoices.filter(wanted).contains(found));
        store.invoices.lemma_filter_contains_rev(wanted, found);
    }
    assert forall|i: int|
        0 <= i < store.invoices.len() && (#[trigger] store.invoices[i]).user_id == user
            && status_admits(status, store.invoices[i].status) implies store.selected(
        user,
        status,
    ).contains(store.invoices[i]) by {
        store.invoices.lemma_filter_contains(wanted, i);
    }
}

/// The life of an account: a user registers and is put on a paid plan; the
/// first page of the user's invoices then shows one invoice, paid, for the
/// plan's price, under the plan's name. The user cancels and reads as on
/// the free plan, active, with its limits; the invoice is still there, and
/// is now listed under the free plan, since a listing shows the current
/// plan of the subscription.
pub proof fn law_account_lifecycle(
    store: StoreModel,
    user: u128,
    plan: PlanId,
    registered_at: i64,
    changed_at: i64,
    cancelled_at: i64,
    subscription_id: u128,
    invoice_id: u128,
    spare_id: u128,
    limit: int,
)
    requires
        store.wf(),
        !store.has_subscription(user),
        !store.subscription_id_taken(subscription_id),
        !store.invoice_id_taken(invoice_id),
        store.invoices_of(user).len() == 0,
        price_cents(plan) > 0,
        limit >= 1,
    ensures
        ({
            let opened = store.register(user, registered_at, subscription_id);
            let upgraded = opened.upsert(
                user,
                plan,
                SubscriptionStatus::Active,
                true,
                changed_at,
                spare_id,
                invoice_id,
            );
            let closed = upgraded.cancel(user, cancelled_at, spare_id);
            let issued = charge(upgraded.subscriptions[user], changed_at, invoice_id);
            &&& opened.summary(user).plan == PlanId::Free
            &&& !opened.upsert_blocked(user, plan, spare_id, invoice_id)
            &&& upgraded.summary(user).plan == plan
            &&& issued.status == InvoiceState::Paid
            &&& issued.amount_cents == price_cents(plan)
            &&& issued.currency == default_currency()
            &&& upgraded.invoices_of(user) == seq![issued]
            &&& upgraded.listing(user, None, 0, limit) == seq![
                InvoiceEntryView { invoice: issued, plan },
            ]
            &&& !upgraded.creation_blocked(user, spare_id)
            &&& closed.wf()
            &&& closed.summary(user).plan == PlanId::Free
            &&& closed.summary(user).status == SubscriptionStatus::Active
            &&& closed.summary(user).max_projects == Some(3i32)
            &&& closed.summary(user).max_tasks == Some(100i32)
            &&& closed.listing(user, None, 0, limit) == seq![
                InvoiceEntryView { invoice: issued, plan: PlanId::Free },
            ]
        }),
{
    let active = SubscriptionStatus::Active;
    let opened = store.register(user, registered_at, subscription_id);
    lemma_register(store, user, registered_at, subscription_id);
    assert(forall|id: u128| opened.invoice_id_taken(id) == store.invoice_id_taken(id));
    let upgraded = opened.upsert(user, plan, active, true, changed_at, spare_id, invoice_id);
    lemma_upsert(opened, user, plan, active, true, changed_at, spare_id, invoice_id);
    let row = opened.written(user, plan, active, true, changed_at, spare_id);
    let filed = StoreModel { subscriptions: opened.subscriptions.insert(user, row), ..opened };
    let issued = charge(row, changed_at, invoice_id);
    lemma_record_owned(filed, issued, user);
    assert(filed.invoices_of(user) == store.invoices_of(user));
    let k = insertion_point(filed.invoices, issued.issued_at);
    let head = filed.invoices.take(k).filter(owned_by(user));
    let tail = filed.invoices.skip(k).filter(owned_by(user));
    assert(head.len() + tail.len() == 0);
    assert(upgraded.invoices_of(user) =~= seq![issued]);
    assert(upgraded.subscriptions[user] == row);
    lemma_holder(upgraded, user);
    assert(upgraded.label(issued) == plan);
    assert(window(seq![issued], 0, limit) =~= seq![issued]);
    assert(upgraded.listing(user, None, 0, limit) =~= seq![InvoiceEntryView { invoice: issued, plan }]);
    let closed = upgraded.cancel(user, cancelled_at, spare_id);
    lemma_cancel(upgraded, user, cancelled_at, spare_id);
    lemma_holder(closed, user);
    assert(closed.invoices_of(user) == upgraded.invoices_of(user));
    assert(closed.label(issued) == PlanId::Free);
    assert(closed.listing(user, None, 0, limit) =~= seq![
        InvoiceEntryView { invoice: issued, plan: PlanId::Free },
    ]);
}

} // verus!
