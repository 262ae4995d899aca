//! The operations of the billing service as its callers see them: each
//! reads its request, draws the time and the identifiers that it needs, and
//! lets the store do the rest.

use vstd::prelude::*;
use vstd::string::*;
use crate::ambient::{current_time, fresh_id};
use crate::errors::AppError;
use crate::model::{
    charged, filed_invoice, others_kept, page_size, period_fits, settled, status_admits,
    StoreModel,
};
use crate::models::{
    capped_limit, effective_page, CreateInvoiceRequest, CreateSubscriptionRequest, Invoice,
    InvoiceEntry, InvoiceIntent, InvoiceQuery, PaginatedResponse, QuotaSnapshot, Subscription,
    SubscriptionStatus, SubscriptionSummary, UpdateSubscriptionRequest,
};
use crate::plans::{
    all_plans, catalog, catalog_order, get_plan_info, plan_of_name, resolve, PlanId, PlanInfo,
};
use crate::rules::{
    amount_text, id_conflict_text, missing_invoice_text, negative_limit_text, not_deletable_text,
    not_payable_text, reported_count, requested_invoice,
};
use crate::store::{entry_views, BillingStore};
use crate::text::text_of;
use crate::requests::{
    change_plan, change_status, fresh_change, invalid_change_text, invalid_plan_text,
    invalid_status_text, requested_change, PlanChange,
};

verus! {

/// A subscription as a plan change reports it: the stored record and the
/// catalog entry of its plan.
#[derive(Debug, PartialEq, Eq)]
pub struct SubscriptionDetails {
    pub subscription: Subscription,
    pub plan_info: PlanInfo,
}

/// A subscription as a read reports it: the summary and the catalog entry
/// of its plan.
#[derive(Debug, PartialEq, Eq)]
pub struct SubscriptionReport {
    pub summary: SubscriptionSummary,
    pub plan_info: PlanInfo,
}

/// What a cancellation reports.
#[derive(Debug, PartialEq, Eq)]
pub struct CancelReceipt {
    pub message: String,
    pub id: u128,
    pub plan: PlanId,
    pub status: SubscriptionStatus,
}

/// The message of a cancellation, which tells whether a record existed.
pub open spec fn cancel_message(existed: bool) -> Seq<char> {
    if existed {
        "Subscription cancelled, reverted to free"@
    } else {
        "Subscription cancelled and reset to free"@
    }
}

/// Whether a plan change ended as the store prescribes for the time and
/// the identifiers that were drawn.
pub open spec fn placed(
    before: StoreModel,
    after: StoreModel,
    outcome: Result<SubscriptionDetails, AppError>,
    user: u128,
    change: PlanChange,
    now: i64,
    new_id: u128,
    invoice_id: u128,
) -> bool {
    match outcome {
        Ok(details) => {
            &&& !before.upsert_blocked(user, change.plan, new_id, invoice_id)
            &&& details.subscription == before.written(
                user,
                change.plan,
                change.status,
                change.auto_renew,
                now,
                new_id,
            )
            &&& details.plan_info@ == catalog(change.plan)
            &&& after == before.upsert(
                user,
                change.plan,
                change.status,
                change.auto_renew,
                now,
                new_id,
                invoice_id,
            )
            &&& details.subscription.user_id == user
            &&& after.subscriptions[user] == details.subscription
            &&& charged(before, after, details.subscription, now, invoice_id)
        },
        Err(error) => {
            &&& before.upsert_blocked(user, change.plan, new_id, invoice_id)
            &&& after == before
            &&& error is InternalError
            &&& error.text() == id_conflict_text()
        },
    }
}

/// Whether a cancellation ended as the store prescribes for the time and
/// the identifier that were drawn.
pub open spec fn cancelled(
    before: StoreModel,
    after: StoreModel,
    outcome: Result<CancelReceipt, AppError>,
    user: u128,
    now: i64,
    new_id: u128,
) -> bool {
    match outcome {
        Ok(receipt) => {
            &&& !before.creation_blocked(user, new_id)
            &&& after == before.cancel(user, now, new_id)
            &&& receipt.id == before.cancelled(user, now, new_id).id
            &&& receipt.plan == PlanId::Free
            &&& receipt.status == SubscriptionStatus::Active
            &&& receipt.message@ == cancel_message(before.has_subscription(user))
            &&& after.subscriptions[user] == before.cancelled(user, now, new_id)
            &&& after.invoices == before.invoices
        },
        Err(error) => {
            &&& before.creation_blocked(user, new_id)
            &&& after == before
            &&& error is InternalError
            &&& error.text() == id_conflict_text()
        },
    }
}

/// Whether a manual creation of an invoice ended as the store prescribes
/// for the time and the identifier that were drawn.
pub open spec fn invoiced(
    before: StoreModel,
    after: StoreModel,
    outcome: Result<Invoice, AppError>,
    request: CreateInvoiceRequest,
    intent: InvoiceIntent,
    now: i64,
    id: u128,
) -> bool {
    match outcome {
        Ok(invoice) => {
            &&& !before.invoice_id_taken(id)
            &&& invoice@ == requested_invoice(request, intent, now, id)
            &&& after == before.record(invoice@)
            &&& filed_invoice(before, after, invoice@)
        },
        Err(error) => {
            &&& before.invoice_id_taken(id)
            &&& after == before
            &&& error is InternalError
            &&& error.text() == id_conflict_text()
        },
    }
}

/// Whether a payment ended as the store prescribes for the time that was
/// drawn.
pub open spec fn paid_off(
    before: StoreModel,
    after: StoreModel,
    outcome: Result<Invoice, AppError>,
    id: u128,
    now: i64,
) -> bool {
    match outcome {
        Ok(invoice) => {
            &&& before.payable(id)
            &&& after == before.pay(id, now)
            &&& after.invoice(id) == Some(invoice@)
            &&& before.invoice(id) matches Some(unpaid)
            &&& invoice@ == settled(unpaid, now)
            &&& others_kept(before, after, id)
        },
        Err(error) => {
            &&& !before.payable(id)
            &&& after == before
            &&& error is NotFound
            &&& error.text() == not_payable_text()
        },
    }
}

/// Lists the catalog.
pub fn list_plans() -> (plans: Vec<PlanInfo>)
    ensures
        plans@.len() == catalog_order().len(),
        forall|i: int| 0 <= i < plans@.len() ==> #[trigger] plans@[i]@ == catalog(catalog_order()[i]),
{
    all_plans()
}

/// Looks one plan up. A name outside the catalog yields the free plan.
pub fn get_plan(plan_id: &str) -> (info: PlanInfo)
    ensures
        info@ == catalog(resolve(plan_id@)),
{
    get_plan_info(plan_id)
}

/// Puts a user on the plan that the request names, active and with renewal
/// on. A name outside the catalog is refused and the store stays as it
/// was. Otherwise the change is the store's, at the time of the call and
/// under identifiers drawn for it.
pub fn create_subscription(state: &mut BillingStore, body: &CreateSubscriptionRequest) -> (outcome:
    Result<SubscriptionDetails, AppError>)
    requires
        old(state).wf(),
    ensures
        final(state).wf(),
        match plan_of_name(body.plan@) {
            Some(plan) => exists|now: i64, new_id: u128, invoice_id: u128|
                period_fits(now) && #[trigger] placed(
                    old(state)@,
                    final(state)@,
                    outcome,
                    body.user_id,
                    fresh_change(plan),
                    now,
                    new_id,
                    invoice_id,
                ),
            None => {
                &&& final(state)@ == old(state)@
                &&& outcome matches Err(error)
                &&& error is ValidationError
                &&& error.text() == invalid_plan_text(body.plan@)
            },
        },
{
    let plan = match body.plan_id() {
        Ok(plan) => plan,
        Err(error) => {
            return Err(error);
        },
    };
    let change = PlanChange { plan, status: SubscriptionStatus::Active, auto_renew: true };
    apply_change(state, body.user_id, change)
}

/// Changes a user's subscription as the request asks. A request that
/// cannot be read is refused and the store stays as it was. Otherwise the
/// change is the store's, at the time of the call and under identifiers
/// drawn for it: a paid plan is charged with an invoice each time, whether
/// or not the plan changed.
pub fn update_subscription(
    state: &mut BillingStore,
    user_id: u128,
    body: &UpdateSubscriptionRequest,
) -> (outcome: Result<SubscriptionDetails, AppError>)
    requires
        old(state).wf(),
    ensures
        final(state).wf(),
        if change_plan(body.plan) is None {
            &&& final(state)@ == old(state)@
            &&& outcome matches Err(error)
            &&& error is ValidationError
            &&& error.text() == invalid_change_text(body.plan->Some_0@)
        } else if change_status(body.status) is None {
            &&& final(state)@ == old(state)@
            &&& outcome matches Err(error)
            &&& error is InternalError
            &&& error.text() == invalid_status_text(body.status->Some_0@)
        } else {
            exists|now: i64, new_id: u128, invoice_id: u128|
                period_fits(now) && #[trigger] placed(
                    old(state)@,
                    final(state)@,
                    outcome,
                    user_id,
                    requested_change(*body),
                    now,
                    new_id,
                    invoice_id,
                )
        },
{
    let change = match body.change() {
        Ok(change) => change,
        Err(error) => {
            return Err(error);
        },
    };
    apply_change(state, user_id, change)
}

fn apply_change(state: &mut BillingStore, user_id: u128, change: PlanChange) -> (outcome: Result<
    SubscriptionDetails,
    AppError,
>)
    requires
        old(state).wf(),
    ensures
        final(state).wf(),
        exists|now: i64, new_id: u128, invoice_id: u128|
            period_fits(now) && #[trigger] placed(
                old(state)@,
                final(state)@,
                outcome,
                user_id,
                change,
                now,
                new_id,
                invoice_id,
            ),
{
    let now = current_time();
    let new_id = fresh_id();
    let invoice_id = fresh_id();
    let outcome = match state.upsert(
        user_id,
        change.plan,
        change.status,
        change.auto_renew,
        now,
        new_id,
        invoice_id,
    ) {
        Ok(subscription) => Ok(SubscriptionDetails { subscription, plan_info: change.plan.info() }),
        Err(error) => Err(error),
    };
    assert(placed(old(state)@, state@, outcome, user_id, change, now, new_id, invoice_id));
    outcome
}

/// Reads a user's subscription, with the catalog entry of its plan. A user
/// without a record reads as on the free plan; nothing is stored for it.
pub fn get_subscription(state: &BillingStore, user_id: u128) -> (report: SubscriptionReport)
    requires
        state.wf(),
    ensures
        report.summary == state@.summary(user_id),
        report.plan_info@ == catalog(state@.summary(user_id).plan),
{
    let summary = state.get(user_id);
    SubscriptionReport { summary, plan_info: summary.plan.info() }
}

/// Cancels a user's subscription: an immediate return to the free plan,
/// with renewal off. A user without a record gets one in that state, under
/// an identifier drawn for it.
pub fn cancel_subscription(state: &mut BillingStore, user_id: u128) -> (outcome: Result<
    CancelReceipt,
    AppError,
>)
    requires
        old(state).wf(),
    ensures
        final(state).wf(),
        exists|now: i64, new_id: u128| #[trigger]
            cancelled(old(state)@, final(state)@, outcome, user_id, now, new_id),
{
    let now = current_time();
    let new_id = fresh_id();
    let existed = state.find(user_id).is_some();
    let outcome = match state.cancel(user_id, now, new_id) {
        Ok(row) => {
            let message = if existed {
                String::from_str("Subscription cancelled, reverted to free")
            } else {
                String::from_str("Subscription cancelled and reset to free")
            };
            Ok(CancelReceipt { message, id: row.id, plan: row.plan, status: row.status })
        },
        Err(error) => Err(error),
    };
    assert(cancelled(old(state)@, state@, outcome, user_id, now, new_id));
    outcome
}

/// Derives the limits in force for a user. Nothing is stored.
pub fn check_quota(state: &BillingStore, user_id: u128) -> (quota: QuotaSnapshot)
    requires
        state.wf(),
    ensures
        quota == state@.quota(user_id),
{
    state.check_quota(user_id)
}

/// Lists one page of a user's invoices, from the newest to the oldest, and
/// counts the invoices of the listing. Where the query names a status, the
/// page and the count hold only the user's invoices of that status.
pub fn list_invoices(state: &BillingStore, user_id: u128, q: &InvoiceQuery) -> (outcome: Result<
    PaginatedResponse<InvoiceEntry>,
    AppError,
>)
    requires
        state.wf(),
    ensures
        match outcome {
            Ok(page) => {
                &&& capped_limit(q.limit) >= 0
                &&& page.page == effective_page(q.page)
                &&& page.limit == capped_limit(q.limit)
                &&& page.total == reported_count(state@.selected(user_id, text_of(q.status)).len())
                &&& entry_views(page.data@) == state@.listing(
                    user_id,
                    text_of(q.status),
                    (effective_page(q.page) - 1) * capped_limit(q.limit),
                    capped_limit(q.limit),
                )
                &&& page.data@.len() == page_size(
                    state@.selected(user_id, text_of(q.status)).len() as int,
                    (effective_page(q.page) - 1) * capped_limit(q.limit),
                    capped_limit(q.limit),
                )
                &&& forall|i: int|
                    0 <= i < page.data@.len() ==> {
                        &&& (#[trigger] page.data@[i]).invoice@ == state@.selected(
                            user_id,
                            text_of(q.status),
                        )[(effective_page(q.page) - 1) * capped_limit(q.limit) + i]
                        &&& page.data@[i].invoice.user_id == user_id
                        &&& status_admits(text_of(q.status), page.data@[i].invoice.status)
                        &&& page.data@[i].plan == state@.label(page.data@[i].invoice@)
                    }
            },
            Err(error) => {
                &&& capped_limit(q.limit) < 0
                &&& error is InternalError
                &&& error.text() == negative_limit_text()
            },
        },
{
    state.list(user_id, q)
}

/// Reads one invoice.
pub fn get_invoice(state: &BillingStore, invoice_id: u128) -> (outcome: Result<Invoice, AppError>)
    requires
        state.wf(),
    ensures
        match outcome {
            Ok(invoice) => state@.invoice(invoice_id) == Some(invoice@),
            Err(error) => state@.invoice(invoice_id) is None && error is NotFound && error.text()
                == missing_invoice_text(),
        },
{
    state.invoice(invoice_id)
}

/// Records an invoice by hand, as a draft or as issued, at the time of the
/// call and under an identifier drawn for it. A request for an amount that
/// is not positive is refused and the store stays as it was.
pub fn create_invoice(
    state: &mut BillingStore,
    body: &CreateInvoiceRequest,
    intent: InvoiceIntent,
) -> (outcome: Result<Invoice, AppError>)
    requires
        old(state).wf(),
    ensures
        final(state).wf(),
        if body.amount_cents <= 0 {
            &&& final(state)@ == old(state)@
            &&& outcome matches Err(error)
            &&& error is ValidationError
            &&& error.text() == amount_text()
        } else {
            exists|now: i64, id: u128| #[trigger]
                invoiced(old(state)@, final(state)@, outcome, *body, intent, now, id)
        },
{
    let now = current_time();
    let id = fresh_id();
    let outcome = state.create(body, intent, now, id);
    assert(body.amount_cents > 0 ==> invoiced(old(state)@, state@, outcome, *body, intent, now, id));
    outcome
}

/// Marks an invoice as paid at the time of the call. An invoice that does
/// not exist, or that is paid already, is refused.
pub fn pay_invoice(state: &mut BillingStore, invoice_id: u128) -> (outcome: Result<
    Invoice,
    AppError,
>)
    requires
        old(state).wf(),
    ensures
        final(state).wf(),
        exists|now: i64| #[trigger] paid_off(old(state)@, final(state)@, outcome, invoice_id, now),
{
    let now = current_time();
    let outcome = state.pay(invoice_id, now);
    assert(paid_off(old(state)@, state@, outcome, invoice_id, now));
    outcome
}

/// Deletes a draft. An invoice that does not exist, or that is no longer a
/// draft, is refused and the store stays as it was.
pub fn delete_invoice(state: &mut BillingStore, invoice_id: u128) -> (outcome: Result<
    u128,
    AppError,
>)
    requires
        old(state).wf(),
    ensures
        final(state).wf(),
        match outcome {
            Ok(deleted) => {
                &&& deleted == invoice_id
                &&& old(state)@.deletable(invoice_id)
                &&& final(state)@ == old(state)@.delete(invoice_id)
                &&& final(state)@.invoice(invoice_id) is None
                &&& final(state)@.invoices.len() == old(state)@.invoices.len() - 1
                &&& others_kept(old(state)@, final(state)@, invoice_id)
            },
            Err(error) => {
                &&& !old(state)@.deletable(invoice_id)
                &&& final(state)@ == old(state)@
                &&& error is BadRequest
                &&& error.text() == not_deletable_text()
            },
        },
{
    state.delete(invoice_id)
}

} // verus!
