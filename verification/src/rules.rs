//! The rules of billing, one decision at a time: what a plan change
//! writes, what it charges, what a read reports, when an invoice may be
//! created, paid or deleted, and what each refusal says. They hold for any
//! store; the store in memory applies them, and so can any other.

use vstd::prelude::*;
use vstd::string::*;
use crate::errors::AppError;
use crate::model::{
    charge, expiry, free_subscription, opening_state, period_fits, quota_given, reset, rewritten,
    settled, status_admits, summary_given,
};
use crate::models::{
    capped_limit, default_currency, effective_page, lemma_state_names_distinct, limit_or_default,
    page_or_first, state_name, state_of_name,
    CreateInvoiceRequest, Invoice, InvoiceIntent, InvoiceQuery, InvoiceState, InvoiceView,
    QuotaSnapshot, Subscription, SubscriptionStatus, SubscriptionSummary,
    BILLING_PERIOD_SECONDS,
};
use crate::plans::{price_cents, PlanId};
use crate::text::{string_or, text_of};

verus! {

/// The text of the failure that an identifier already in use causes.
pub open spec fn id_conflict_text() -> Seq<char> {
    "Identifier already in use"@
}

/// The text of the failure of a registration for a user who already has a
/// subscription.
pub open spec fn already_registered_text() -> Seq<char> {
    "User already has a subscription"@
}

/// The text of the failure of an invoice for a non-positive amount.
pub open spec fn amount_text() -> Seq<char> {
    "Amount must be positive"@
}

/// The text of the failure of a read of an invoice that does not exist.
pub open spec fn missing_invoice_text() -> Seq<char> {
    "Invoice not found"@
}

/// The text of the failure of a payment.
pub open spec fn not_payable_text() -> Seq<char> {
    "Invoice not found or already paid"@
}

/// The text of the failure of a deletion.
pub open spec fn not_deletable_text() -> Seq<char> {
    "Invoice not found or cannot be deleted (only 'draft' invoices can be deleted)"@
}

/// The text of the failure of a listing with a negative page size.
pub open spec fn negative_limit_text() -> Seq<char> {
    "LIMIT must not be negative"@
}

/// Makes the failure that an identifier already in use causes.
pub fn id_conflict() -> (error: AppError)
    ensures
        error is InternalError,
        error.text() == id_conflict_text(),
{
    AppError::InternalError(String::from_str("Identifier already in use"))
}

/// Makes the failure of a registration for a user who already has a
/// subscription.
pub fn already_registered() -> (error: AppError)
    ensures
        error is InternalError,
        error.text() == already_registered_text(),
{
    AppError::InternalError(String::from_str("User already has a subscription"))
}

/// Makes the failure of an invoice for a non-positive amount.
pub fn amount_not_positive() -> (error: AppError)
    ensures
        error is ValidationError,
        error.text() == amount_text(),
{
    AppError::ValidationError(String::from_str("Amount must be positive"))
}

/// Makes the failure of a read of an invoice that does not exist.
pub fn missing_invoice() -> (error: AppError)
    ensures
        error is NotFound,
        error.text() == missing_invoice_text(),
{
    AppError::NotFound(String::from_str("Invoice not found"))
}

/// Makes the failure of a payment.
pub fn not_payable() -> (error: AppError)
    ensures
        error is NotFound,
        error.text() == not_payable_text(),
{
    AppError::NotFound(String::from_str("Invoice not found or already paid"))
}

/// Makes the failure of a deletion.
pub fn not_deletable() -> (error: AppError)
    ensures
        error is BadRequest,
        error.text() == not_deletable_text(),
{
    AppError::BadRequest(
        String::from_str(
            "Invoice not found or cannot be deleted (only 'draft' invoices can be deleted)",
        ),
    )
}

/// Makes the failure of a listing with a negative page size.
pub fn negative_limit() -> (error: AppError)
    ensures
        error is InternalError,
        error.text() == negative_limit_text(),
{
    AppError::InternalError(String::from_str("LIMIT must not be negative"))
}

/// Computes when a subscription written at `now` runs out.
pub fn expiry_for(plan: PlanId, now: i64) -> (expires_at: Option<i64>)
    requires
        period_fits(now),
    ensures
        expires_at == expiry(plan, now),
{
    if plan == PlanId::Free {
        None
    } else {
        Some(now + BILLING_PERIOD_SECONDS)
    }
}

/// Writes the record that a plan change leaves: a new one under `new_id`
/// where the user has none, else the current one with its plan, status,
/// expiry, renewal, quotas and time of update rewritten.
pub fn rewrite(
    current: Option<Subscription>,
    user_id: u128,
    plan: PlanId,
    status: SubscriptionStatus,
    auto_renew: bool,
    now: i64,
    new_id: u128,
) -> (row: Subscription)
    requires
        period_fits(now),
    ensures
        row == rewritten(current, user_id, plan, status, auto_renew, now, new_id),
{
    match current {
        Some(current) => Subscription {
            id: current.id,
            user_id: current.user_id,
            plan,
            status,
            started_at: current.started_at,
            expires_at: expiry_for(plan, now),
            auto_renew,
            max_projects: Some(plan.max_projects()),
            max_tasks: Some(plan.max_tasks()),
            created_at: current.created_at,
            updated_at: now,
        },
        None => Subscription {
            id: new_id,
            user_id,
            plan,
            status,
            started_at: now,
            expires_at: expiry_for(plan, now),
            auto_renew,
            max_projects: Some(plan.max_projects()),
            max_tasks: Some(plan.max_tasks()),
            created_at: now,
            updated_at: now,
        },
    }
}

/// Writes the record that a cancellation leaves: the current one reset to
/// the free plan, active, with renewal off and no expiry, or a new free
/// one under `new_id` where the user has none.
pub fn reset_to_free(current: Option<Subscription>, user_id: u128, now: i64, new_id: u128) -> (row:
    Subscription)
    ensures
        row == reset(current, user_id, now, new_id),
{
    match current {
        Some(current) => Subscription {
            id: current.id,
            user_id: current.user_id,
            plan: PlanId::Free,
            status: SubscriptionStatus::Active,
            started_at: current.started_at,
            expires_at: None,
            auto_renew: false,
            max_projects: Some(PlanId::Free.max_projects()),
            max_tasks: Some(PlanId::Free.max_tasks()),
            created_at: current.created_at,
            updated_at: now,
        },
        None => Subscription {
            id: new_id,
            user_id,
            plan: PlanId::Free,
            status: SubscriptionStatus::Active,
            started_at: now,
            expires_at: None,
            auto_renew: false,
            max_projects: Some(PlanId::Free.max_projects()),
            max_tasks: Some(PlanId::Free.max_tasks()),
            created_at: now,
            updated_at: now,
        },
    }
}

/// Writes the free subscription that comes with a new account: active,
/// with renewal on.
pub fn open_account(user_id: u128, now: i64, new_id: u128) -> (row: Subscription)
    ensures
        row == free_subscription(new_id, user_id, true, now),
{
    Subscription {
        id: new_id,
        user_id,
        plan: PlanId::Free,
        status: SubscriptionStatus::Active,
        started_at: now,
        expires_at: None,
        auto_renew: true,
        max_projects: Some(PlanId::Free.max_projects()),
        max_tasks: Some(PlanId::Free.max_tasks()),
        created_at: now,
        updated_at: now,
    }
}

/// Makes the invoice that a written record is charged with: one for a
/// paid plan, paid at once, for the plan's monthly price in the default
/// currency and due after one billing period; none for the free plan.
pub fn charge_for(row: &Subscription, now: i64, invoice_id: u128) -> (invoice: Option<Invoice>)
    requires
        period_fits(now),
    ensures
        match invoice {
            Some(invoice) => price_cents(row.plan) > 0 && invoice@ == charge(*row, now, invoice_id),
            None => price_cents(row.plan) == 0,
        },
{
    if row.plan.is_paid() {
        Some(
            Invoice {
                id: invoice_id,
                user_id: row.user_id,
                subscription_id: Some(row.id),
                amount_cents: row.plan.price_cents(),
                currency: String::from_str("USD"),
                status: InvoiceState::Paid,
                issued_at: now,
                due_date: Some(now + BILLING_PERIOD_SECONDS),
                paid_at: None,
            },
        )
    } else {
        None
    }
}

/// Reports a user's subscription: the stored record's fields, or the free
/// default where there is none.
pub fn summary_for(current: Option<Subscription>, user_id: u128) -> (summary: SubscriptionSummary)
    ensures
        summary == summary_given(current, user_id),
{
    match current {
        Some(sub) => SubscriptionSummary {
            user_id: sub.user_id,
            plan: sub.plan,
            status: sub.status,
            expires_at: sub.expires_at,
            auto_renew: sub.auto_renew,
            max_projects: sub.max_projects,
            max_tasks: sub.max_tasks,
        },
        None => SubscriptionSummary {
            user_id,
            plan: PlanId::Free,
            status: SubscriptionStatus::Active,
            expires_at: None,
            auto_renew: false,
            max_projects: Some(PlanId::Free.max_projects()),
            max_tasks: Some(PlanId::Free.max_tasks()),
        },
    }
}

/// Derives the limits in force for a user from the stored subscription,
/// or from the free plan where there is none.
pub fn quota_for(current: Option<Subscription>) -> (quota: QuotaSnapshot)
    ensures
        quota == quota_given(current),
{
    match current {
        Some(sub) => QuotaSnapshot {
            plan: sub.plan,
            subscription_active: sub.status == SubscriptionStatus::Active,
            max_projects: match sub.max_projects {
                Some(projects) => projects,
                None => PlanId::Free.max_projects(),
            },
            max_tasks: match sub.max_tasks {
                Some(tasks) => tasks,
                None => PlanId::Free.max_tasks(),
            },
        },
        None => QuotaSnapshot {
            plan: PlanId::Free,
            subscription_active: false,
            max_projects: PlanId::Free.max_projects(),
            max_tasks: PlanId::Free.max_tasks(),
        },
    }
}

/// The invoice that a manual creation files.
pub open spec fn requested_invoice(
    request: CreateInvoiceRequest,
    intent: InvoiceIntent,
    now: i64,
    id: u128,
) -> InvoiceView {
    InvoiceView {
        id,
        user_id: request.user_id,
        subscription_id: request.subscription_id,
        amount_cents: request.amount_cents,
        currency: match request.currency {
            Some(currency) => currency@,
            None => default_currency(),
        },
        status: opening_state(intent),
        issued_at: now,
        due_date: request.due_date,
        paid_at: None,
    }
}

/// Makes the invoice that a request asks for, as a draft or as issued. A
/// request for an amount that is not positive is refused.
pub fn draft_invoice(request: &CreateInvoiceRequest, intent: InvoiceIntent, now: i64, id: u128) -> (outcome:
    Result<Invoice, AppError>)
    ensures
        match outcome {
            Ok(invoice) => request.amount_cents > 0 && invoice@ == requested_invoice(
                *request,
                intent,
                now,
                id,
            ),
            Err(error) => request.amount_cents <= 0 && error is ValidationError && error.text()
                == amount_text(),
        },
{
    if request.amount_cents <= 0 {
        return Err(amount_not_positive());
    }
    let status = match intent {
        InvoiceIntent::Draft => InvoiceState::Draft,
        InvoiceIntent::Issue => InvoiceState::Issued,
    };
    Ok(
        Invoice {
            id,
            user_id: request.user_id,
            subscription_id: request.subscription_id,
            amount_cents: request.amount_cents,
            currency: string_or(&request.currency, "USD"),
            status,
            issued_at: now,
            due_date: request.due_date,
            paid_at: None,
        },
    )
}

/// Pays an invoice at `now`. An invoice that is paid already is refused.
pub fn settle(invoice: &Invoice, now: i64) -> (outcome: Result<Invoice, AppError>)
    ensures
        match outcome {
            Ok(paid) => invoice.status != InvoiceState::Paid && paid@ == settled(invoice@, now),
            Err(error) => invoice.status == InvoiceState::Paid && error is NotFound && error.text()
                == not_payable_text(),
        },
{
    if invoice.status == InvoiceState::Paid {
        return Err(not_payable());
    }
    Ok(
        Invoice {
            id: invoice.id,
            user_id: invoice.user_id,
            subscription_id: invoice.subscription_id,
            amount_cents: invoice.amount_cents,
            currency: invoice.currency.clone(),
            status: InvoiceState::Paid,
            issued_at: invoice.issued_at,
            due_date: invoice.due_date,
            paid_at: Some(now),
        },
    )
}

/// Tells whether an invoice may be deleted: a draft may, and is named by
/// its identifier; anything else is refused.
pub fn removable(invoice: &Invoice) -> (outcome: Result<u128, AppError>)
    ensures
        match outcome {
            Ok(id) => invoice.status == InvoiceState::Draft && id == invoice.id,
            Err(error) => invoice.status != InvoiceState::Draft && error is BadRequest
                && error.text() == not_deletable_text(),
        },
{
    if invoice.status == InvoiceState::Draft {
        Ok(invoice.id)
    } else {
        Err(not_deletable())
    }
}

/// Which payment states a listing asks for.
#[derive(Clone, Copy, Debug, PartialEq, Eq)]
pub enum StatusChoice {
    /// Every state: the query names none.
    Any,
    /// The one state that the query names.
    Only(InvoiceState),
    /// No state: the query names a status that no invoice can have.
    Nothing,
}

impl StatusChoice {
    /// Whether the choice admits a payment state.
    pub open spec fn admits(self, state: InvoiceState) -> bool {
        match self {
            StatusChoice::Any => true,
            StatusChoice::Only(only) => state == only,
            StatusChoice::Nothing => false,
        }
    }

    /// Tells whether the choice admits a payment state.
    pub fn allows(&self, state: InvoiceState) -> (allowed: bool)
        ensures
            allowed == self.admits(state),
    {
        match self {
            StatusChoice::Any => true,
            StatusChoice::Only(only) => state == *only,
            StatusChoice::Nothing => false,
        }
    }
}

/// The page of a listing that a query asks for.
#[derive(Clone, Copy, Debug, PartialEq, Eq)]
pub struct PageWindow {
    pub page: i64,
    pub limit: i64,
    pub offset: i128,
}

impl InvoiceQuery {
    /// The number of items that precede the page that the query asks for.
    pub open spec fn skipped(&self) -> int {
        (effective_page(self.page) - 1) * capped_limit(self.limit)
    }

    /// Reads the status that the query asks for: every state where it names
    /// none, the state of the name where it names one, and no state where
    /// the name is that of none.
    pub fn status_choice(&self) -> (choice: StatusChoice)
        ensures
            forall|state: InvoiceState|
                #[trigger] choice.admits(state) == status_admits(text_of(self.status), state),
    {
        proof {
            lemma_state_names_distinct();
        }
        match &self.status {
            None => StatusChoice::Any,
            Some(name) => match InvoiceState::parse(name.as_str()) {
                Some(state) => {
                    assert forall|other: InvoiceState|
                        (#[trigger] StatusChoice::Only(state).admits(other)) == status_admits(
                            text_of(self.status),
                            other,
                        ) by {
                        assert(state_of_name(state_name(other)) == Some(other));
                    }
                    StatusChoice::Only(state)
                },
                None => {
                    assert forall|other: InvoiceState|
                        (#[trigger] StatusChoice::Nothing.admits(other)) == status_admits(
                            text_of(self.status),
                            other,
                        ) by {
                        assert(state_of_name(state_name(other)) == Some(other));
                    }
                    StatusChoice::Nothing
                },
            },
        }
    }

    /// Reads the page that the query asks for: the page it names, the
    /// first by default; the size it names, ten by default and a hundred
    /// at most, with no lower bound but zero. A negative size is refused.
    pub fn window(&self) -> (outcome: Result<PageWindow, AppError>)
        ensures
            match outcome {
                Ok(window) => {
                    &&& capped_limit(self.limit) >= 0
                    &&& window.page == effective_page(self.page)
                    &&& window.limit == capped_limit(self.limit)
                    &&& window.offset == self.skipped()
                },
                Err(error) => {
                    &&& capped_limit(self.limit) < 0
                    &&& error is InternalError
                    &&& error.text() == negative_limit_text()
                },
            },
    {
        let page = page_or_first(self.page);
        let limit = limit_or_default(self.limit);
        if limit < 0 {
            return Err(negative_limit());
        }
        assert(0 <= (page - 1) * limit <= 100 * i64::MAX) by (nonlinear_arith)
            requires
                1 <= page <= i64::MAX,
                0 <= limit <= 100,
        ;
        Ok(PageWindow { page, limit, offset: (page as i128 - 1) * (limit as i128) })
    }
}

/// A count as a response reports it: itself, or the largest number that
/// the response can hold.
pub open spec fn reported_count(count: nat) -> i64 {
    if count <= i64::MAX {
        count as i64
    } else {
        i64::MAX
    }
}

/// Reports a count in the width of a response.
pub fn report_count(count: usize) -> (reported: i64)
    ensures
        reported == reported_count(count as nat),
{
    if count as u128 > 0x7fff_ffff_ffff_ffffu128 {
        i64::MAX
    } else {
        count as i64
    }
}

} // verus!
