//! The records that the billing store keeps, and the requests and responses
//! of its operations. Identifiers are 128-bit values, instants are seconds
//! since the Unix epoch, and amounts of money are in cents.

use vstd::prelude::*;
use vstd::string::*;
use crate::plans::PlanId;
use crate::text::same_text;

verus! {

/// The length of one billing period: thirty days, in seconds.
pub const BILLING_PERIOD_SECONDS: i64 = 2_592_000;

/// The currency of an invoice whose request names none.
pub open spec fn default_currency() -> Seq<char> {
    "USD"@
}

/// The state of a subscription.
#[derive(Clone, Copy, Debug, PartialEq, Eq, Structural)]
pub enum SubscriptionStatus {
    Active,
    Cancelled,
}

/// The payment state of an invoice. `Paid` is terminal.
#[derive(Clone, Copy, Debug, PartialEq, Eq, Structural)]
pub enum InvoiceState {
    Draft,
    Issued,
    Paid,
    Overdue,
}

/// What the caller of a manual invoice creation wants the invoice to be.
#[derive(Clone, Copy, Debug, PartialEq, Eq, Structural)]
pub enum InvoiceIntent {
    /// A draft, which may still be deleted.
    Draft,
    /// An invoice issued to the user and awaiting payment.
    Issue,
}

/// The one record that says which plan a user is on.
#[derive(Clone, Copy, Debug, PartialEq, Eq)]
pub struct Subscription {
    pub id: u128,
    pub user_id: u128,
    pub plan: PlanId,
    pub status: SubscriptionStatus,
    pub started_at: i64,
    pub expires_at: Option<i64>,
    pub auto_renew: bool,
    pub max_projects: Option<i32>,
    pub max_tasks: Option<i32>,
    pub created_at: i64,
    pub updated_at: i64,
}

/// What a read of a user's subscription reports: the stored record's
/// fields, or those of the free default where no record exists.
#[derive(Clone, Copy, Debug, PartialEq, Eq)]
pub struct SubscriptionSummary {
    pub user_id: u128,
    pub plan: PlanId,
    pub status: SubscriptionStatus,
    pub expires_at: Option<i64>,
    pub auto_renew: bool,
    pub max_projects: Option<i32>,
    pub max_tasks: Option<i32>,
}

/// The limits in force for a user, derived on every query.
#[derive(Clone, Copy, Debug, PartialEq, Eq)]
pub struct QuotaSnapshot {
    pub plan: PlanId,
    pub subscription_active: bool,
    pub max_projects: i32,
    pub max_tasks: i32,
}

/// A billing record for one charge against a user.
#[derive(Debug, PartialEq, Eq)]
pub struct Invoice {
    pub id: u128,
    pub user_id: u128,
    pub subscription_id: Option<u128>,
    pub amount_cents: i64,
    pub currency: String,
    pub status: InvoiceState,
    pub issued_at: i64,
    pub due_date: Option<i64>,
    pub paid_at: Option<i64>,
}

/// The mathematical content of an [`Invoice`].
pub struct InvoiceView {
    pub id: u128,
    pub user_id: u128,
    pub subscription_id: Option<u128>,
    pub amount_cents: i64,
    pub currency: Seq<char>,
    pub status: InvoiceState,
    pub issued_at: i64,
    pub due_date: Option<i64>,
    pub paid_at: Option<i64>,
}

/// The name of a payment state.
pub open spec fn state_name(state: InvoiceState) -> Seq<char> {
    match state {
        InvoiceState::Draft => "draft"@,
        InvoiceState::Issued => "issued"@,
        InvoiceState::Paid => "paid"@,
        InvoiceState::Overdue => "overdue"@,
    }
}

/// The payment state that a name stands for.
pub open spec fn state_of_name(name: Seq<char>) -> Option<InvoiceState> {
    if name == "draft"@ {
        Some(InvoiceState::Draft)
    } else if name == "issued"@ {
        Some(InvoiceState::Issued)
    } else if name == "paid"@ {
        Some(InvoiceState::Paid)
    } else if name == "overdue"@ {
        Some(InvoiceState::Overdue)
    } else {
        None
    }
}

/// The four names of the payment states are pairwise different, so each
/// state is found again by its own name, and by no other.
pub proof fn lemma_state_names_distinct()
    ensures
        forall|state: InvoiceState| #[trigger] state_of_name(state_name(state)) == Some(state),
        forall|name: Seq<char>|
            (#[trigger] state_of_name(name)) matches Some(state) ==> name == state_name(state),
{
    reveal_strlit("draft");
    reveal_strlit("issued");
    reveal_strlit("paid");
    reveal_strlit("overdue");
    assert("draft"@.len() == 5);
    assert("issued"@.len() == 6);
    assert("paid"@.len() == 4);
    assert("overdue"@.len() == 7);
}

impl InvoiceState {
    /// Reads the name of a payment state.
    pub fn parse(name: &str) -> (state: Option<InvoiceState>)
        ensures
            state == state_of_name(name@),
    {
        if same_text(name, "draft") {
            Some(InvoiceState::Draft)
        } else if same_text(name, "issued") {
            Some(InvoiceState::Issued)
        } else if same_text(name, "paid") {
            Some(InvoiceState::Paid)
        } else if same_text(name, "overdue") {
            Some(InvoiceState::Overdue)
        } else {
            None
        }
    }

    /// Returns the name of the payment state.
    pub fn as_str(&self) -> (name: &'static str)
        ensures
            name@ == state_name(*self),
    {
        match self {
            InvoiceState::Draft => "draft",
            InvoiceState::Issued => "issued",
            InvoiceState::Paid => "paid",
            InvoiceState::Overdue => "overdue",
        }
    }
}

impl View for Invoice {
    type V = InvoiceView;

    open spec fn view(&self) -> InvoiceView {
        InvoiceView {
            id: self.id,
            user_id: self.user_id,
            subscription_id: self.subscription_id,
            amount_cents: self.amount_cents,
            currency: self.currency@,
            status: self.status,
            issued_at: self.issued_at,
            due_date: self.due_date,
            paid_at: self.paid_at,
        }
    }
}

impl Clone for Invoice {
    fn clone(&self) -> (copy: Invoice)
        ensures
            copy@ == self@,
    {
        Invoice {
            id: self.id,
            user_id: self.user_id,
            subscription_id: self.subscription_id,
            amount_cents: self.amount_cents,
            currency: self.currency.clone(),
            status: self.status,
            issued_at: self.issued_at,
            due_date: self.due_date,
            paid_at: self.paid_at,
        }
    }
}

/// An invoice as a listing shows it: with the plan of the subscription that
/// it is linked to.
#[derive(Debug, PartialEq, Eq)]
pub struct InvoiceEntry {
    pub invoice: Invoice,
    pub plan: PlanId,
}

/// The mathematical content of an [`InvoiceEntry`].
pub struct InvoiceEntryView {
    pub invoice: InvoiceView,
    pub plan: PlanId,
}

impl View for InvoiceEntry {
    type V = InvoiceEntryView;

    open spec fn view(&self) -> InvoiceEntryView {
        InvoiceEntryView { invoice: self.invoice@, plan: self.plan }
    }
}

/// The request that puts a user on a plan.
#[derive(Debug)]
pub struct CreateSubscriptionRequest {
    pub user_id: u128,
    pub plan: String,
}

/// The request that changes a user's subscription. A field that is absent
/// takes its default: the free plan, the active status, renewal on.
#[derive(Debug)]
pub struct UpdateSubscriptionRequest {
    pub plan: Option<String>,
    pub status: Option<String>,
    pub auto_renew: Option<bool>,
}

/// The request that records an invoice by hand.
#[derive(Debug)]
pub struct CreateInvoiceRequest {
    pub user_id: u128,
    pub subscription_id: Option<u128>,
    pub amount_cents: i64,
    pub currency: Option<String>,
    pub due_date: Option<i64>,
}

/// What a listing of invoices is asked for: a page, and a status where
/// only the invoices of one status are wanted.
#[derive(Debug)]
pub struct InvoiceQuery {
    pub page: Option<i64>,
    pub limit: Option<i64>,
    pub status: Option<String>,
}

/// One page of a listing, with the number of items in the whole listing.
#[derive(Debug)]
pub struct PaginatedResponse<T> {
    pub data: Vec<T>,
    pub page: i64,
    pub limit: i64,
    pub total: i64,
}

/// The page and page size that a request asks for.
#[derive(Debug)]
pub struct PaginationParams {
    pub page: Option<i64>,
    pub limit: Option<i64>,
}

/// The page that a request means: the one it names, the first where it
/// names none or one before the first.
pub open spec fn effective_page(page: Option<i64>) -> int {
    match page {
        Some(p) => if p < 1 { 1 } else { p as int },
        None => 1,
    }
}

/// The page size that a request means: the one it names, ten where it
/// names none, and never more than a hundred.
pub open spec fn capped_limit(limit: Option<i64>) -> int {
    match limit {
        Some(l) => if l > 100 { 100 } else { l as int },
        None => 10,
    }
}

/// The page size that a request means, kept between one and a hundred.
pub open spec fn effective_limit(limit: Option<i64>) -> int {
    if capped_limit(limit) < 1 {
        1
    } else {
        capped_limit(limit)
    }
}

/// Reads the page that a request means.
pub fn page_or_first(page: Option<i64>) -> (p: i64)
    ensures
        p == effective_page(page),
{
    match page {
        Some(p) => if p < 1 { 1 } else { p },
        None => 1,
    }
}

/// Reads the page size that a request means, before any lower bound.
pub fn limit_or_default(limit: Option<i64>) -> (l: i64)
    ensures
        l == capped_limit(limit),
{
    match limit {
        Some(l) => if l > 100 { 100 } else { l },
        None => 10,
    }
}

impl PaginationParams {
    /// The number of items that precede the requested page.
    pub open spec fn skipped(&self) -> int {
        (effective_page(self.page) - 1) * effective_limit(self.limit)
    }

    /// Returns the requested page, counted from one.
    pub fn page(&self) -> (p: i64)
        ensures
            p == effective_page(self.page),
            p >= 1,
    {
        page_or_first(self.page)
    }

    /// Returns the requested page size, between one and a hundred.
    pub fn limit(&self) -> (l: i64)
        ensures
            l == effective_limit(self.limit),
            1 <= l <= 100,
    {
        let capped = limit_or_default(self.limit);
        if capped < 1 {
            1
        } else {
            capped
        }
    }

    /// Returns the number of items that precede the requested page.
    pub fn offset(&self) -> (skipped: i64)
        requires
            self.skipped() <= i64::MAX,
        ensures
            skipped == self.skipped(),
    {
        let page = self.page();
        let limit = self.limit();
        assert((page - 1) * limit >= 0) by (nonlinear_arith)
            requires
                page >= 1,
                limit >= 1,
        ;
        (page - 1) * limit
    }
}

} // verus!
