//! The mathematical model of the billing store: what it holds, when that is
//! well formed, and what each operation makes of it. The executable store
//! and every law of the library are stated over this model.

use vstd::prelude::*;
use crate::models::{
    default_currency, state_name, InvoiceEntryView, InvoiceIntent, InvoiceState, InvoiceView, QuotaSnapshot,
    Subscription, SubscriptionStatus, SubscriptionSummary, BILLING_PERIOD_SECONDS,
};
use crate::plans::{price_cents, project_quota, task_quota, PlanId};

verus! {

/// What the store holds: at most one subscription per user, and the
/// invoices from the newest to the oldest.
pub struct StoreModel {
    pub subscriptions: Map<u128, Subscription>,
    pub invoices: Seq<InvoiceView>,
}

/// Whether an instant leaves room for one billing period after it.
pub open spec fn period_fits(now: i64) -> bool {
    now + BILLING_PERIOD_SECONDS <= i64::MAX
}

/// The instant one billing period after another, where the period fits.
pub open spec fn period_end(now: i64) -> i64 {
    (now + BILLING_PERIOD_SECONDS) as i64
}

/// When a subscription written at `now` runs out: never on the free plan,
/// after one billing period on the others.
pub open spec fn expiry(plan: PlanId, now: i64) -> Option<i64> {
    if plan == PlanId::Free {
        None
    } else {
        Some(period_end(now))
    }
}

/// Whether a subscription carries the quotas of its own plan, and an expiry
/// exactly when the plan is a paid one.
pub open spec fn in_step(sub: Subscription) -> bool {
    &&& sub.max_projects matches Some(projects) && projects == project_quota(sub.plan)
    &&& sub.max_tasks matches Some(tasks) && tasks == task_quota(sub.plan)
    &&& (sub.expires_at is None <==> sub.plan == PlanId::Free)
}

/// Whether an invoice is for a positive amount and bears a payment date
/// only when paid.
pub open spec fn billable(invoice: InvoiceView) -> bool {
    &&& invoice.amount_cents > 0
    &&& (invoice.paid_at is Some ==> invoice.status == InvoiceState::Paid)
}

/// Whether a payment state is one that a listing asks for: any state
/// where the listing names none, else the state of that name. A name that
/// no state bears admits nothing.
pub open spec fn status_admits(status: Option<Seq<char>>, state: InvoiceState) -> bool {
    status matches Some(name) ==> state_name(state) == name
}

/// The predicate that picks a user's invoices of the status asked for.
pub open spec fn picked(user: u128, status: Option<Seq<char>>) -> spec_fn(InvoiceView) -> bool {
    |invoice: InvoiceView| invoice.user_id == user && status_admits(status, invoice.status)
}

/// The predicate that picks a user's invoices.
pub open spec fn owned_by(user: u128) -> spec_fn(InvoiceView) -> bool {
    picked(user, None)
}

/// The first position at or after `from` whose invoice was not issued after
/// `at`, or the length where there is none.
pub open spec fn first_not_newer(invoices: Seq<InvoiceView>, at: i64, from: int) -> int
    decreases invoices.len() - from,
{
    if from < 0 || from >= invoices.len() || invoices[from].issued_at <= at {
        from
    } else {
        first_not_newer(invoices, at, from + 1)
    }
}

/// Where a new invoice issued at `at` goes: before every invoice that is
/// not newer than it.
pub open spec fn insertion_point(invoices: Seq<InvoiceView>, at: i64) -> int {
    first_not_newer(invoices, at, 0)
}

/// The part of a listing that a page shows: `limit` items after the first
/// `offset`, or as many as there are.
pub open spec fn window<A>(items: Seq<A>, offset: int, limit: int) -> Seq<A> {
    let start = if offset < items.len() { offset } else { items.len() as int };
    let end = if start + limit < items.len() { start + limit } else { items.len() as int };
    items.subrange(start, end)
}

/// The number of items that a page shows of a listing of `total` items.
pub open spec fn page_size(total: int, offset: int, limit: int) -> int {
    if offset >= total {
        0
    } else if offset + limit <= total {
        limit
    } else {
        total - offset
    }
}

/// The subscription that a registration, or a cancellation without a prior
/// record, creates for a user.
pub open spec fn free_subscription(
    id: u128,
    user: u128,
    auto_renew: bool,
    now: i64,
) -> Subscription {
    Subscription {
        id,
        user_id: user,
        plan: PlanId::Free,
        status: SubscriptionStatus::Active,
        started_at: now,
        expires_at: None,
        auto_renew,
        max_projects: Some(project_quota(PlanId::Free) as i32),
        max_tasks: Some(task_quota(PlanId::Free) as i32),
        created_at: now,
        updated_at: now,
    }
}

/// The record that a plan change writes: a new one under `new_id` where
/// the user has none, else the current one with its plan, status, expiry,
/// renewal, quotas and time of update rewritten.
pub open spec fn rewritten(
    current: Option<Subscription>,
    user: u128,
    plan: PlanId,
    status: SubscriptionStatus,
    auto_renew: bool,
    now: i64,
    new_id: u128,
) -> Subscription {
    match current {
        Some(row) => Subscription {
            plan,
            status,
            expires_at: expiry(plan, now),
            auto_renew,
            max_projects: Some(project_quota(plan) as i32),
            max_tasks: Some(task_quota(plan) as i32),
            updated_at: now,
            ..row
        },
        None => Subscription {
            id: new_id,
            user_id: user,
            plan,
            status,
            started_at: now,
            expires_at: expiry(plan, now),
            auto_renew,
            max_projects: Some(project_quota(plan) as i32),
            max_tasks: Some(task_quota(plan) as i32),
            created_at: now,
            updated_at: now,
        },
    }
}

/// The record that a cancellation leaves: the current one reset to the
/// free plan, active, with renewal off and no expiry, or a new free one
/// under `new_id` where the user has none.
pub open spec fn reset(current: Option<Subscription>, user: u128, now: i64, new_id: u128) -> Subscription {
    match current {
        Some(row) => Subscription {
            plan: PlanId::Free,
            status: SubscriptionStatus::Active,
            expires_at: None,
            auto_renew: false,
            max_projects: Some(project_quota(PlanId::Free) as i32),
            max_tasks: Some(task_quota(PlanId::Free) as i32),
            updated_at: now,
            ..row
        },
        None => free_subscription(new_id, user, false, now),
    }
}

/// The invoice that a change to a paid plan issues: paid at once, for the
/// plan's monthly price, in the default currency.
pub open spec fn charge(sub: Subscription, now: i64, invoice_id: u128) -> InvoiceView {
    InvoiceView {
        id: invoice_id,
        user_id: sub.user_id,
        subscription_id: Some(sub.id),
        amount_cents: price_cents(sub.plan) as i64,
        currency: default_currency(),
        status: InvoiceState::Paid,
        issued_at: now,
        due_date: Some(period_end(now)),
        paid_at: None,
    }
}

/// What a plan change that wrote `row` leaves of the invoices. For a paid
/// plan: one invoice more in the store and among the user's, found under
/// `invoice_id` as the charge for the record and listed under the record's
/// plan, and every other invoice as before. For the free plan: the
/// invoices as before.
pub open spec fn charged(
    before: StoreModel,
    after: StoreModel,
    row: Subscription,
    now: i64,
    invoice_id: u128,
) -> bool {
    if price_cents(row.plan) > 0 {
        &&& after.invoice(invoice_id) == Some(charge(row, now, invoice_id))
        &&& after.invoices.len() == before.invoices.len() + 1
        &&& after.invoices_of(row.user_id).len() == before.invoices_of(row.user_id).len() + 1
        &&& before.invoices_of(row.user_id).len() == 0 ==> after.invoices_of(row.user_id)
            == seq![charge(row, now, invoice_id)]
        &&& after.label(charge(row, now, invoice_id)) == row.plan
        &&& forall|other: u128|
            other != invoice_id ==> #[trigger] after.invoice(other) == before.invoice(other)
    } else {
        after.invoices == before.invoices
    }
}

/// What the filing of one invoice leaves of the store: the invoice is
/// found under its identifier, its owner has one invoice more, and every
/// other invoice and every subscription is as before.
pub open spec fn filed_invoice(before: StoreModel, after: StoreModel, invoice: InvoiceView) -> bool {
    &&& after.invoice(invoice.id) == Some(invoice)
    &&& after.subscriptions == before.subscriptions
    &&& after.invoices.len() == before.invoices.len() + 1
    &&& after.invoices_of(invoice.user_id).len() == before.invoices_of(invoice.user_id).len() + 1
    &&& forall|other: u128|
        other != invoice.id ==> #[trigger] after.invoice(other) == before.invoice(other)
}

/// What a change to one invoice leaves of the rest of the store: every
/// other invoice and every subscription is as before.
pub open spec fn others_kept(before: StoreModel, after: StoreModel, id: u128) -> bool {
    &&& after.subscriptions == before.subscriptions
    &&& forall|other: u128|
        other != id ==> #[trigger] after.invoice(other) == before.invoice(other)
}

/// The state in which an invoice created by hand starts.
pub open spec fn opening_state(intent: InvoiceIntent) -> InvoiceState {
    match intent {
        InvoiceIntent::Draft => InvoiceState::Draft,
        InvoiceIntent::Issue => InvoiceState::Issued,
    }
}

/// What a read reports of a stored subscription.
pub open spec fn summary_of(sub: Subscription) -> SubscriptionSummary {
    SubscriptionSummary {
        user_id: sub.user_id,
        plan: sub.plan,
        status: sub.status,
        expires_at: sub.expires_at,
        auto_renew: sub.auto_renew,
        max_projects: sub.max_projects,
        max_tasks: sub.max_tasks,
    }
}

/// What a read reports of a user who has no subscription: the free plan,
/// active, with no expiry. Nothing is stored for it.
pub open spec fn default_summary(user: u128) -> SubscriptionSummary {
    SubscriptionSummary {
        user_id: user,
        plan: PlanId::Free,
        status: SubscriptionStatus::Active,
        expires_at: None,
        auto_renew: false,
        max_projects: Some(project_quota(PlanId::Free) as i32),
        max_tasks: Some(task_quota(PlanId::Free) as i32),
    }
}

/// What a read reports of a user's subscription: the stored record's
/// fields, or the free default.
pub open spec fn summary_given(current: Option<Subscription>, user: u128) -> SubscriptionSummary {
    match current {
        Some(sub) => summary_of(sub),
        None => default_summary(user),
    }
}

/// The limits in force for a user: those stored with the subscription, or
/// those of the free plan, marked inactive, where there is none.
pub open spec fn quota_given(current: Option<Subscription>) -> QuotaSnapshot {
    match current {
        Some(sub) => QuotaSnapshot {
            plan: sub.plan,
            subscription_active: sub.status == SubscriptionStatus::Active,
            max_projects: match sub.max_projects {
                Some(projects) => projects,
                None => project_quota(PlanId::Free) as i32,
            },
            max_tasks: match sub.max_tasks {
                Some(tasks) => tasks,
                None => task_quota(PlanId::Free) as i32,
            },
        },
        None => QuotaSnapshot {
            plan: PlanId::Free,
            subscription_active: false,
            max_projects: project_quota(PlanId::Free) as i32,
            max_tasks: task_quota(PlanId::Free) as i32,
        },
    }
}

/// An invoice once paid at `now`.
pub open spec fn settled(invoice: InvoiceView, now: i64) -> InvoiceView {
    InvoiceView { status: InvoiceState::Paid, paid_at: Some(now), ..invoice }
}

impl StoreModel {
    /// The store that holds nothing.
    pub open spec fn empty() -> StoreModel {
        StoreModel { subscriptions: Map::empty(), invoices: Seq::empty() }
    }

    /// The invariant of the store: each subscription is filed under its own
    /// user and carries the quotas of its plan, no identifier is used
    /// twice, each invoice is billable, and the invoices stand from the
    /// newest to the oldest.
    pub open spec fn wf(self) -> bool {
        &&& forall|u: u128| #[trigger]
            self.subscriptions.dom().contains(u) ==> self.subscriptions[u].user_id == u && in_step(
                self.subscriptions[u],
            )
        &&& forall|u: u128, v: u128|
            #![trigger self.subscriptions[u], self.subscriptions[v]]
            self.subscriptions.dom().contains(u) && self.subscriptions.dom().contains(v)
                && self.subscriptions[u].id == self.subscriptions[v].id ==> u == v
        &&& forall|i: int| 0 <= i < self.invoices.len() ==> billable(#[trigger] self.invoices[i])
        &&& forall|i: int, j: int|
            #![trigger self.invoices[i], self.invoices[j]]
            0 <= i < j < self.invoices.len() ==> self.invoices[i].id != self.invoices[j].id
        &&& forall|i: int, j: int|
            #![trigger self.invoices[i], self.invoices[j]]
            0 <= i < j < self.invoices.len() ==> self.invoices[i].issued_at
                >= self.invoices[j].issued_at
    }

    /// Whether a user has a stored subscription.
    pub open spec fn has_subscription(self, user: u128) -> bool {
        self.subscriptions.dom().contains(user)
    }

    /// Whether some subscription bears the identifier.
    pub open spec fn subscription_id_taken(self, id: u128) -> bool {
        exists|u: u128| #[trigger]
            self.subscriptions.dom().contains(u) && self.subscriptions[u].id == id
    }

    /// The user whose subscription bears the identifier.
    pub open spec fn holder_of(self, id: u128) -> u128 {
        choose|u: u128| #[trigger]
            self.subscriptions.dom().contains(u) && self.subscriptions[u].id == id
    }

    /// Whether some invoice bears the identifier.
    pub open spec fn invoice_id_taken(self, id: u128) -> bool {
        exists|i: int| 0 <= i < self.invoices.len() && (#[trigger] self.invoices[i]).id == id
    }

    /// The position of the invoice that bears the identifier.
    pub open spec fn position_of(self, id: u128) -> int {
        choose|i: int| 0 <= i < self.invoices.len() && (#[trigger] self.invoices[i]).id == id
    }

    /// The invoice that bears the identifier, if there is one.
    pub open spec fn invoice(self, id: u128) -> Option<InvoiceView> {
        if self.invoice_id_taken(id) {
            Some(self.invoices[self.position_of(id)])
        } else {
            None
        }
    }

    /// The stored subscription of a user, if there is one.
    pub open spec fn current(self, user: u128) -> Option<Subscription> {
        if self.has_subscription(user) {
            Some(self.subscriptions[user])
        } else {
            None
        }
    }

    /// The record that a plan change writes for a user.
    pub open spec fn written(
        self,
        user: u128,
        plan: PlanId,
        status: SubscriptionStatus,
        auto_renew: bool,
        now: i64,
        new_id: u128,
    ) -> Subscription {
        rewritten(self.current(user), user, plan, status, auto_renew, now, new_id)
    }

    /// Whether the store refuses a plan change: the identifier offered for
    /// a new record, or for the invoice of a paid plan, is already in use.
    pub open spec fn upsert_blocked(
        self,
        user: u128,
        plan: PlanId,
        new_id: u128,
        invoice_id: u128,
    ) -> bool {
        ||| !self.has_subscription(user) && self.subscription_id_taken(new_id)
        ||| price_cents(plan) > 0 && self.invoice_id_taken(invoice_id)
    }

    /// The store with one more invoice, filed before every invoice that is
    /// not newer than it.
    pub open spec fn record(self, invoice: InvoiceView) -> StoreModel {
        StoreModel {
            invoices: self.invoices.insert(
                insertion_point(self.invoices, invoice.issued_at),
                invoice,
            ),
            ..self
        }
    }

    /// The store after a plan change that it does not refuse: the user's
    /// record is written, and a paid plan is charged with one invoice.
    pub open spec fn upsert(
        self,
        user: u128,
        plan: PlanId,
        status: SubscriptionStatus,
        auto_renew: bool,
        now: i64,
        new_id: u128,
        invoice_id: u128,
    ) -> StoreModel {
        let row = self.written(user, plan, status, auto_renew, now, new_id);
        let filed = StoreModel { subscriptions: self.subscriptions.insert(user, row), ..self };
        if price_cents(plan) > 0 {
            filed.record(charge(row, now, invoice_id))
        } else {
            filed
        }
    }

    /// The record that a cancellation leaves for a user.
    pub open spec fn cancelled(self, user: u128, now: i64, new_id: u128) -> Subscription {
        reset(self.current(user), user, now, new_id)
    }

    /// Whether the store refuses to file a new record under `new_id` for a
    /// user who has none.
    pub open spec fn creation_blocked(self, user: u128, new_id: u128) -> bool {
        !self.has_subscription(user) && self.subscription_id_taken(new_id)
    }

    /// The store after a cancellation that it does not refuse.
    pub open spec fn cancel(self, user: u128, now: i64, new_id: u128) -> StoreModel {
        StoreModel {
            subscriptions: self.subscriptions.insert(user, self.cancelled(user, now, new_id)),
            ..self
        }
    }

    /// The store after the registration of a user who had no record.
    pub open spec fn register(self, user: u128, now: i64, new_id: u128) -> StoreModel {
        StoreModel {
            subscriptions: self.subscriptions.insert(
                user,
                free_subscription(new_id, user, true, now),
            ),
            ..self
        }
    }

    /// What a read of a user's subscription reports.
    pub open spec fn summary(self, user: u128) -> SubscriptionSummary {
        summary_given(self.current(user), user)
    }

    /// The limits in force for a user.
    pub open spec fn quota(self, user: u128) -> QuotaSnapshot {
        quota_given(self.current(user))
    }

    /// Whether an invoice exists and is not yet paid.
    pub open spec fn payable(self, id: u128) -> bool {
        self.invoice_id_taken(id) && self.invoices[self.position_of(id)].status
            != InvoiceState::Paid
    }

    /// The store after the payment of a payable invoice at `now`.
    pub open spec fn pay(self, id: u128, now: i64) -> StoreModel {
        let at = self.position_of(id);
        StoreModel { invoices: self.invoices.update(at, settled(self.invoices[at], now)), ..self }
    }

    /// Whether an invoice exists and is still a draft.
    pub open spec fn deletable(self, id: u128) -> bool {
        self.invoice_id_taken(id) && self.invoices[self.position_of(id)].status
            == InvoiceState::Draft
    }

    /// The store after the deletion of a draft.
    pub open spec fn delete(self, id: u128) -> StoreModel {
        StoreModel { invoices: self.invoices.remove(self.position_of(id)), ..self }
    }

    /// A user's invoices, from the newest to the oldest.
    pub open spec fn invoices_of(self, user: u128) -> Seq<InvoiceView> {
        self.invoices.filter(owned_by(user))
    }

    /// The plan under which a listing shows an invoice: the current plan of
    /// the subscription that it is linked to, or the free plan where the
    /// link is missing or leads nowhere.
    pub open spec fn label(self, invoice: InvoiceView) -> PlanId {
        match invoice.subscription_id {
            Some(id) => if self.subscription_id_taken(id) {
                self.subscriptions[self.holder_of(id)].plan
            } else {
                PlanId::Free
            },
            None => PlanId::Free,
        }
    }

    /// A user's invoices of the status asked for, from the newest to the
    /// oldest: all of the user's where no status is named.
    pub open spec fn selected(self, user: u128, status: Option<Seq<char>>) -> Seq<InvoiceView> {
        self.invoices.filter(picked(user, status))
    }

    /// One page of a user's invoices of the status asked for, each with
    /// its label.
    pub open spec fn listing(
        self,
        user: u128,
        status: Option<Seq<char>>,
        offset: int,
        limit: int,
    ) -> Seq<InvoiceEntryView> {
        window(self.selected(user, status), offset, limit).map_values(
            |invoice: InvoiceView| InvoiceEntryView { invoice, plan: self.label(invoice) },
        )
    }
}

} // verus!
