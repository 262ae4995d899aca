//! The billing store: the subscriptions and the invoice ledger, held in
//! memory, with each operation proved against the model.

use vstd::prelude::*;
use crate::errors::AppError;
use crate::invariants::{
    lemma_cancel, lemma_delete, lemma_filing, lemma_holder, lemma_pay, lemma_position,
    lemma_record, lemma_register, lemma_upsert,
};
use crate::laws::{law_change_is_charged, law_invoice_is_filed, law_page_holds_its_slice};
use crate::model::{
    billable, charged, filed_invoice, first_not_newer, free_subscription, insertion_point,
    others_kept, page_size, period_fits, picked, settled, status_admits, window, StoreModel,
};
use crate::models::{
    capped_limit, effective_page, CreateInvoiceRequest, Invoice, InvoiceEntry, InvoiceEntryView,
    InvoiceIntent, InvoiceQuery, InvoiceState, InvoiceView, PaginatedResponse, QuotaSnapshot,
    Subscription, SubscriptionStatus, SubscriptionSummary,
};
use crate::plans::PlanId;
use crate::rules::{
    already_registered, already_registered_text, amount_text, charge_for, draft_invoice,
    id_conflict, id_conflict_text, missing_invoice, missing_invoice_text, negative_limit_text,
    not_deletable, not_deletable_text, not_payable, not_payable_text, open_account, quota_for,
    removable, report_count, reported_count, requested_invoice, reset_to_free, rewrite, settle,
    summary_for, PageWindow,
};
use crate::text::{lemma_filter_step, text_of};

verus! {

/// The subscriptions of a list, each filed under its user.
pub closed spec fn filed(subs: Seq<Subscription>) -> Map<u128, Subscription> {
    Map::new(
        |u: u128| exists|i: int| 0 <= i < subs.len() && (#[trigger] subs[i]).user_id == u,
        |u: u128|
            subs[choose|i: int| 0 <= i < subs.len() && (#[trigger] subs[i]).user_id == u],
    )
}

/// Whether no two subscriptions of a list belong to one user.
pub closed spec fn one_per_user(subs: Seq<Subscription>) -> bool {
    forall|i: int, j: int|
        #![trigger subs[i], subs[j]]
        0 <= i < j < subs.len() ==> subs[i].user_id != subs[j].user_id
}

/// The contents of a list of invoices.
pub open spec fn views(invoices: Seq<Invoice>) -> Seq<InvoiceView> {
    Seq::new(invoices.len(), |i: int| invoices[i]@)
}

proof fn lemma_filed_at(subs: Seq<Subscription>, i: int)
    requires
        one_per_user(subs),
        0 <= i < subs.len(),
    ensures
        filed(subs).dom().contains(subs[i].user_id),
        filed(subs)[subs[i].user_id] == subs[i],
{
    let u = subs[i].user_id;
    let c = choose|k: int| 0 <= k < subs.len() && (#[trigger] subs[k]).user_id == u;
    assert(0 <= c < subs.len() && subs[c].user_id == u);
    if c < i {
        assert(subs[c].user_id != subs[i].user_id);
    } else if i < c {
        assert(subs[i].user_id != subs[c].user_id);
    }
}

proof fn lemma_filed_push(subs: Seq<Subscription>, row: Subscription)
    requires
        one_per_user(subs),
        !filed(subs).dom().contains(row.user_id),
    ensures
        one_per_user(subs.push(row)),
        filed(subs.push(row)) == filed(subs).insert(row.user_id, row),
{
    let after = subs.push(row);
    assert forall|i: int, j: int|
        #![trigger after[i], after[j]]
        0 <= i < j < after.len() implies after[i].user_id != after[j].user_id by {
        if j == subs.len() {
            assert(after[i] == subs[i]);
            assert(subs[i].user_id != row.user_id);
        } else {
            assert(after[i] == subs[i] && after[j] == subs[j]);
        }
    }
    assert forall|u: u128|
        filed(after).dom().contains(u) <==> #[trigger] filed(subs).insert(
            row.user_id,
            row,
        ).dom().contains(u) by {
        if filed(after).dom().contains(u) {
            let k = choose|k: int| 0 <= k < after.len() && (#[trigger] after[k]).user_id == u;
            if k < subs.len() {
                assert(after[k] == subs[k]);
                assert(subs[k].user_id == u);
            }
        }
        if filed(subs).dom().contains(u) {
            let k = choose|k: int| 0 <= k < subs.len() && (#[trigger] subs[k]).user_id == u;
            assert(after[k].user_id == u);
        }
        if u == row.user_id {
            assert(after[subs.len() as int].user_id == u);
        }
    }
    assert forall|u: u128| filed(after).dom().contains(u) implies #[trigger] filed(after)[u]
        == filed(subs).insert(row.user_id, row)[u] by {
        let k = choose|k: int| 0 <= k < after.len() && (#[trigger] after[k]).user_id == u;
        lemma_filed_at(after, k);
        if k < subs.len() {
            assert(after[k] == subs[k]);
            lemma_filed_at(subs, k);
        }
    }
    assert(filed(after) =~= filed(subs).insert(row.user_id, row));
}

proof fn lemma_filed_update(subs: Seq<Subscription>, at: int, row: Subscription)
    requires
        one_per_user(subs),
        0 <= at < subs.len(),
        subs[at].user_id == row.user_id,
    ensures
        one_per_user(subs.update(at, row)),
        filed(subs.update(at, row)) == filed(subs).insert(row.user_id, row),
{
    let after = subs.update(at, row);
    assert forall|i: int, j: int|
        #![trigger after[i], after[j]]
        0 <= i < j < after.len() implies after[i].user_id != after[j].user_id by {
        assert(subs[i].user_id != subs[j].user_id);
    }
    assert forall|u: u128|
        filed(after).dom().contains(u) <==> #[trigger] filed(subs).insert(
            row.user_id,
            row,
        ).dom().contains(u) by {
        if filed(after).dom().contains(u) {
            let k = choose|k: int| 0 <= k < after.len() && (#[trigger] after[k]).user_id == u;
            assert(subs[k].user_id == u);
        }
        if filed(subs).dom().contains(u) {
            let k = choose|k: int| 0 <= k < subs.len() && (#[trigger] subs[k]).user_id == u;
            assert(after[k].user_id == u);
        }
        if u == row.user_id {
            assert(after[at].user_id == u);
        }
    }
    assert forall|u: u128| filed(after).dom().contains(u) implies #[trigger] filed(after)[u]
        == filed(subs).insert(row.user_id, row)[u] by {
        let k = choose|k: int| 0 <= k < after.len() && (#[trigger] after[k]).user_id == u;
        lemma_filed_at(after, k);
        if k != at {
            assert(after[k] == subs[k]);
            lemma_filed_at(subs, k);
        }
    }
    assert(filed(after) =~= filed(subs).insert(row.user_id, row));
}

/// The subscriptions and the invoices of every user.
pub struct BillingStore {
    subscriptions: Vec<Subscription>,
    invoices: Vec<Invoice>,
}

impl View for BillingStore {
    type V = StoreModel;

    closed spec fn view(&self) -> StoreModel {
        StoreModel { subscriptions: filed(self.subscriptions@), invoices: views(self.invoices@) }
    }
}

impl BillingStore {
    /// Whether the store holds its subscriptions with one entry per user.
    pub closed spec fn filed_once(&self) -> bool {
        one_per_user(self.subscriptions@)
    }

    /// The invariant of the store: its contents are well formed, and held
    /// with one entry per user.
    pub open spec fn wf(&self) -> bool {
        &&& self.filed_once()
        &&& self@.wf()
    }

    /// Makes a store that holds nothing.
    pub fn new() -> (store: BillingStore)
        ensures
            store.wf(),
            store@ == StoreModel::empty(),
    {
        let store = BillingStore { subscriptions: Vec::new(), invoices: Vec::new() };
        assert(store@.subscriptions =~= Map::empty());
        assert(store@.invoices =~= Seq::empty());
        store
    }

    fn subscription_index(&self, user_id: u128) -> (found: Option<usize>)
        requires
            self.wf(),
        ensures
            match found {
                Some(at) => at < self.subscriptions@.len() && self.subscriptions@[at as int].user_id
                    == user_id && self@.has_subscription(user_id) && self@.subscriptions[user_id]
                    == self.subscriptions@[at as int],
                None => !self@.has_subscription(user_id),
            },
    {
        let mut at: usize = 0;
        while at < self.subscriptions.len()
            invariant
                at <= self.subscriptions@.len(),
                self.wf(),
                forall|k: int| 0 <= k < at ==> (#[trigger] self.subscriptions@[k]).user_id != user_id,
            decreases self.subscriptions@.len() - at,
        {
            if self.subscriptions[at].user_id == user_id {
                proof {
                    lemma_filed_at(self.subscriptions@, at as int);
                }
                return Some(at);
            }
            at += 1;
        }
        None
    }

    fn subscription_id_in_use(&self, id: u128) -> (found: Option<usize>)
        requires
            self.wf(),
        ensures
            match found {
                Some(at) => at < self.subscriptions@.len() && self.subscriptions@[at as int].id == id
                    && self@.subscription_id_taken(id) && self@.subscriptions[self@.holder_of(id)]
                    == self.subscriptions@[at as int],
                None => !self@.subscription_id_taken(id),
            },
    {
        let mut at: usize = 0;
        while at < self.subscriptions.len()
            invariant
                at <= self.subscriptions@.len(),
                self.wf(),
                forall|k: int| 0 <= k < at ==> (#[trigger] self.subscriptions@[k]).id != id,
            decreases self.subscriptions@.len() - at,
        {
            if self.subscriptions[at].id == id {
                proof {
                    let row = self.subscriptions@[at as int];
                    lemma_filed_at(self.subscriptions@, at as int);
                    lemma_holder(self@, row.user_id);
                }
                return Some(at);
            }
            at += 1;
        }
        proof {
            if self@.subscription_id_taken(id) {
                let u = self@.holder_of(id);
                let k = choose|k: int|
                    0 <= k < self.subscriptions@.len() && (#[trigger] self.subscriptions@[k]).user_id
                        == u;
                lemma_filed_at(self.subscriptions@, k);
            }
        }
        None
    }

    /// Returns the stored subscription of a user, if there is one.
    pub fn find(&self, user_id: u128) -> (found: Option<Subscription>)
        requires
            self.wf(),
        ensures
            match found {
                Some(sub) => self@.has_subscription(user_id) && sub == self@.subscriptions[user_id],
                None => !self@.has_subscription(user_id),
            },
    {
        match self.subscription_index(user_id) {
            Some(at) => Some(self.subscriptions[at]),
            None => None,
        }
    }

    /// Reads a user's subscription: the stored record's fields, or the free
    /// default, which is not stored.
    pub fn get(&self, user_id: u128) -> (summary: SubscriptionSummary)
        requires
            self.wf(),
        ensures
            summary == self@.summary(user_id),
    {
        summary_for(self.find(user_id), user_id)
    }

    /// Derives the limits in force for a user. Nothing is stored.
    pub fn check_quota(&self, user_id: u128) -> (quota: QuotaSnapshot)
        requires
            self.wf(),
        ensures
            quota == self@.quota(user_id),
    {
        quota_for(self.find(user_id))
    }
}

impl BillingStore {
    fn put(&mut self, found: Option<usize>, row: Subscription)
        requires
            old(self).wf(),
            match found {
                Some(at) => at < old(self).subscriptions@.len() && old(self).subscriptions@[at as int].user_id
                    == row.user_id,
                None => !old(self)@.has_subscription(row.user_id),
            },
        ensures
            final(self).filed_once(),
            final(self)@ == (StoreModel {
                subscriptions: old(self)@.subscriptions.insert(row.user_id, row),
                ..old(self)@
            }),
    {
        match found {
            Some(at) => {
                proof {
                    lemma_filed_update(self.subscriptions@, at as int, row);
                }
                self.subscriptions.set(at, row);
            },
            None => {
                proof {
                    lemma_filed_push(self.subscriptions@, row);
                }
                self.subscriptions.push(row);
            },
        }
    }

    /// Puts a user on a plan. The user's record is created under `new_id`
    /// if absent, rewritten if present; a paid plan is charged with one
    /// paid invoice under `invoice_id`. An identifier already in use makes
    /// the whole change fail and leaves the store as it was.
    pub fn upsert(
        &mut self,
        user_id: u128,
        plan: PlanId,
        status: SubscriptionStatus,
        auto_renew: bool,
        now: i64,
        new_id: u128,
        invoice_id: u128,
    ) -> (outcome: Result<Subscription, AppError>)
        requires
            old(self).wf(),
            period_fits(now),
        ensures
            final(self).wf(),
            match outcome {
                Ok(row) => {
                    &&& !old(self)@.upsert_blocked(user_id, plan, new_id, invoice_id)
                    &&& row == old(self)@.written(user_id, plan, status, auto_renew, now, new_id)
                    &&& final(self)@ == old(self)@.upsert(
                        user_id,
                        plan,
                        status,
                        auto_renew,
                        now,
                        new_id,
                        invoice_id,
                    )
                    &&& row.user_id == user_id
                    &&& final(self)@.subscriptions[user_id] == row
                    &&& charged(old(self)@, final(self)@, row, now, invoice_id)
                },
                Err(error) => {
                    &&& old(self)@.upsert_blocked(user_id, plan, new_id, invoice_id)
                    &&& final(self)@ == old(self)@
                    &&& error is InternalError
                    &&& error.text() == id_conflict_text()
                },
            },
    {
        let found = self.subscription_index(user_id);
        let paid = plan.is_paid();
        if found.is_none() && self.subscription_id_in_use(new_id).is_some() {
            return Err(id_conflict());
        }
        if paid && self.invoice_index(invoice_id).is_some() {
            return Err(id_conflict());
        }
        let current = match found {
            Some(at) => Some(self.subscriptions[at]),
            None => None,
        };
        let row = rewrite(current, user_id, plan, status, auto_renew, now, new_id);
        proof {
            lemma_upsert(self@, user_id, plan, status, auto_renew, now, new_id, invoice_id);
            lemma_filing(self@, user_id, row);
            law_change_is_charged(self@, user_id, plan, status, auto_renew, now, new_id, invoice_id);
        }
        self.put(found, row);
        match charge_for(&row, now, invoice_id) {
            Some(invoice) => {
                assert(forall|id: u128|
                    self@.invoice_id_taken(id) == old(self)@.invoice_id_taken(id));
                self.file(invoice);
            },
            None => {},
        }
        Ok(row)
    }

    /// Cancels a user's subscription: the record is reset to the free plan,
    /// active, with renewal off and no expiry. A user without a record
    /// gets one in that state under `new_id`; if that identifier is in use
    /// the cancellation fails and the store stays as it was.
    pub fn cancel(&mut self, user_id: u128, now: i64, new_id: u128) -> (outcome: Result<
        Subscription,
        AppError,
    >)
        requires
            old(self).wf(),
        ensures
            final(self).wf(),
            match outcome {
                Ok(row) => {
                    &&& !old(self)@.creation_blocked(user_id, new_id)
                    &&& row == old(self)@.cancelled(user_id, now, new_id)
                    &&& final(self)@ == old(self)@.cancel(user_id, now, new_id)
                    &&& row.user_id == user_id
                    &&& final(self)@.subscriptions[user_id] == row
                    &&& final(self)@.invoices == old(self)@.invoices
                },
                Err(error) => {
                    &&& old(self)@.creation_blocked(user_id, new_id)
                    &&& final(self)@ == old(self)@
                    &&& error is InternalError
                    &&& error.text() == id_conflict_text()
                },
            },
    {
        let found = self.subscription_index(user_id);
        if found.is_none() && self.subscription_id_in_use(new_id).is_some() {
            return Err(id_conflict());
        }
        let current = match found {
            Some(at) => Some(self.subscriptions[at]),
            None => None,
        };
        let row = reset_to_free(current, user_id, now, new_id);
        proof {
            lemma_cancel(self@, user_id, now, new_id);
        }
        self.put(found, row);
        Ok(row)
    }

    /// Files the free subscription that comes with a new account: active,
    /// with renewal on. A user who already has a record, or an identifier
    /// already in use, makes the registration fail and leaves the store as
    /// it was.
    pub fn register(&mut self, user_id: u128, now: i64, new_id: u128) -> (outcome: Result<
        Subscription,
        AppError,
    >)
        requires
            old(self).wf(),
        ensures
            final(self).wf(),
            match outcome {
                Ok(row) => {
                    &&& !old(self)@.has_subscription(user_id)
                    &&& !old(self)@.subscription_id_taken(new_id)
                    &&& row == free_subscription(new_id, user_id, true, now)
                    &&& final(self)@ == old(self)@.register(user_id, now, new_id)
                },
                Err(error) => {
                    &&& final(self)@ == old(self)@
                    &&& error is InternalError
                    &&& if old(self)@.has_subscription(user_id) {
                        error.text() == already_registered_text()
                    } else {
                        old(self)@.subscription_id_taken(new_id) && error.text()
                            == id_conflict_text()
                    }
                },
            },
    {
        if self.subscription_index(user_id).is_some() {
            return Err(already_registered());
        }
        if self.subscription_id_in_use(new_id).is_some() {
            return Err(id_conflict());
        }
        let row = open_account(user_id, now, new_id);
        proof {
            lemma_register(self@, user_id, now, new_id);
        }
        self.put(None, row);
        Ok(row)
    }

    fn invoice_index(&self, id: u128) -> (found: Option<usize>)
        requires
            self.wf(),
        ensures
            match found {
                Some(at) => at < self.invoices@.len() && self.invoices@[at as int].id == id
                    && self@.invoice_id_taken(id) && self@.position_of(id) == at,
                None => !self@.invoice_id_taken(id),
            },
    {
        let mut at: usize = 0;
        while at < self.invoices.len()
            invariant
                at <= self.invoices@.len(),
                self.wf(),
                forall|k: int| 0 <= k < at ==> (#[trigger] self@.invoices[k]).id != id,
            decreases self.invoices@.len() - at,
        {
            if self.invoices[at].id == id {
                proof {
                    assert(self@.invoices[at as int].id == id);
                    lemma_position(self@, at as int);
                }
                return Some(at);
            }
            assert(self@.invoices[at as int].id != id);
            at += 1;
        }
        None
    }

    fn file(&mut self, invoice: Invoice)
        requires
            old(self).wf(),
            billable(invoice@),
            !old(self)@.invoice_id_taken(invoice.id),
        ensures
            final(self).wf(),
            final(self)@ == old(self)@.record(invoice@),
    {
        let mut at: usize = 0;
        while at < self.invoices.len() && self.invoices[at].issued_at > invoice.issued_at
            invariant
                at <= self.invoices@.len(),
                *self == *old(self),
                first_not_newer(self@.invoices, invoice.issued_at, 0)
                    == first_not_newer(self@.invoices, invoice.issued_at, at as int),
            decreases self.invoices@.len() - at,
        {
            assert(self@.invoices[at as int].issued_at == self.invoices@[at as int].issued_at);
            at += 1;
        }
        proof {
            if at < self.invoices@.len() {
                assert(self@.invoices[at as int].issued_at == self.invoices@[at as int].issued_at);
            }
            assert(insertion_point(self@.invoices, invoice.issued_at) == at);
            lemma_record(self@, invoice@);
            assert(views(self.invoices@.insert(at as int, invoice)) =~= self@.invoices.insert(
                at as int,
                invoice@,
            ));
        }
        self.invoices.insert(at, invoice);
    }
}

/// The contents of a list of entries.
pub open spec fn entry_views(entries: Seq<InvoiceEntry>) -> Seq<InvoiceEntryView> {
    Seq::new(entries.len(), |i: int| entries[i]@)
}

/// A page grows by the item that joins a listing exactly when that item
/// falls inside the page.
pub proof fn lemma_window_push<A>(items: Seq<A>, item: A, offset: int, limit: int)
    requires
        0 <= offset,
        0 <= limit,
    ensures
        window(items.push(item), offset, limit) == if offset <= items.len() < offset + limit {
            window(items, offset, limit).push(item)
        } else {
            window(items, offset, limit)
        },
{
    if offset <= items.len() < offset + limit {
        assert(window(items.push(item), offset, limit) =~= window(items, offset, limit).push(
            item,
        ));
    } else {
        assert(window(items.push(item), offset, limit) =~= window(items, offset, limit));
    }
}

impl BillingStore {
    /// Records an invoice by hand, as a draft or as issued. The amount must
    /// be positive; an identifier already in use makes the creation fail.
    /// On failure the store stays as it was.
    pub fn create(
        &mut self,
        request: &CreateInvoiceRequest,
        intent: InvoiceIntent,
        now: i64,
        id: u128,
    ) -> (outcome: Result<Invoice, AppError>)
        requires
            old(self).wf(),
        ensures
            final(self).wf(),
            match outcome {
                Ok(invoice) => {
                    &&& request.amount_cents > 0
                    &&& !old(self)@.invoice_id_taken(id)
                    &&& invoice@ == requested_invoice(*request, intent, now, id)
                    &&& final(self)@ == old(self)@.record(invoice@)
                    &&& filed_invoice(old(self)@, final(self)@, invoice@)
                },
                Err(error) => {
                    &&& final(self)@ == old(self)@
                    &&& if request.amount_cents <= 0 {
                        error is ValidationError && error.text() == amount_text()
                    } else {
                        old(self)@.invoice_id_taken(id) && error is InternalError && error.text()
                            == id_conflict_text()
                    }
                },
            },
    {
        let invoice = match draft_invoice(request, intent, now, id) {
            Ok(invoice) => invoice,
            Err(error) => {
                return Err(error);
            },
        };
        if self.invoice_index(id).is_some() {
            return Err(id_conflict());
        }
        let receipt = invoice.clone();
        proof {
            law_invoice_is_filed(self@, invoice@);
        }
        self.file(invoice);
        Ok(receipt)
    }

    /// Reads one invoice.
    pub fn invoice(&self, id: u128) -> (outcome: Result<Invoice, AppError>)
        requires
            self.wf(),
        ensures
            match outcome {
                Ok(invoice) => self@.invoice(id) == Some(invoice@),
                Err(error) => self@.invoice(id) is None && error is NotFound && error.text()
                    == missing_invoice_text(),
            },
    {
        match self.invoice_index(id) {
            Some(at) => {
                let invoice = self.invoices[at].clone();
                assert(self@.invoices[at as int] == self.invoices@[at as int]@);
                Ok(invoice)
            },
            None => Err(missing_invoice()),
        }
    }

    /// Marks an invoice as paid at `now`. An invoice that does not exist,
    /// or that is paid already, is refused, and the store stays as it was.
    pub fn pay(&mut self, id: u128, now: i64) -> (outcome: Result<Invoice, AppError>)
        requires
            old(self).wf(),
        ensures
            final(self).wf(),
            match outcome {
                Ok(invoice) => {
                    &&& old(self)@.payable(id)
                    &&& final(self)@ == old(self)@.pay(id, now)
                    &&& final(self)@.invoice(id) == Some(invoice@)
                    &&& old(self)@.invoice(id) matches Some(unpaid)
                    &&& invoice@ == settled(unpaid, now)
                    &&& others_kept(old(self)@, final(self)@, id)
                },
                Err(error) => {
                    &&& !old(self)@.payable(id)
                    &&& final(self)@ == old(self)@
                    &&& error is NotFound
                    &&& error.text() == not_payable_text()
                },
            },
    {
        let found = self.invoice_index(id);
        match found {
            Some(at) => {
                assert(self@.invoices[at as int] == self.invoices@[at as int]@);
                match settle(&self.invoices[at], now) {
                    Ok(paid) => {
                        let receipt = paid.clone();
                        proof {
                            lemma_pay(self@, id, now);
                            assert(views(self.invoices@.update(at as int, paid))
                                =~= self@.invoices.update(at as int, paid@));
                        }
                        self.invoices.set(at, paid);
                        Ok(receipt)
                    },
                    Err(error) => Err(error),
                }
            },
            None => Err(not_payable()),
        }
    }

    /// Deletes a draft. An invoice that does not exist, or that is no
    /// longer a draft, is refused, and the store stays as it was.
    pub fn delete(&mut self, id: u128) -> (outcome: Result<u128, AppError>)
        requires
            old(self).wf(),
        ensures
            final(self).wf(),
            match outcome {
                Ok(deleted) => {
                    &&& deleted == id
                    &&& old(self)@.deletable(id)
                    &&& final(self)@ == old(self)@.delete(id)
                    &&& final(self)@.invoice(id) is None
                    &&& final(self)@.invoices.len() == old(self)@.invoices.len() - 1
                    &&& others_kept(old(self)@, final(self)@, id)
                },
                Err(error) => {
                    &&& !old(self)@.deletable(id)
                    &&& final(self)@ == old(self)@
                    &&& error is BadRequest
                    &&& error.text() == not_deletable_text()
                },
            },
    {
        let found = self.invoice_index(id);
        match found {
            Some(at) => {
                assert(self@.invoices[at as int] == self.invoices@[at as int]@);
                match removable(&self.invoices[at]) {
                    Ok(deleted) => {
                        proof {
                            lemma_delete(self@, id);
                            assert(views(self.invoices@.remove(at as int))
                                =~= self@.invoices.remove(at as int));
                        }
                        let _ = self.invoices.remove(at);
                        Ok(deleted)
                    },
                    Err(error) => Err(error),
                }
            },
            None => Err(not_deletable()),
        }
    }

    fn label(&self, invoice: &Invoice) -> (plan: PlanId)
        requires
            self.wf(),
        ensures
            plan == self@.label(invoice@),
    {
        match invoice.subscription_id {
            Some(id) => match self.subscription_id_in_use(id) {
                Some(at) => self.subscriptions[at].plan,
                None => PlanId::Free,
            },
            None => PlanId::Free,
        }
    }

    /// Lists one page of a user's invoices, from the newest to the oldest,
    /// each labelled with the current plan of the subscription that it is
    /// linked to, and counts the invoices that the listing holds in all.
    /// Where the query names a status, the listing and the count hold only
    /// the user's invoices of that status, and none where the name is that
    /// of no status. The page is the one the query names (the first by
    /// default), of the size it names (ten by default, a hundred at most);
    /// a negative size is refused.
    pub fn list(&self, user_id: u128, query: &InvoiceQuery) -> (outcome: Result<
        PaginatedResponse<InvoiceEntry>,
        AppError,
    >)
        requires
            self.wf(),
        ensures
            match outcome {
                Ok(page) => {
                    &&& capped_limit(query.limit) >= 0
                    &&& page.page == effective_page(query.page)
                    &&& page.limit == capped_limit(query.limit)
                    &&& page.total == reported_count(
                        self@.selected(user_id, text_of(query.status)).len(),
                    )
                    &&& entry_views(page.data@) == self@.listing(
                        user_id,
                        text_of(query.status),
                        (effective_page(query.page) - 1) * capped_limit(query.limit),
                        capped_limit(query.limit),
                    )
                    &&& page.data@.len() == page_size(
                        self@.selected(user_id, text_of(query.status)).len() as int,
                        (effective_page(query.page) - 1) * capped_limit(query.limit),
                        capped_limit(query.limit),
                    )
                    &&& forall|i: int|
                        0 <= i < page.data@.len() ==> {
                            &&& (#[trigger] page.data@[i]).invoice@ == self@.selected(
                                user_id,
                                text_of(query.status),
                            )[(effective_page(query.page) - 1) * capped_limit(query.limit) + i]
                            &&& page.data@[i].invoice.user_id == user_id
                            &&& status_admits(text_of(query.status), page.data@[i].invoice.status)
                            &&& page.data@[i].plan == self@.label(page.data@[i].invoice@)
                        }
                },
                Err(error) => {
                    &&& capped_limit(query.limit) < 0
                    &&& error is InternalError
                    &&& error.text() == negative_limit_text()
                },
            },
    {
        let PageWindow { page, limit, offset } = match query.window() {
            Ok(window) => window,
            Err(error) => {
                return Err(error);
            },
        };
        assert(0 <= (page - 1) * limit <= 100 * i64::MAX) by (nonlinear_arith)
            requires
                1 <= page <= i64::MAX,
                0 <= limit <= 100,
        ;
        let end: i128 = offset + limit as i128;
        let choice = query.status_choice();
        let ghost wanted = picked(user_id, text_of(query.status));
        let ghost labelled = |invoice: InvoiceView|
            (InvoiceEntryView { invoice, plan: self@.label(invoice) });
        let mut data: Vec<InvoiceEntry> = Vec::new();
        let mut seen: usize = 0;
        let mut at: usize = 0;
        proof {
            assert(self@.invoices.take(0) =~= Seq::<InvoiceView>::empty());
            assert(entry_views(data@) =~= window(
                self@.invoices.take(0).filter(wanted),
                offset as int,
                limit as int,
            ).map_values(labelled));
        }
        while at < self.invoices.len()
            invariant
                at <= self.invoices@.len(),
                self.wf(),
                0 <= offset,
                0 <= limit,
                end == offset + limit,
                wanted == picked(user_id, text_of(query.status)),
                forall|state: InvoiceState|
                    #[trigger] choice.admits(state) == status_admits(text_of(query.status), state),
                seen == self@.invoices.take(at as int).filter(wanted).len(),
                seen <= at,
                labelled == |invoice: InvoiceView|
                    (InvoiceEntryView { invoice, plan: self@.label(invoice) }),
                entry_views(data@) == window(
                    self@.invoices.take(at as int).filter(wanted),
                    offset as int,
                    limit as int,
                ).map_values(labelled),
            decreases self.invoices@.len() - at,
        {
            let ghost before = self@.invoices.take(at as int);
            let ghost current = self@.invoices[at as int];
            proof {
                lemma_filter_step(self@.invoices, at as int, wanted);
                assert(current == self.invoices@[at as int]@);
                assert(choice.admits(current.status) == status_admits(
                    text_of(query.status),
                    current.status,
                ));
            }
            if self.invoices[at].user_id == user_id && choice.allows(self.invoices[at].status) {
                proof {
                    lemma_window_push(before.filter(wanted), current, offset as int, limit as int);
                }
                if offset <= seen as i128 && (seen as i128) < end {
                    let entry = InvoiceEntry {
                        invoice: self.invoices[at].clone(),
                        plan: self.label(&self.invoices[at]),
                    };
                    data.push(entry);
                    proof {
                        assert(entry_views(data@) =~= window(
                            before.filter(wanted),
                            offset as int,
                            limit as int,
                        ).map_values(labelled).push(labelled(current)));
                        assert(entry_views(data@) =~= window(
                            self@.invoices.take(at + 1).filter(wanted),
                            offset as int,
                            limit as int,
                        ).map_values(labelled));
                    }
                }
                seen += 1;
            }
            at += 1;
        }
        proof {
            assert(self@.invoices.take(at as int) =~= self@.invoices);
        }
        let total = report_count(seen);
        proof {
            law_page_holds_its_slice(
                self@,
                user_id,
                text_of(query.status),
                offset as int,
                limit as int,
            );
            assert(data@.len() == entry_views(data@).len());
            assert forall|i: int| 0 <= i < data@.len() implies {
                &&& (#[trigger] data@[i]).invoice@ == self@.selected(
                    user_id,
                    text_of(query.status),
                )[offset + i]
                &&& data@[i].invoice.user_id == user_id
                &&& status_admits(text_of(query.status), data@[i].invoice.status)
                &&& data@[i].plan == self@.label(data@[i].invoice@)
            } by {
                assert(entry_views(data@)[i] == data@[i]@);
                self@.invoices.lemma_filter_pred(wanted, offset + i);
            }
        }
        Ok(PaginatedResponse { data, page, limit, total })
    }
}

} // verus!
