//! The invoices as the client lists them, and how they are read from what
//! the server sent.

use vstd::prelude::*;
use vstd::string::*;
use crate::text::{
    leading, lemma_filter_step, prefix, same_text, string_or, text_of, text_or, to_uppercase,
    uppercased,
};

verus! {

/// The payment state of an invoice as the client shows it.
#[derive(Clone, Copy, Debug, PartialEq, Eq, Structural)]
pub enum InvoiceStatus {
    Paid,
    Pending,
    Overdue,
}

/// The state that the client shows for a status that the server sent:
/// paid and overdue as they are, anything else as pending.
pub open spec fn status_of_server_name(name: Seq<char>) -> InvoiceStatus {
    if name == "paid"@ {
        InvoiceStatus::Paid
    } else if name == "overdue"@ {
        InvoiceStatus::Overdue
    } else {
        InvoiceStatus::Pending
    }
}

impl InvoiceStatus {
    /// The word that shows the state.
    pub open spec fn spec_label(self) -> Seq<char> {
        match self {
            InvoiceStatus::Paid => "Paid"@,
            InvoiceStatus::Pending => "Pending"@,
            InvoiceStatus::Overdue => "Overdue"@,
        }
    }

    /// The colour that shows the state, as red, green and blue.
    pub open spec fn spec_color(self) -> (u8, u8, u8) {
        match self {
            InvoiceStatus::Paid => (132u8, 204u8, 22u8),
            InvoiceStatus::Pending => (245u8, 158u8, 11u8),
            InvoiceStatus::Overdue => (239u8, 68u8, 68u8),
        }
    }

    /// Reads the status that the server sent.
    pub fn from_str(name: &str) -> (status: InvoiceStatus)
        ensures
            status == status_of_server_name(name@),
    {
        if same_text(name, "paid") {
            InvoiceStatus::Paid
        } else if same_text(name, "overdue") {
            InvoiceStatus::Overdue
        } else {
            InvoiceStatus::Pending
        }
    }

    /// Returns the word that shows the state.
    pub fn label(&self) -> (label: &'static str)
        ensures
            label@ == self.spec_label(),
    {
        match self {
            InvoiceStatus::Paid => "Paid",
            InvoiceStatus::Pending => "Pending",
            InvoiceStatus::Overdue => "Overdue",
        }
    }

    /// Returns the colour that shows the state, as red, green and blue.
    pub fn color(&self) -> (rgb: (u8, u8, u8))
        ensures
            rgb == self.spec_color(),
    {
        match self {
            InvoiceStatus::Paid => (132, 204, 22),
            InvoiceStatus::Pending => (245, 158, 11),
            InvoiceStatus::Overdue => (239, 68, 68),
        }
    }
}

/// An invoice as the client lists it. The amount is in cents.
#[derive(Debug, PartialEq, Eq)]
pub struct BillingInvoice {
    pub id: String,
    pub date: String,
    pub plan: String,
    pub amount_cents: i64,
    pub currency: String,
    pub status: InvoiceStatus,
}

/// The mathematical content of a [`BillingInvoice`].
pub struct BillingInvoiceView {
    pub id: Seq<char>,
    pub date: Seq<char>,
    pub plan: Seq<char>,
    pub amount_cents: i64,
    pub currency: Seq<char>,
    pub status: InvoiceStatus,
}

impl View for BillingInvoice {
    type V = BillingInvoiceView;

    open spec fn view(&self) -> BillingInvoiceView {
        BillingInvoiceView {
            id: self.id@,
            date: self.date@,
            plan: self.plan@,
            amount_cents: self.amount_cents,
            currency: self.currency@,
            status: self.status,
        }
    }
}

impl Clone for BillingInvoice {
    fn clone(&self) -> (copy: BillingInvoice)
        ensures
            copy@ == self@,
    {
        BillingInvoice {
            id: self.id.clone(),
            date: self.date.clone(),
            plan: self.plan.clone(),
            amount_cents: self.amount_cents,
            currency: self.currency.clone(),
            status: self.status,
        }
    }
}

/// One invoice of a listing as the server sent it: each field as far as it
/// was there and of the right kind. The amount is in cents.
#[derive(Debug)]
pub struct InvoiceRecord {
    pub id: Option<String>,
    pub amount_cents: Option<i64>,
    pub currency: Option<String>,
    pub status: Option<String>,
    pub issued_at: Option<String>,
    pub plan: Option<String>,
}

/// The mathematical content of an [`InvoiceRecord`].
pub struct InvoiceRecordView {
    pub id: Option<Seq<char>>,
    pub amount_cents: Option<i64>,
    pub currency: Option<Seq<char>>,
    pub status: Option<Seq<char>>,
    pub issued_at: Option<Seq<char>>,
    pub plan: Option<Seq<char>>,
}

impl View for InvoiceRecord {
    type V = InvoiceRecordView;

    open spec fn view(&self) -> InvoiceRecordView {
        InvoiceRecordView {
            id: text_of(self.id),
            amount_cents: self.amount_cents,
            currency: text_of(self.currency),
            status: text_of(self.status),
            issued_at: text_of(self.issued_at),
            plan: text_of(self.plan),
        }
    }
}

/// The contents of a list of records.
pub open spec fn record_views(records: Seq<InvoiceRecord>) -> Seq<InvoiceRecordView> {
    Seq::new(records.len(), |i: int| records[i]@)
}

/// The contents of a list of invoices.
pub open spec fn invoice_views(invoices: Seq<BillingInvoice>) -> Seq<BillingInvoiceView> {
    Seq::new(invoices.len(), |i: int| invoices[i]@)
}

/// Whether a record can be listed: it has an identifier of at least eight
/// characters, and an amount.
pub open spec fn usable(record: InvoiceRecordView) -> bool {
    &&& record.id matches Some(id) && id.len() >= 8
    &&& record.amount_cents is Some
}

/// The number under which the client lists an invoice: `INV-` and the
/// first eight characters of its identifier, in upper case.
pub open spec fn invoice_number(id: Seq<char>) -> Seq<char> {
    "INV-"@ + uppercased(id.subrange(0, 8))
}

/// The invoice that the client lists for a usable record: the date is the
/// first ten characters of the time of issue, and a field that the server
/// left out takes its default.
pub open spec fn listed(record: InvoiceRecordView) -> BillingInvoiceView {
    BillingInvoiceView {
        id: invoice_number(record.id->Some_0),
        date: prefix(text_or(record.issued_at, ""@), 10),
        plan: text_or(record.plan, "—"@),
        amount_cents: record.amount_cents->Some_0,
        currency: text_or(record.currency, "USD"@),
        status: status_of_server_name(text_or(record.status, "issued"@)),
    }
}

/// The predicate that picks the usable records.
pub open spec fn is_usable() -> spec_fn(InvoiceRecordView) -> bool {
    |record: InvoiceRecordView| usable(record)
}

/// The invoices that the client lists for the records of a response: one
/// for each usable record, in the order of the response.
pub open spec fn parsed(records: Seq<InvoiceRecordView>) -> Seq<BillingInvoiceView> {
    records.filter(is_usable()).map_values(|record: InvoiceRecordView| listed(record))
}

/// Reads the invoices of a listing from the records that the server sent.
/// A response without records yields no invoice; a record without an
/// identifier of eight characters or without an amount is left out.
pub fn parse_invoices_from_response(data: &Option<Vec<InvoiceRecord>>) -> (invoices: Vec<
    BillingInvoice,
>)
    ensures
        invoice_views(invoices@) == match *data {
            Some(records) => parsed(record_views(records@)),
            None => Seq::empty(),
        },
{
    let mut invoices: Vec<BillingInvoice> = Vec::new();
    let records = match data {
        Some(records) => records,
        None => {
            assert(invoice_views(invoices@) =~= Seq::empty());
            return invoices;
        },
    };
    let ghost all = record_views(records@);
    let ghost shown = |record: InvoiceRecordView| listed(record);
    let mut at: usize = 0;
    proof {
        assert(all.take(0) =~= Seq::<InvoiceRecordView>::empty());
        assert(invoice_views(invoices@) =~= parsed(all.take(0)));
    }
    while at < records.len()
        invariant
            at <= records@.len(),
            all == record_views(records@),
            invoice_views(invoices@) == parsed(all.take(at as int)),
        decreases records@.len() - at,
    {
        let record = &records[at];
        proof {
            lemma_filter_step(all, at as int, is_usable());
            assert(all[at as int] == record@);
        }
        let ghost before = all.take(at as int).filter(is_usable());
        match (&record.id, record.amount_cents) {
            (Some(id), Some(amount_cents)) => {
                if id.as_str().unicode_len() >= 8 {
                    let number = String::from_str("INV-").concat(
                        to_uppercase(id.as_str().substring_char(0, 8)).as_str(),
                    );
                    let issued_at = string_or(&record.issued_at, "");
                    let status = string_or(&record.status, "issued");
                    let invoice = BillingInvoice {
                        id: number,
                        date: leading(issued_at.as_str(), 10),
                        plan: string_or(&record.plan, "—"),
                        amount_cents,
                        currency: string_or(&record.currency, "USD"),
                        status: InvoiceStatus::from_str(status.as_str()),
                    };
                    assert(invoice@ == listed(record@));
                    invoices.push(invoice);
                    proof {
                        assert(invoice_views(invoices@) =~= before.map_values(
                            |record: InvoiceRecordView| listed(record),
                        ).push(listed(record@)));
                        assert(before.push(record@).map_values(
                            |record: InvoiceRecordView| listed(record),
                        ) =~= before.map_values(|record: InvoiceRecordView| listed(record)).push(
                            listed(record@),
                        ));
                    }
                }
            },
            _ => {},
        }
        at += 1;
    }
    proof {
        assert(all.take(at as int) =~= all);
    }
    invoices
}

/// The invoices that the client shows before any were loaded.
pub fn sample_invoices() -> (samples: Vec<BillingInvoice>)
    ensures
        samples@.len() == 5,
        forall|i: int|
            0 <= i < 5 ==> {
                &&& (#[trigger] samples@[i]).plan@ == "Pro"@
                &&& samples@[i].amount_cents == 2999
                &&& samples@[i].currency@ == "USD"@
                &&& samples@[i].status == InvoiceStatus::Paid
            },
        samples@[0].id@ == "INV-2026-0234"@ && samples@[0].date@ == "Feb 1, 2026"@,
        samples@[1].id@ == "INV-2026-0189"@ && samples@[1].date@ == "Jan 1, 2026"@,
        samples@[2].id@ == "INV-2025-0987"@ && samples@[2].date@ == "Dec 1, 2025"@,
        samples@[3].id@ == "INV-2025-0876"@ && samples@[3].date@ == "Nov 1, 2025"@,
        samples@[4].id@ == "INV-2025-0765"@ && samples@[4].date@ == "Oct 1, 2025"@,
{
    vec![
        sample("INV-2026-0234", "Feb 1, 2026"),
        sample("INV-2026-0189", "Jan 1, 2026"),
        sample("INV-2025-0987", "Dec 1, 2025"),
        sample("INV-2025-0876", "Nov 1, 2025"),
        sample("INV-2025-0765", "Oct 1, 2025"),
    ]
}

fn sample(id: &str, date: &str) -> (invoice: BillingInvoice)
    ensures
        invoice.id@ == id@,
        invoice.date@ == date@,
        invoice.plan@ == "Pro"@,
        invoice.amount_cents == 2999,
        invoice.currency@ == "USD"@,
        invoice.status == InvoiceStatus::Paid,
{
    BillingInvoice {
        id: String::from_str(id),
        date: String::from_str(date),
        plan: String::from_str("Pro"),
        amount_cents: 2999,
        currency: String::from_str("USD"),
        status: InvoiceStatus::Paid,
    }
}

} // verus!
