//! The client's billing cache: the plan that the server last confirmed, a
//! plan change awaiting confirmation, the invoices last loaded, and the
//! rules by which each changes. The cache never calls the server itself:
//! it says what is to be asked, and takes in what came back.

use vstd::prelude::*;
use vstd::string::*;
use crate::client::invoice::{
    invoice_views, parse_invoices_from_response, parsed, record_views, BillingInvoice,
    InvoiceRecord,
};
use crate::client::plan::{lemma_api_names_round_trip, plan_of_server_name, Plan};
use crate::text::{text_of, text_or};

verus! {

/// What the client holds of billing.
#[derive(Debug, PartialEq, Eq)]
pub struct BillingState {
    pub current_plan: Plan,
    pub pending_plan: Option<Plan>,
    pub show_upgrade_confirm: bool,
    pub show_cancel_confirm: bool,
    pub selected_invoice: Option<BillingInvoice>,
    pub download_message: Option<String>,
    pub invoices: Vec<BillingInvoice>,
    pub invoices_loaded: bool,
    pub last_error: Option<String>,
}

/// Who is using the client, as far as billing needs to know.
#[derive(Debug)]
pub struct Session {
    pub user_id: Option<String>,
    pub token: Option<String>,
}

/// What a call to the server is made with.
#[derive(Debug, PartialEq, Eq)]
pub struct Credentials {
    pub user_id: String,
    pub token: String,
}

/// The message of a call that is refused because nobody is signed in.
pub open spec fn not_signed_in_text() -> Seq<char> {
    "Non connecté"@
}

/// The message of a call that is refused because the token is missing.
pub open spec fn missing_token_text() -> Seq<char> {
    "Token manquant"@
}

/// The message that announces the download of an invoice.
pub open spec fn download_text(number: Seq<char>) -> Seq<char> {
    "Downloading "@ + number + "..."@
}

impl Session {
    /// Returns what a call to the server is made with, or the message that
    /// says what is missing: the user first, then the token.
    pub fn credentials(&self) -> (outcome: Result<Credentials, String>)
        ensures
            match outcome {
                Ok(found) => text_of(self.user_id) == Some(found.user_id@) && text_of(self.token)
                    == Some(found.token@),
                Err(message) => if self.user_id is None {
                    message@ == not_signed_in_text()
                } else {
                    self.token is None && message@ == missing_token_text()
                },
            },
    {
        let user_id = match &self.user_id {
            Some(user_id) => user_id.clone(),
            None => {
                return Err(String::from_str("Non connecté"));
            },
        };
        let token = match &self.token {
            Some(token) => token.clone(),
            None => {
                return Err(String::from_str("Token manquant"));
            },
        };
        Ok(Credentials { user_id, token })
    }
}

impl BillingState {
    /// Whether the cache is as new, on the given plan: nothing pending,
    /// nothing shown, nothing loaded, no error.
    pub open spec fn is_fresh(&self, plan: Plan) -> bool {
        &&& self.current_plan == plan
        &&& self.pending_plan is None
        &&& !self.show_upgrade_confirm
        &&& !self.show_cancel_confirm
        &&& self.selected_invoice is None
        &&& self.download_message is None
        &&& self.invoices@.len() == 0
        &&& !self.invoices_loaded
        &&& self.last_error is None
    }

    /// Makes a new cache on the plan of the given name. A name that the
    /// client does not offer shows as the free plan.
    pub fn from_plan_name(plan_name: &str) -> (state: BillingState)
        ensures
            state.is_fresh(plan_of_server_name(plan_name@)),
    {
        BillingState {
            current_plan: Plan::from_str(plan_name),
            pending_plan: None,
            show_upgrade_confirm: false,
            show_cancel_confirm: false,
            selected_invoice: None,
            download_message: None,
            invoices: Vec::new(),
            invoices_loaded: false,
            last_error: None,
        }
    }

    /// Takes in the answer to a read of the subscription. On success the
    /// cache starts anew on the plan that the server named, on the free
    /// plan where it named none. On failure only the error is set.
    pub fn subscription_loaded(&mut self, outcome: &Result<Option<String>, String>)
        ensures
            match *outcome {
                Ok(plan) => final(self).is_fresh(
                    plan_of_server_name(text_or(text_of(plan), "free"@)),
                ),
                Err(error) => {
                    &&& final(self).last_error matches Some(kept)
                    &&& kept@ == error@
                    &&& *final(self) == (BillingState {
                        last_error: final(self).last_error,
                        ..*old(self)
                    })
                },
            },
    {
        match outcome {
            Ok(Some(plan)) => {
                *self = BillingState::from_plan_name(plan.as_str());
            },
            Ok(None) => {
                proof {
                    lemma_api_names_round_trip();
                    assert(Plan::Free.spec_api_name() == "free"@);
                }
                *self = BillingState::from_plan_name("free");
            },
            Err(error) => {
                self.last_error = Some(error.clone());
            },
        }
    }

    /// Selects a plan for a change. The plan waits for confirmation and
    /// the confirmation is asked for; the current plan stays. Selecting
    /// the current plan changes nothing.
    pub fn select_plan(&mut self, plan: Plan)
        ensures
            *final(self) == if plan == old(self).current_plan {
                *old(self)
            } else {
                BillingState { pending_plan: Some(plan), show_upgrade_confirm: true, ..*old(self) }
            },
    {
        if plan != self.current_plan {
            self.pending_plan = Some(plan);
            self.show_upgrade_confirm = true;
        }
    }

    /// Gives up a plan change that awaits confirmation.
    pub fn dismiss_plan_change(&mut self)
        ensures
            *final(self) == (BillingState {
                pending_plan: None,
                show_upgrade_confirm: false,
                ..*old(self)
            }),
    {
        self.pending_plan = None;
        self.show_upgrade_confirm = false;
    }

    /// Returns the plan that the server is to be asked for when the user
    /// confirms: the pending one, and only while its confirmation is
    /// shown.
    pub fn plan_to_confirm(&self) -> (plan: Option<Plan>)
        ensures
            plan == if self.show_upgrade_confirm {
                self.pending_plan
            } else {
                None
            },
    {
        if self.show_upgrade_confirm {
            self.pending_plan
        } else {
            None
        }
    }

    /// The plan that a successful change puts the cache on: the one that
    /// the server named in its answer. Where the answer named none the
    /// cache stays on its plan: the plan that was asked for is never taken
    /// for the server's.
    pub open spec fn confirmed_plan(current: Plan, answer: Option<String>) -> Plan {
        match answer {
            Some(name) => plan_of_server_name(name@),
            None => current,
        }
    }

    /// Takes in the answer to a plan change. On success the cache moves to
    /// the plan that the server named, whatever was asked for, and stays
    /// on its plan where the server named none; the pending change and the
    /// error are cleared, and the invoices are marked for reloading. On
    /// failure only the error is set. Returns the name that the server
    /// gave, or that of the plan the cache stays on, or the error.
    pub fn plan_update_finished(&mut self, outcome: Result<Option<String>, String>) -> (report:
        Result<String, String>)
        ensures
            match outcome {
                Ok(answer) => {
                    &&& report matches Ok(name)
                    &&& name@ == text_or(text_of(answer), old(self).current_plan.spec_api_name())
                    &&& *final(self) == (BillingState {
                        current_plan: Self::confirmed_plan(old(self).current_plan, answer),
                        pending_plan: None,
                        show_upgrade_confirm: false,
                        invoices_loaded: false,
                        last_error: None,
                        ..*old(self)
                    })
                },
                Err(error) => {
                    &&& report matches Err(message)
                    &&& message@ == error@
                    &&& final(self).last_error matches Some(kept)
                    &&& kept@ == error@
                    &&& *final(self) == (BillingState {
                        last_error: final(self).last_error,
                        ..*old(self)
                    })
                },
            },
    {
        match outcome {
            Ok(answer) => {
                let name = match answer {
                    Some(name) => {
                        self.current_plan = Plan::from_str(name.as_str());
                        name
                    },
                    None => String::from_str(self.current_plan.api_name()),
                };
                self.pending_plan = None;
                self.show_upgrade_confirm = false;
                self.invoices_loaded = false;
                self.last_error = None;
                Ok(name)
            },
            Err(error) => {
                self.last_error = Some(error.clone());
                Err(error)
            },
        }
    }

    /// Asks for the confirmation of a cancellation. On the free plan there
    /// is nothing to cancel and nothing changes.
    pub fn request_cancel(&mut self)
        ensures
            *final(self) == if old(self).current_plan == Plan::Free {
                *old(self)
            } else {
                BillingState { show_cancel_confirm: true, ..*old(self) }
            },
    {
        if self.current_plan != Plan::Free {
            self.show_cancel_confirm = true;
        }
    }

    /// Gives up a cancellation that awaits confirmation.
    pub fn dismiss_cancel(&mut self)
        ensures
            *final(self) == (BillingState { show_cancel_confirm: false, ..*old(self) }),
    {
        self.show_cancel_confirm = false;
    }

    /// Tells whether the server is to be asked for a cancellation when the
    /// user confirms.
    pub fn cancel_to_confirm(&self) -> (ask: bool)
        ensures
            ask == self.show_cancel_confirm,
    {
        self.show_cancel_confirm
    }

    /// Takes in the failure of a call: the error is set and nothing else
    /// changes.
    pub fn call_failed(&mut self, error: String)
        ensures
            *final(self) == (BillingState { last_error: Some(error), ..*old(self) }),
    {
        self.last_error = Some(error);
    }

    /// Tells whether the invoices are to be loaded before they are shown.
    pub fn needs_invoices(&self) -> (needed: bool)
        ensures
            needed == !self.invoices_loaded,
    {
        !self.invoices_loaded
    }

    /// Takes in the answer to a read of the invoices. On success the cache
    /// holds the invoices of the answer, which then count as loaded, and
    /// the error is cleared. On failure only the error is set: the
    /// invoices stay as they were, and stay to be loaded if they were.
    pub fn invoices_received(&mut self, outcome: &Result<Option<Vec<InvoiceRecord>>, String>)
        ensures
            match *outcome {
                Ok(data) => {
                    &&& invoice_views(final(self).invoices@) == match data {
                        Some(records) => parsed(record_views(records@)),
                        None => Seq::empty(),
                    }
                    &&& *final(self) == (BillingState {
                        invoices: final(self).invoices,
                        invoices_loaded: true,
                        last_error: None,
                        ..*old(self)
                    })
                },
                Err(error) => {
                    &&& final(self).last_error matches Some(kept)
                    &&& kept@ == error@
                    &&& *final(self) == (BillingState {
                        last_error: final(self).last_error,
                        ..*old(self)
                    })
                },
            },
    {
        match outcome {
            Ok(data) => {
                self.invoices = parse_invoices_from_response(data);
                self.invoices_loaded = true;
                self.last_error = None;
            },
            Err(error) => {
                self.last_error = Some(error.clone());
            },
        }
    }

    /// Opens the invoice at `index` of the list. An index past the list
    /// changes nothing.
    pub fn view_invoice(&mut self, index: usize)
        ensures
            if index < old(self).invoices@.len() {
                &&& final(self).selected_invoice matches Some(opened)
                &&& opened@ == old(self).invoices@[index as int]@
                &&& *final(self) == (BillingState {
                    selected_invoice: final(self).selected_invoice,
                    ..*old(self)
                })
            } else {
                *final(self) == *old(self)
            },
    {
        if index < self.invoices.len() {
            self.selected_invoice = Some(self.invoices[index].clone());
        }
    }

    /// Closes the open invoice.
    pub fn close_invoice(&mut self)
        ensures
            *final(self) == (BillingState { selected_invoice: None, ..*old(self) }),
    {
        self.selected_invoice = None;
    }

    /// Announces the download of the invoice of the given number.
    pub fn request_download(&mut self, number: &str)
        ensures
            final(self).download_message matches Some(message) && message@ == download_text(
                number@,
            ),
            *final(self) == (BillingState {
                download_message: final(self).download_message,
                ..*old(self)
            }),
    {
        self.download_message = Some(
            String::from_str("Downloading ").concat(number).concat("..."),
        );
    }

    /// Announces the download of the open invoice and closes it. With no
    /// invoice open nothing changes.
    pub fn download_selected(&mut self)
        ensures
            match old(self).selected_invoice {
                Some(opened) => {
                    &&& final(self).download_message matches Some(message)
                    &&& message@ == download_text(opened.id@)
                    &&& *final(self) == (BillingState {
                        download_message: final(self).download_message,
                        selected_invoice: None,
                        ..*old(self)
                    })
                },
                None => *final(self) == *old(self),
            },
    {
        let message = match &self.selected_invoice {
            Some(opened) => String::from_str("Downloading ").concat(opened.id.as_str()).concat(
                "...",
            ),
            None => {
                return ;
            },
        };
        self.download_message = Some(message);
        self.selected_invoice = None;
    }

    /// Takes the announcement of a download away.
    pub fn dismiss_download(&mut self)
        ensures
            *final(self) == (BillingState { download_message: None, ..*old(self) }),
    {
        self.download_message = None;
    }
}

impl Default for BillingState {
    /// Makes a new cache on the free plan.
    fn default() -> (state: BillingState)
        ensures
            state.is_fresh(Plan::Free),
    {
        BillingState {
            current_plan: Plan::Free,
            pending_plan: None,
            show_upgrade_confirm: false,
            show_cancel_confirm: false,
            selected_invoice: None,
            download_message: None,
            invoices: Vec::new(),
            invoices_loaded: false,
            last_error: None,
        }
    }
}

} // verus!
