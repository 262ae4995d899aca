use saas_billing::client::api::{
    cancel_failure_message, failure_message, invoices_failure_message, network_failure_message,
    plan_of_answer, subscription_failure_message, update_failure_message, ApiClient,
};
use saas_billing::client::invoice::{
    parse_invoices_from_response, sample_invoices, BillingInvoice, InvoiceRecord, InvoiceStatus,
};
use saas_billing::client::plan::{storage_used_mb, Plan};
use saas_billing::client::state::{BillingState, Credentials, Session};

fn record(id: &str, amount_cents: i64) -> InvoiceRecord {
    InvoiceRecord {
        id: Some(id.to_string()),
        amount_cents: Some(amount_cents),
        currency: None,
        status: None,
        issued_at: None,
        plan: None,
    }
}

fn full_record() -> InvoiceRecord {
    InvoiceRecord {
        id: Some("a1b2c3d4-e5f6-7788-99aa-bbccddeeff00".to_string()),
        amount_cents: Some(2999),
        currency: Some("EUR".to_string()),
        status: Some("paid".to_string()),
        issued_at: Some("2026-02-01T10:20:30Z".to_string()),
        plan: Some("pro".to_string()),
    }
}

#[test]
fn plan_texts() {
    assert_eq!((Plan::Free.name(), Plan::Pro.name(), Plan::Enterprise.name()), ("Free", "Pro", "Enterprise"));
    assert_eq!(Plan::Free.price(), "$0/forever");
    assert_eq!(Plan::Pro.price(), "$29.99/month");
    assert_eq!(Plan::Enterprise.price(), "$99.99/month");
    assert_eq!(Plan::Free.description(), "For individuals and small teams getting started");
    assert_eq!(Plan::Pro.description(), "For growing teams that need more power");
    assert_eq!(Plan::Enterprise.description(), "For large organizations with custom needs");
    assert_eq!((Plan::Free.max_projects(), Plan::Pro.max_projects(), Plan::Enterprise.max_projects()), ("5", "∞", "∞"));
    assert_eq!((Plan::Free.max_members(), Plan::Pro.max_members(), Plan::Enterprise.max_members()), ("10", "50", "∞"));
    assert_eq!(Plan::Free.action_label(), "Downgrade to Free");
    assert_eq!(Plan::Pro.action_label(), "Upgrade to Pro");
    assert_eq!(Plan::Enterprise.action_label(), "Contact Sales");
}

#[test]
fn plan_prices_in_cents() {
    assert_eq!(Plan::Free.price_amount(), 0);
    assert_eq!(Plan::Pro.price_amount(), 2999);
    assert_eq!(Plan::Enterprise.price_amount(), 9999);
    assert!(Plan::Free.is_upgrade_to(&Plan::Pro));
    assert!(Plan::Pro.is_upgrade_to(&Plan::Enterprise));
    assert!(!Plan::Enterprise.is_upgrade_to(&Plan::Pro));
    assert!(!Plan::Pro.is_upgrade_to(&Plan::Pro));
}

#[test]
fn plan_features() {
    assert_eq!(
        Plan::Free.features(),
        vec!["Up to 5 projects", "10 team members", "Basic task management", "Email support", "1GB storage"]
    );
    assert_eq!(Plan::Pro.features().len(), 7);
    assert_eq!(Plan::Pro.features()[0], "Unlimited projects");
    assert_eq!(Plan::Pro.features()[6], "Advanced analytics");
    assert_eq!(Plan::Enterprise.features().len(), 9);
    assert_eq!(Plan::Enterprise.features()[8], "Dedicated account manager");
}

#[test]
fn plan_names_from_the_server() {
    assert_eq!(Plan::from_str("free"), Plan::Free);
    assert_eq!(Plan::from_str("pro"), Plan::Pro);
    assert_eq!(Plan::from_str("enterprise"), Plan::Enterprise);
    assert_eq!(Plan::from_str("starter"), Plan::Free);
    assert_eq!(Plan::from_str("Pro"), Plan::Free);
    assert_eq!(Plan::from_str(""), Plan::Free);
    for plan in [Plan::Free, Plan::Pro, Plan::Enterprise] {
        assert_eq!(Plan::from_str(plan.api_name()), plan);
    }
}

#[test]
fn usage_limits() {
    assert_eq!((Plan::Free.project_limit(), Plan::Pro.project_limit(), Plan::Enterprise.project_limit()), (Some(5), Some(50), None));
    assert_eq!((Plan::Free.task_limit(), Plan::Pro.task_limit(), Plan::Enterprise.task_limit()), (Some(100), Some(1000), None));
    assert_eq!(Plan::Free.storage_limit_mb(), Some(1024));
    assert_eq!(Plan::Pro.storage_limit_mb(), Some(102400));
    assert_eq!(Plan::Enterprise.storage_limit_mb(), None);
    assert_eq!(storage_used_mb(0), 0);
    assert_eq!(storage_used_mb(3), 60);
    assert_eq!(storage_used_mb(51), 1020);
    assert_eq!(storage_used_mb(52), 1024);
    assert_eq!(storage_used_mb(usize::MAX), 1024);
}

#[test]
fn invoice_status_shows() {
    assert_eq!(InvoiceStatus::Paid.label(), "Paid");
    assert_eq!(InvoiceStatus::Pending.label(), "Pending");
    assert_eq!(InvoiceStatus::Overdue.label(), "Overdue");
    assert_eq!(InvoiceStatus::Paid.color(), (132, 204, 22));
    assert_eq!(InvoiceStatus::Pending.color(), (245, 158, 11));
    assert_eq!(InvoiceStatus::Overdue.color(), (239, 68, 68));
    assert_eq!(InvoiceStatus::from_str("paid"), InvoiceStatus::Paid);
    assert_eq!(InvoiceStatus::from_str("overdue"), InvoiceStatus::Overdue);
    assert_eq!(InvoiceStatus::from_str("issued"), InvoiceStatus::Pending);
    assert_eq!(InvoiceStatus::from_str("draft"), InvoiceStatus::Pending);
    assert_eq!(InvoiceStatus::from_str(""), InvoiceStatus::Pending);
}

#[test]
fn parse_reads_a_full_record() {
    let invoices = parse_invoices_from_response(&Some(vec![full_record()]));
    assert_eq!(
        invoices,
        vec![BillingInvoice {
            id: "INV-A1B2C3D4".to_string(),
            date: "2026-02-01".to_string(),
            plan: "pro".to_string(),
            amount_cents: 2999,
            currency: "EUR".to_string(),
            status: InvoiceStatus::Paid,
        }]
    );
}

#[test]
fn parse_fills_in_defaults() {
    let invoices = parse_invoices_from_response(&Some(vec![record("0f0f0f0f-rest", 5)]));
    assert_eq!(
        invoices,
        vec![BillingInvoice {
            id: "INV-0F0F0F0F".to_string(),
            date: "".to_string(),
            plan: "—".to_string(),
            amount_cents: 5,
            currency: "USD".to_string(),
            status: InvoiceStatus::Pending,
        }]
    );
}

#[test]
fn parse_keeps_a_short_date_whole() {
    let mut short = record("abcdefgh", 1);
    short.issued_at = Some("2026-02".to_string());
    let mut exact = record("abcdefgh", 1);
    exact.issued_at = Some("2026-02-01".to_string());
    let invoices = parse_invoices_from_response(&Some(vec![short, exact]));
    assert_eq!(invoices[0].date, "2026-02");
    assert_eq!(invoices[1].date, "2026-02-01");
    assert_eq!(invoices[0].id, "INV-ABCDEFGH");
}

#[test]
fn parse_leaves_out_unusable_records() {
    let mut no_id = record("a1b2c3d4", 1);
    no_id.id = None;
    let mut no_amount = record("a1b2c3d4", 1);
    no_amount.amount_cents = None;
    let short_id = record("a1b2c3d", 1);
    let kept = record("ffffffff-0000", 9);
    let again = record("00000000-ffff", 8);
    let invoices =
        parse_invoices_from_response(&Some(vec![no_id, kept, no_amount, short_id, again]));
    let ids: Vec<&str> = invoices.iter().map(|i| i.id.as_str()).collect();
    assert_eq!(ids, vec!["INV-FFFFFFFF", "INV-00000000"]);
    assert_eq!(invoices[0].amount_cents, 9);
    assert_eq!(invoices[1].amount_cents, 8);
}

#[test]
fn parse_without_data_is_empty() {
    assert_eq!(parse_invoices_from_response(&None), vec![]);
    assert_eq!(parse_invoices_from_response(&Some(vec![])), vec![]);
}

#[test]
fn samples_are_five_paid_pro_invoices() {
    let samples = sample_invoices();
    assert_eq!(samples.len(), 5);
    let ids: Vec<&str> = samples.iter().map(|i| i.id.as_str()).collect();
    assert_eq!(
        ids,
        vec!["INV-2026-0234", "INV-2026-0189", "INV-2025-0987", "INV-2025-0876", "INV-2025-0765"]
    );
    let dates: Vec<&str> = samples.iter().map(|i| i.date.as_str()).collect();
    assert_eq!(dates, vec!["Feb 1, 2026", "Jan 1, 2026", "Dec 1, 2025", "Nov 1, 2025", "Oct 1, 2025"]);
    assert!(samples.iter().all(|i| i.plan == "Pro" && i.amount_cents == 2999));
    assert!(samples.iter().all(|i| i.status == InvoiceStatus::Paid && i.currency == "USD"));
}

#[test]
fn new_cache_is_on_the_free_plan() {
    let state = BillingState::default();
    assert_eq!(state.current_plan, Plan::Free);
    assert_eq!(state.pending_plan, None);
    assert!(!state.show_upgrade_confirm && !state.show_cancel_confirm);
    assert_eq!(state.selected_invoice, None);
    assert_eq!(state.download_message, None);
    assert!(state.invoices.is_empty());
    assert!(!state.invoices_loaded);
    assert_eq!(state.last_error, None);
    assert_eq!(BillingState::from_plan_name("free"), state);
}

#[test]
fn cache_starts_on_the_named_plan() {
    assert_eq!(BillingState::from_plan_name("pro").current_plan, Plan::Pro);
    assert_eq!(BillingState::from_plan_name("enterprise").current_plan, Plan::Enterprise);
    assert_eq!(BillingState::from_plan_name("starter").current_plan, Plan::Free);
    let mut expected = BillingState::default();
    expected.current_plan = Plan::Pro;
    assert_eq!(BillingState::from_plan_name("pro"), expected);
}

fn busy_cache() -> BillingState {
    let mut state = BillingState::from_plan_name("pro");
    state.invoices_received(&Ok(Some(vec![full_record()])));
    state.select_plan(Plan::Enterprise);
    state.view_invoice(0);
    state
}

#[test]
fn loaded_subscription_resets_the_cache() {
    let mut state = busy_cache();
    state.subscription_loaded(&Ok(Some("enterprise".to_string())));
    assert_eq!(state, BillingState::from_plan_name("enterprise"));
    let mut state = busy_cache();
    state.subscription_loaded(&Ok(None));
    assert_eq!(state, BillingState::default());
}

#[test]
fn failed_read_of_the_subscription_only_sets_the_error() {
    let mut state = busy_cache();
    state.subscription_loaded(&Err("Erreur billing (500)".to_string()));
    let mut expected = busy_cache();
    expected.last_error = Some("Erreur billing (500)".to_string());
    assert_eq!(state, expected);
    assert_eq!(state.current_plan, Plan::Pro);
    assert_eq!(state.invoices.len(), 1);
}

#[test]
fn selecting_a_plan_waits_for_confirmation() {
    let mut state = BillingState::default();
    assert_eq!(state.plan_to_confirm(), None);
    state.select_plan(Plan::Pro);
    assert_eq!(state.current_plan, Plan::Free);
    assert_eq!(state.pending_plan, Some(Plan::Pro));
    assert!(state.show_upgrade_confirm);
    assert_eq!(state.plan_to_confirm(), Some(Plan::Pro));
    state.select_plan(Plan::Enterprise);
    assert_eq!(state.plan_to_confirm(), Some(Plan::Enterprise));
    state.dismiss_plan_change();
    assert_eq!(state, BillingState::default());
    assert_eq!(state.plan_to_confirm(), None);
}

#[test]
fn selecting_the_current_plan_changes_nothing() {
    let mut state = BillingState::from_plan_name("pro");
    state.select_plan(Plan::Pro);
    assert_eq!(state, BillingState::from_plan_name("pro"));
}

#[test]
fn confirmed_change_follows_the_server_answer() {
    let mut state = BillingState::default();
    state.invoices_loaded = true;
    state.last_error = Some("old".to_string());
    state.select_plan(Plan::Enterprise);
    let report = state.plan_update_finished(Ok(Some("pro".to_string())));
    assert_eq!(report, Ok("pro".to_string()));
    assert_eq!(state.current_plan, Plan::Pro);
    assert_eq!(state.pending_plan, None);
    assert!(!state.show_upgrade_confirm);
    assert!(!state.invoices_loaded);
    assert_eq!(state.last_error, None);
}

#[test]
fn answer_without_a_named_plan_never_takes_the_requested_one() {
    let mut state = BillingState::from_plan_name("pro");
    state.invoices_loaded = true;
    state.select_plan(Plan::Enterprise);
    let report = state.plan_update_finished(Ok(None));
    assert_eq!(report, Ok("pro".to_string()));
    assert_eq!(state, BillingState::from_plan_name("pro"));
    let mut fresh = BillingState::default();
    fresh.select_plan(Plan::Enterprise);
    assert_eq!(fresh.plan_update_finished(Ok(None)), Ok("free".to_string()));
    assert_eq!(fresh.current_plan, Plan::Free);
}

#[test]
fn server_answer_with_an_unknown_plan_shows_as_free() {
    let mut state = BillingState::from_plan_name("pro");
    let report = state.plan_update_finished(Ok(Some("starter".to_string())));
    assert_eq!(report, Ok("starter".to_string()));
    assert_eq!(state.current_plan, Plan::Free);
}

#[test]
fn failed_change_only_sets_the_error() {
    let mut state = BillingState::from_plan_name("pro");
    state.invoices_loaded = true;
    state.select_plan(Plan::Enterprise);
    let report = state.plan_update_finished(Err("Plan 'x' invalide".to_string()));
    assert_eq!(report, Err("Plan 'x' invalide".to_string()));
    let mut expected = BillingState::from_plan_name("pro");
    expected.invoices_loaded = true;
    expected.pending_plan = Some(Plan::Enterprise);
    expected.show_upgrade_confirm = true;
    expected.last_error = Some("Plan 'x' invalide".to_string());
    assert_eq!(state, expected);
}

#[test]
fn cancellation_is_asked_for_on_paid_plans_only() {
    let mut free = BillingState::default();
    free.request_cancel();
    assert!(!free.cancel_to_confirm());
    let mut paid = BillingState::from_plan_name("pro");
    paid.request_cancel();
    assert!(paid.cancel_to_confirm());
    assert_eq!(paid.current_plan, Plan::Pro);
    paid.dismiss_cancel();
    assert_eq!(paid, BillingState::from_plan_name("pro"));
}

#[test]
fn failed_call_sets_the_error_alone() {
    let mut state = BillingState::from_plan_name("enterprise");
    state.request_cancel();
    state.call_failed("Erreur (500 Internal Server Error)".to_string());
    assert_eq!(state.current_plan, Plan::Enterprise);
    assert!(state.show_cancel_confirm);
    assert_eq!(state.last_error, Some("Erreur (500 Internal Server Error)".to_string()));
}

#[test]
fn invoices_are_loaded_once() {
    let mut state = BillingState::default();
    assert!(state.needs_invoices());
    state.invoices_received(&Ok(Some(vec![full_record(), record("short", 1)])));
    assert!(!state.needs_invoices());
    assert_eq!(state.invoices.len(), 1);
    assert_eq!(state.invoices[0].id, "INV-A1B2C3D4");
    state.plan_update_finished(Ok(Some("pro".to_string()))).unwrap();
    assert!(state.needs_invoices());
    assert_eq!(state.invoices.len(), 1);
}

#[test]
fn failed_load_of_invoices_only_sets_the_error() {
    let mut state = BillingState::default();
    state.invoices_received(&Ok(Some(vec![full_record()])));
    state.invoices_loaded = false;
    let before = state.invoices.clone();
    state.invoices_received(&Err("Erreur billing (502 Bad Gateway)".to_string()));
    assert_eq!(state.invoices, before);
    assert_eq!(state.invoices.len(), 1);
    assert!(!state.invoices_loaded);
    assert!(state.needs_invoices());
    assert_eq!(state.last_error, Some("Erreur billing (502 Bad Gateway)".to_string()));
    let mut expected = BillingState::default();
    expected.invoices = before;
    expected.last_error = Some("Erreur billing (502 Bad Gateway)".to_string());
    assert_eq!(state, expected);
}

#[test]
fn failed_load_on_an_empty_cache_keeps_it_to_be_loaded() {
    let mut state = BillingState::from_plan_name("pro");
    state.invoices_received(&Err("down".to_string()));
    let mut expected = BillingState::from_plan_name("pro");
    expected.last_error = Some("down".to_string());
    assert_eq!(state, expected);
}

#[test]
fn successful_load_clears_the_error() {
    let mut state = BillingState::default();
    state.invoices_received(&Err("down".to_string()));
    state.invoices_received(&Ok(None));
    assert!(state.invoices.is_empty());
    assert!(state.invoices_loaded);
    assert_eq!(state.last_error, None);
    state.invoices_loaded = false;
    state.invoices_received(&Ok(Some(vec![full_record()])));
    assert_eq!(state.invoices.len(), 1);
    assert!(state.invoices_loaded);
}

#[test]
fn invoices_are_opened_and_downloaded() {
    let mut state = BillingState::default();
    state.invoices = sample_invoices();
    state.view_invoice(7);
    assert_eq!(state.selected_invoice, None);
    state.view_invoice(1);
    assert_eq!(state.selected_invoice, Some(sample_invoices().remove(1)));
    state.download_selected();
    assert_eq!(state.selected_invoice, None);
    assert_eq!(state.download_message, Some("Downloading INV-2026-0189...".to_string()));
    state.dismiss_download();
    assert_eq!(state.download_message, None);
    state.download_selected();
    assert_eq!(state.download_message, None);
    state.request_download("INV-2025-0765");
    assert_eq!(state.download_message, Some("Downloading INV-2025-0765...".to_string()));
    state.view_invoice(0);
    state.close_invoice();
    assert_eq!(state.selected_invoice, None);
    assert_eq!(state.invoices.len(), 5);
}

#[test]
fn credentials_need_user_and_token() {
    let nobody = Session { user_id: None, token: Some("t".to_string()) };
    assert_eq!(nobody.credentials(), Err("Non connecté".to_string()));
    let neither = Session { user_id: None, token: None };
    assert_eq!(neither.credentials(), Err("Non connecté".to_string()));
    let no_token = Session { user_id: Some("u".to_string()), token: None };
    assert_eq!(no_token.credentials(), Err("Token manquant".to_string()));
    let both = Session { user_id: Some("u".to_string()), token: Some("t".to_string()) };
    assert_eq!(
        both.credentials(),
        Ok(Credentials { user_id: "u".to_string(), token: "t".to_string() })
    );
}

#[test]
fn billing_address_is_on_its_own_port() {
    let client = ApiClient::new("http://localhost:3001".to_string());
    assert_eq!(client.base_url(), "http://localhost:3001");
    assert_eq!(client.billing_url(), "http://localhost:3003");
    assert_eq!(ApiClient::new("http://host:3002/api".to_string()).billing_url(), "http://host:3003/api");
    assert_eq!(ApiClient::new("http://host:3003".to_string()).billing_url(), "http://host:3003");
    assert_eq!(ApiClient::new("http://host:8080".to_string()).billing_url(), "http://host:8080");
    assert_eq!(ApiClient::new("http://a:3001/b:3002".to_string()).billing_url(), "http://a:3003/b:3003");
}

#[test]
fn billing_addresses() {
    let client = ApiClient::new("http://localhost:3001".to_string());
    assert_eq!(client.subscription_url("u-1"), "http://localhost:3003/billing/subscriptions/u-1");
    assert_eq!(client.cancel_url("u-1"), "http://localhost:3003/billing/subscriptions/u-1/cancel");
    assert_eq!(client.invoices_url("u-1"), "http://localhost:3003/billing/invoices/u-1");
}

#[test]
fn failure_messages_prefer_the_servers_own() {
    let body = "{\"error\": \"Plan 'gold' invalide\", \"status\": 400}";
    assert_eq!(update_failure_message("400 Bad Request", body), "Plan 'gold' invalide");
    assert_eq!(cancel_failure_message("400 Bad Request", body), "Plan 'gold' invalide");
    assert_eq!(
        update_failure_message("502 Bad Gateway", "<html>"),
        "Erreur serveur billing (502 Bad Gateway)"
    );
    assert_eq!(update_failure_message("500", "{\"error\": 7}"), "Erreur serveur billing (500)");
    assert_eq!(update_failure_message("500", "{\"message\": \"x\"}"), "Erreur serveur billing (500)");
    assert_eq!(update_failure_message("500", "[\"error\"]"), "Erreur serveur billing (500)");
    assert_eq!(cancel_failure_message("404 Not Found", ""), "Erreur (404 Not Found)");
    assert_eq!(failure_message(None, "Erreur", "418"), "Erreur (418)");
    assert_eq!(failure_message(Some("boom".to_string()), "Erreur", "418"), "boom");
}

#[test]
fn other_failure_messages() {
    assert_eq!(
        subscription_failure_message("500 Internal Server Error", "oops"),
        "Erreur billing (500 Internal Server Error): oops"
    );
    assert_eq!(invoices_failure_message("503"), "Erreur billing (503)");
    assert_eq!(network_failure_message("connection refused"), "Erreur réseau billing: connection refused");
}

#[test]
fn plan_is_read_from_the_answer() {
    assert_eq!(plan_of_answer("{\"plan\": \"pro\", \"status\": \"active\"}"), Some("pro".to_string()));
    assert_eq!(plan_of_answer("{\"status\": \"active\"}"), None);
    assert_eq!(plan_of_answer("{\"plan\": null}"), None);
    assert_eq!(plan_of_answer("not json"), None);
    assert_eq!(plan_of_answer("{\"plan\": \"pl\\u00e1n\"}"), Some("plán".to_string()));
}

#[test]
fn change_dialog_texts() {
    assert_eq!(Plan::Free.change_title(&Plan::Pro), "Upgrade to Pro Plan");
    assert_eq!(Plan::Pro.change_title(&Plan::Enterprise), "Upgrade to Enterprise Plan");
    assert_eq!(Plan::Enterprise.change_title(&Plan::Pro), "Downgrade to Pro Plan");
    assert_eq!(Plan::Pro.change_title(&Plan::Free), "Downgrade to Free Plan");
    assert_eq!(Plan::Pro.change_title(&Plan::Pro), "Downgrade to Pro Plan");
    assert_eq!(
        Plan::Pro.charge_notice(),
        "You will be charged $29.99/month starting from the next billing cycle."
    );
    assert_eq!(Plan::Free.limits_notice(), "New limits → 5 projects, 10 members");
    assert_eq!(Plan::Enterprise.limits_notice(), "New limits → ∞ projects, ∞ members");
    assert_eq!(Plan::Enterprise.badge(), "Enterprise Plan");
}
