use saas_billing::errors::AppError;
use saas_billing::handlers::{
    cancel_subscription, check_quota, create_invoice, create_subscription, delete_invoice,
    get_invoice, get_subscription, list_invoices, pay_invoice, update_subscription,
};
use saas_billing::models::{
    CreateInvoiceRequest, CreateSubscriptionRequest, InvoiceIntent, InvoiceQuery, InvoiceState,
    SubscriptionStatus, UpdateSubscriptionRequest,
};
use saas_billing::plans::PlanId;
use saas_billing::requests::PlanChange;
use saas_billing::store::BillingStore;

const U: u128 = 0x11111111_2222_3333_4444_555555555555;

fn wants(plan: &str) -> CreateSubscriptionRequest {
    CreateSubscriptionRequest { user_id: U, plan: plan.to_string() }
}

fn patch(plan: Option<&str>, status: Option<&str>, auto_renew: Option<bool>) -> UpdateSubscriptionRequest {
    UpdateSubscriptionRequest {
        plan: plan.map(|p| p.to_string()),
        status: status.map(|s| s.to_string()),
        auto_renew,
    }
}

fn first_page() -> InvoiceQuery {
    InvoiceQuery { page: None, limit: None, status: None }
}

fn bill(amount_cents: i64) -> CreateInvoiceRequest {
    CreateInvoiceRequest { user_id: U, subscription_id: None, amount_cents, currency: None, due_date: None }
}

#[test]
fn status_names_are_read() {
    assert_eq!(SubscriptionStatus::parse("active"), Some(SubscriptionStatus::Active));
    assert_eq!(SubscriptionStatus::parse("cancelled"), Some(SubscriptionStatus::Cancelled));
    assert_eq!(SubscriptionStatus::parse("canceled"), None);
    assert_eq!(SubscriptionStatus::parse(""), None);
    assert_eq!(SubscriptionStatus::Active.as_str(), "active");
    assert_eq!(SubscriptionStatus::Cancelled.as_str(), "cancelled");
}

#[test]
fn request_names_its_plan() {
    assert_eq!(wants("enterprise").plan_id(), Ok(PlanId::Enterprise));
    assert_eq!(
        wants("bogus").plan_id(),
        Err(AppError::ValidationError("Plan 'bogus' invalide".to_string()))
    );
}

#[test]
fn change_takes_defaults_for_absent_fields() {
    assert_eq!(
        patch(None, None, None).change(),
        Ok(PlanChange { plan: PlanId::Free, status: SubscriptionStatus::Active, auto_renew: true })
    );
    assert_eq!(
        patch(Some("starter"), Some("cancelled"), Some(false)).change(),
        Ok(PlanChange {
            plan: PlanId::Starter,
            status: SubscriptionStatus::Cancelled,
            auto_renew: false
        })
    );
}

#[test]
fn change_refuses_what_it_cannot_read() {
    assert_eq!(
        patch(Some("gold"), None, None).change(),
        Err(AppError::ValidationError(
            "Plan 'gold' invalide. Valeurs acceptées: free, starter, pro, enterprise".to_string()
        ))
    );
    assert_eq!(
        patch(Some("pro"), Some("paused"), None).change(),
        Err(AppError::InternalError("Erreur mise à jour: statut 'paused' inconnu".to_string()))
    );
    assert!(matches!(
        patch(Some("gold"), Some("paused"), None).change(),
        Err(AppError::ValidationError(_))
    ));
}

#[test]
fn bogus_plan_is_refused_and_prior_subscription_stays() {
    let mut store = BillingStore::new();
    let before = create_subscription(&mut store, &wants("starter")).unwrap().subscription;
    let refused = create_subscription(&mut store, &wants("bogus"));
    assert_eq!(refused, Err(AppError::ValidationError("Plan 'bogus' invalide".to_string())));
    assert_eq!(refused.unwrap_err().status_code(), 400);
    assert_eq!(store.find(U), Some(before));
    assert_eq!(list_invoices(&store, U, &first_page()).unwrap().total, 1);
    let refused = update_subscription(&mut store, U, &patch(Some("bogus"), None, None));
    assert!(matches!(refused, Err(AppError::ValidationError(_))));
    assert_eq!(store.find(U), Some(before));
    assert_eq!(list_invoices(&store, U, &first_page()).unwrap().total, 1);
}

#[test]
fn bogus_plan_for_a_new_user_stores_nothing() {
    let mut store = BillingStore::new();
    assert!(create_subscription(&mut store, &wants("bogus")).is_err());
    assert_eq!(store.find(U), None);
    assert_eq!(list_invoices(&store, U, &first_page()).unwrap().total, 0);
}

#[test]
fn created_subscription_carries_the_plan_metadata() {
    let mut store = BillingStore::new();
    let details = create_subscription(&mut store, &wants("pro")).unwrap();
    let sub = details.subscription;
    assert_eq!(sub.user_id, U);
    assert_eq!(sub.plan, PlanId::Pro);
    assert_eq!(sub.status, SubscriptionStatus::Active);
    assert!(sub.auto_renew);
    assert_eq!((sub.max_projects, sub.max_tasks), (Some(50), Some(5000)));
    assert_eq!(details.plan_info, PlanId::Pro.info());
    assert_eq!(store.find(U), Some(sub));
}

#[test]
fn created_subscription_is_dated_by_the_clock() {
    let mut store = BillingStore::new();
    let sub = create_subscription(&mut store, &wants("pro")).unwrap().subscription;
    assert!(sub.started_at > 1_600_000_000);
    assert!(sub.started_at < 0x1_0000_0000_0000);
    assert_eq!(sub.expires_at, Some(sub.started_at + 2_592_000));
    assert_eq!((sub.created_at, sub.updated_at), (sub.started_at, sub.started_at));
    let free = create_subscription(&mut store, &wants("free")).unwrap().subscription;
    assert_eq!(free.expires_at, None);
    assert_eq!(free.started_at, sub.started_at);
    assert!(free.updated_at >= sub.updated_at);
}

#[test]
fn drawn_identifiers_differ() {
    let mut store = BillingStore::new();
    let first = create_subscription(&mut store, &wants("pro")).unwrap().subscription;
    let other = CreateSubscriptionRequest { user_id: U + 1, plan: "starter".to_string() };
    let second = create_subscription(&mut store, &other).unwrap().subscription;
    assert_ne!(first.id, second.id);
    let mine = list_invoices(&store, U, &first_page()).unwrap();
    let theirs = list_invoices(&store, U + 1, &first_page()).unwrap();
    assert_ne!(mine.data[0].invoice.id, theirs.data[0].invoice.id);
    assert_eq!(mine.data[0].invoice.subscription_id, Some(first.id));
    assert_eq!(theirs.data[0].invoice.subscription_id, Some(second.id));
}

#[test]
fn upgrading_a_free_user_to_pro_issues_one_invoice() {
    let mut store = BillingStore::new();
    create_subscription(&mut store, &wants("free")).unwrap();
    assert_eq!(list_invoices(&store, U, &first_page()).unwrap().total, 0);
    let sub = create_subscription(&mut store, &wants("pro")).unwrap().subscription;
    let page = list_invoices(&store, U, &first_page()).unwrap();
    assert_eq!(page.total, 1);
    let invoice = &page.data[0].invoice;
    assert_eq!(invoice.status, InvoiceState::Paid);
    assert_eq!(invoice.amount_cents, 2999);
    assert_eq!(invoice.currency, "USD");
    assert_eq!(invoice.user_id, U);
    assert_eq!(invoice.issued_at, sub.updated_at);
    assert_eq!(invoice.due_date, Some(invoice.issued_at + 2_592_000));
}

#[test]
fn each_patch_to_the_same_paid_plan_issues_another_invoice() {
    let mut store = BillingStore::new();
    for expected in 1..=4 {
        update_subscription(&mut store, U, &patch(Some("pro"), None, None)).unwrap();
        assert_eq!(list_invoices(&store, U, &first_page()).unwrap().total, expected);
    }
    assert_eq!(store.find(U).unwrap().plan, PlanId::Pro);
}

#[test]
fn patch_without_a_plan_means_the_free_plan() {
    let mut store = BillingStore::new();
    update_subscription(&mut store, U, &patch(Some("enterprise"), None, None)).unwrap();
    let details = update_subscription(&mut store, U, &patch(None, None, Some(false))).unwrap();
    assert_eq!(details.subscription.plan, PlanId::Free);
    assert!(!details.subscription.auto_renew);
    assert_eq!(details.subscription.max_projects, Some(3));
    assert_eq!(details.plan_info, PlanId::Free.info());
    assert_eq!(list_invoices(&store, U, &first_page()).unwrap().total, 1);
}

#[test]
fn patch_can_set_the_cancelled_status() {
    let mut store = BillingStore::new();
    update_subscription(&mut store, U, &patch(Some("starter"), Some("cancelled"), None)).unwrap();
    assert_eq!(store.find(U).unwrap().status, SubscriptionStatus::Cancelled);
    assert!(!check_quota(&store, U).subscription_active);
    assert_eq!(check_quota(&store, U).max_projects, 10);
}

#[test]
fn patch_with_unknown_status_changes_nothing() {
    let mut store = BillingStore::new();
    update_subscription(&mut store, U, &patch(Some("starter"), None, None)).unwrap();
    let before = store.find(U);
    let refused = update_subscription(&mut store, U, &patch(Some("pro"), Some("paused"), None));
    assert_eq!(refused.unwrap_err().status_code(), 500);
    assert_eq!(store.find(U), before);
    assert_eq!(list_invoices(&store, U, &first_page()).unwrap().total, 1);
}

#[test]
fn read_of_a_subscription_adds_the_catalog_entry() {
    let mut store = BillingStore::new();
    let report = get_subscription(&store, U);
    assert_eq!(report.summary.plan, PlanId::Free);
    assert_eq!(report.summary.status, SubscriptionStatus::Active);
    assert!(!report.summary.auto_renew);
    assert_eq!(report.plan_info, PlanId::Free.info());
    assert_eq!(store.find(U), None);
    create_subscription(&mut store, &wants("enterprise")).unwrap();
    let report = get_subscription(&store, U);
    assert_eq!(report.summary.plan, PlanId::Enterprise);
    assert_eq!(report.summary.max_projects, Some(-1));
    assert_eq!(report.plan_info, PlanId::Enterprise.info());
}

#[test]
fn cancel_says_whether_a_record_existed() {
    let mut store = BillingStore::new();
    let receipt = cancel_subscription(&mut store, U).unwrap();
    assert_eq!(receipt.message, "Subscription cancelled and reset to free");
    assert_eq!(receipt.plan, PlanId::Free);
    assert_eq!(receipt.status, SubscriptionStatus::Active);
    let row = store.find(U).unwrap();
    assert_eq!(receipt.id, row.id);
    assert!(!row.auto_renew);
    create_subscription(&mut store, &wants("pro")).unwrap();
    let receipt = cancel_subscription(&mut store, U).unwrap();
    assert_eq!(receipt.message, "Subscription cancelled, reverted to free");
    assert_eq!(receipt.id, row.id);
    assert_eq!(store.find(U).unwrap().plan, PlanId::Free);
    assert_eq!(store.find(U).unwrap().expires_at, None);
    assert_eq!(check_quota(&store, U).max_tasks, 100);
}

#[test]
fn quota_of_an_unknown_user_creates_no_row() {
    let store = BillingStore::new();
    let quota = check_quota(&store, U);
    assert_eq!(quota.plan, PlanId::Free);
    assert!(!quota.subscription_active);
    assert_eq!((quota.max_projects, quota.max_tasks), (3, 100));
    assert_eq!(store.find(U), None);
}

#[test]
fn manual_invoice_needs_a_positive_amount() {
    let mut store = BillingStore::new();
    let refused = create_invoice(&mut store, &bill(0), InvoiceIntent::Issue);
    assert_eq!(refused, Err(AppError::ValidationError("Amount must be positive".to_string())));
    assert_eq!(list_invoices(&store, U, &first_page()).unwrap().total, 0);
    let invoice = create_invoice(&mut store, &bill(450), InvoiceIntent::Issue).unwrap();
    assert_eq!(invoice.status, InvoiceState::Issued);
    assert_eq!(invoice.amount_cents, 450);
    assert_eq!(invoice.paid_at, None);
    assert_eq!(get_invoice(&store, invoice.id), Ok(invoice));
}

#[test]
fn paying_twice_fails_the_second_time() {
    let mut store = BillingStore::new();
    let invoice = create_invoice(&mut store, &bill(450), InvoiceIntent::Issue).unwrap();
    let paid = pay_invoice(&mut store, invoice.id).unwrap();
    assert_eq!(paid.status, InvoiceState::Paid);
    assert!(paid.paid_at.unwrap() >= invoice.issued_at);
    let again = pay_invoice(&mut store, invoice.id);
    assert_eq!(again, Err(AppError::NotFound("Invoice not found or already paid".to_string())));
    assert_eq!(again.unwrap_err().status_code(), 404);
    assert_eq!(get_invoice(&store, invoice.id), Ok(paid));
}

#[test]
fn deleting_needs_a_draft() {
    let mut store = BillingStore::new();
    let issued = create_invoice(&mut store, &bill(450), InvoiceIntent::Issue).unwrap();
    let draft = create_invoice(&mut store, &bill(450), InvoiceIntent::Draft).unwrap();
    assert_eq!(delete_invoice(&mut store, issued.id).unwrap_err().status_code(), 400);
    assert_eq!(delete_invoice(&mut store, draft.id), Ok(draft.id));
    assert_eq!(get_invoice(&store, draft.id).unwrap_err().status_code(), 404);
    assert_eq!(get_invoice(&store, issued.id), Ok(issued));
    assert_eq!(list_invoices(&store, U, &first_page()).unwrap().total, 1);
}

#[test]
fn end_to_end_through_the_service() {
    let mut store = BillingStore::new();
    create_subscription(&mut store, &wants("free")).unwrap();
    create_subscription(&mut store, &wants("pro")).unwrap();
    let page = list_invoices(&store, U, &first_page()).unwrap();
    assert_eq!((page.total, page.data.len()), (1, 1));
    assert_eq!(page.data[0].invoice.status, InvoiceState::Paid);
    assert_eq!(page.data[0].invoice.amount_cents, 2999);
    assert_eq!(page.data[0].invoice.currency, "USD");
    assert_eq!(page.data[0].plan, PlanId::Pro);
    cancel_subscription(&mut store, U).unwrap();
    let report = get_subscription(&store, U);
    assert_eq!(report.summary.plan, PlanId::Free);
    assert_eq!(report.summary.max_projects, Some(3));
    assert_eq!(report.summary.max_tasks, Some(100));
    assert_eq!(report.summary.status, SubscriptionStatus::Active);
}

#[test]
fn listing_through_the_service_honours_the_status() {
    let mut store = BillingStore::new();
    let draft = create_invoice(&mut store, &bill(100), InvoiceIntent::Draft).unwrap();
    let issued = create_invoice(&mut store, &bill(200), InvoiceIntent::Issue).unwrap();
    create_subscription(&mut store, &wants("starter")).unwrap();
    let ask = |status: &str| InvoiceQuery { page: None, limit: None, status: Some(status.to_string()) };
    let drafts = list_invoices(&store, U, &ask("draft")).unwrap();
    assert_eq!((drafts.total, drafts.data.len()), (1, 1));
    assert_eq!(drafts.data[0].invoice, draft);
    let open = list_invoices(&store, U, &ask("issued")).unwrap();
    assert_eq!((open.total, open.data.len()), (1, 1));
    assert_eq!(open.data[0].invoice, issued);
    let paid = list_invoices(&store, U, &ask("paid")).unwrap();
    assert_eq!((paid.total, paid.data.len()), (1, 1));
    assert_eq!(paid.data[0].invoice.amount_cents, 999);
    assert_eq!(paid.data[0].plan, PlanId::Starter);
    assert_eq!(list_invoices(&store, U, &first_page()).unwrap().total, 3);
}
