use saas_billing::models::{limit_or_default, page_or_first, PaginationParams};

fn params(page: Option<i64>, limit: Option<i64>) -> PaginationParams {
    PaginationParams { page, limit }
}

#[test]
fn defaults_are_first_page_of_ten() {
    let p = params(None, None);
    assert_eq!((p.page(), p.limit(), p.offset()), (1, 10, 0));
}

#[test]
fn page_is_at_least_one() {
    assert_eq!(params(Some(0), None).page(), 1);
    assert_eq!(params(Some(-5), None).page(), 1);
    assert_eq!(params(Some(i64::MIN), None).page(), 1);
    assert_eq!(params(Some(7), None).page(), 7);
    assert_eq!(params(Some(i64::MAX), None).page(), i64::MAX);
}

#[test]
fn limit_stays_between_one_and_a_hundred() {
    assert_eq!(params(None, Some(0)).limit(), 1);
    assert_eq!(params(None, Some(-3)).limit(), 1);
    assert_eq!(params(None, Some(1)).limit(), 1);
    assert_eq!(params(None, Some(100)).limit(), 100);
    assert_eq!(params(None, Some(101)).limit(), 100);
    assert_eq!(params(None, Some(i64::MAX)).limit(), 100);
    assert_eq!(params(None, Some(25)).limit(), 25);
}

#[test]
fn offset_is_pages_before_times_limit() {
    assert_eq!(params(Some(1), Some(25)).offset(), 0);
    assert_eq!(params(Some(3), Some(25)).offset(), 50);
    assert_eq!(params(Some(4), None).offset(), 30);
    assert_eq!(params(Some(2), Some(500)).offset(), 100);
    assert_eq!(params(Some(0), Some(0)).offset(), 0);
}

#[test]
fn listing_limit_has_no_lower_bound() {
    assert_eq!(limit_or_default(None), 10);
    assert_eq!(limit_or_default(Some(0)), 0);
    assert_eq!(limit_or_default(Some(-1)), -1);
    assert_eq!(limit_or_default(Some(100)), 100);
    assert_eq!(limit_or_default(Some(101)), 100);
    assert_eq!(page_or_first(None), 1);
    assert_eq!(page_or_first(Some(-1)), 1);
    assert_eq!(page_or_first(Some(9)), 9);
}
