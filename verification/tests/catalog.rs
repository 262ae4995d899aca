use saas_billing::handlers::{get_plan, list_plans};
use saas_billing::plans::{all_plans, get_plan_info, PlanId, UNLIMITED};

#[test]
fn parses_the_four_plan_names() {
    assert_eq!(PlanId::parse("free"), Some(PlanId::Free));
    assert_eq!(PlanId::parse("starter"), Some(PlanId::Starter));
    assert_eq!(PlanId::parse("pro"), Some(PlanId::Pro));
    assert_eq!(PlanId::parse("enterprise"), Some(PlanId::Enterprise));
}

#[test]
fn rejects_names_outside_the_catalog() {
    assert_eq!(PlanId::parse("bogus"), None);
    assert_eq!(PlanId::parse(""), None);
    assert_eq!(PlanId::parse("Pro"), None);
    assert_eq!(PlanId::parse("pro "), None);
}

#[test]
fn plan_names_round_trip() {
    for plan in [PlanId::Free, PlanId::Starter, PlanId::Pro, PlanId::Enterprise] {
        assert_eq!(PlanId::parse(plan.as_str()), Some(plan));
    }
}

#[test]
fn prices_are_exact() {
    assert_eq!(PlanId::Free.price_cents(), 0);
    assert_eq!(PlanId::Starter.price_cents(), 999);
    assert_eq!(PlanId::Pro.price_cents(), 2999);
    assert_eq!(PlanId::Enterprise.price_cents(), 9999);
    assert!(!PlanId::Free.is_paid());
    assert!(PlanId::Starter.is_paid());
    assert!(PlanId::Pro.is_paid());
    assert!(PlanId::Enterprise.is_paid());
}

#[test]
fn quotas_are_exact() {
    assert_eq!((PlanId::Free.max_projects(), PlanId::Free.max_tasks()), (3, 100));
    assert_eq!((PlanId::Starter.max_projects(), PlanId::Starter.max_tasks()), (10, 500));
    assert_eq!((PlanId::Pro.max_projects(), PlanId::Pro.max_tasks()), (50, 5000));
    assert_eq!(PlanId::Enterprise.max_projects(), UNLIMITED);
    assert_eq!(PlanId::Enterprise.max_tasks(), UNLIMITED);
    assert_eq!(UNLIMITED, -1);
}

#[test]
fn free_entry_is_complete() {
    let info = get_plan_info("free");
    assert_eq!(info.id, "free");
    assert_eq!(info.name, "Free");
    assert_eq!(info.price_monthly_cents, 0);
    assert_eq!(info.max_projects, 3);
    assert_eq!(info.max_tasks, 100);
    assert_eq!(info.features, vec!["3 projets max", "100 tâches max", "Support communauté"]);
}

#[test]
fn starter_entry_is_complete() {
    let info = get_plan_info("starter");
    assert_eq!(info.id, "starter");
    assert_eq!(info.name, "Starter");
    assert_eq!(info.price_monthly_cents, 999);
    assert_eq!(info.max_projects, 10);
    assert_eq!(info.max_tasks, 500);
    assert_eq!(
        info.features,
        vec!["10 projets max", "500 tâches max", "Support email", "API access basique"]
    );
}

#[test]
fn pro_entry_is_complete() {
    let info = get_plan_info("pro");
    assert_eq!(info.id, "pro");
    assert_eq!(info.name, "Pro");
    assert_eq!(info.price_monthly_cents, 2999);
    assert_eq!(info.max_projects, 50);
    assert_eq!(info.max_tasks, 5000);
    assert_eq!(
        info.features,
        vec![
            "50 projets max",
            "5000 tâches max",
            "Support prioritaire",
            "API access complet",
            "Exports avancés"
        ]
    );
}

#[test]
fn enterprise_entry_is_complete() {
    let info = get_plan_info("enterprise");
    assert_eq!(info.id, "enterprise");
    assert_eq!(info.name, "Enterprise");
    assert_eq!(info.price_monthly_cents, 9999);
    assert_eq!(info.max_projects, -1);
    assert_eq!(info.max_tasks, -1);
    assert_eq!(
        info.features,
        vec![
            "Projets illimités",
            "Tâches illimitées",
            "Support 24/7 dédié",
            "API access complet",
            "SLA 99.9% garanti",
            "Onboarding personnalisé"
        ]
    );
}

#[test]
fn unknown_name_resolves_to_free() {
    assert_eq!(get_plan_info("bogus"), get_plan_info("free"));
    assert_eq!(get_plan_info(""), PlanId::Free.info());
    assert_eq!(get_plan("platinum"), PlanId::Free.info());
}

#[test]
fn lookup_agrees_with_the_typed_entry() {
    for plan in [PlanId::Free, PlanId::Starter, PlanId::Pro, PlanId::Enterprise] {
        assert_eq!(get_plan_info(plan.as_str()), plan.info());
        assert_eq!(plan.info().price_monthly_cents, plan.price_cents());
        assert_eq!(plan.info().max_projects, plan.max_projects());
        assert_eq!(plan.info().max_tasks, plan.max_tasks());
        assert_eq!(plan.info().features, plan.features());
    }
}

#[test]
fn catalog_lists_the_plans_in_order() {
    let plans = all_plans();
    let ids: Vec<&str> = plans.iter().map(|p| p.id.as_str()).collect();
    assert_eq!(ids, vec!["free", "starter", "pro", "enterprise"]);
    assert_eq!(list_plans(), plans);
}
