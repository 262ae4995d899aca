//! The plan catalog: the four plans on offer, with their price, quotas and
//! features. The catalog is fixed in code and never fails: a name that it
//! does not know resolves to the free plan.

use vstd::prelude::*;
use vstd::string::*;
use crate::text::same_text;

verus! {

/// The value that stands for "no limit" in a quota.
pub const UNLIMITED: i32 = -1;

/// The identifier of a plan.
#[derive(Clone, Copy, Debug, PartialEq, Eq, Structural)]
pub enum PlanId {
    Free,
    Starter,
    Pro,
    Enterprise,
}

/// What the catalog holds about one plan. Prices are in cents.
#[derive(Debug, PartialEq, Eq)]
pub struct PlanInfo {
    pub id: String,
    pub name: String,
    pub price_monthly_cents: i64,
    pub max_projects: i32,
    pub max_tasks: i32,
    pub features: Vec<String>,
}

/// The mathematical content of a [`PlanInfo`].
pub struct PlanInfoView {
    pub id: Seq<char>,
    pub name: Seq<char>,
    pub price_monthly_cents: int,
    pub max_projects: int,
    pub max_tasks: int,
    pub features: Seq<Seq<char>>,
}

impl View for PlanInfo {
    type V = PlanInfoView;

    open spec fn view(&self) -> PlanInfoView {
        PlanInfoView {
            id: self.id@,
            name: self.name@,
            price_monthly_cents: self.price_monthly_cents as int,
            max_projects: self.max_projects as int,
            max_tasks: self.max_tasks as int,
            features: Seq::new(self.features@.len(), |i: int| self.features@[i]@),
        }
    }
}

/// The name by which requests and responses refer to a plan.
pub open spec fn plan_name(plan: PlanId) -> Seq<char> {
    match plan {
        PlanId::Free => "free"@,
        PlanId::Starter => "starter"@,
        PlanId::Pro => "pro"@,
        PlanId::Enterprise => "enterprise"@,
    }
}

/// The plan that a name identifies, if it is one of the four.
pub open spec fn plan_of_name(name: Seq<char>) -> Option<PlanId> {
    if name == "free"@ {
        Some(PlanId::Free)
    } else if name == "starter"@ {
        Some(PlanId::Starter)
    } else if name == "pro"@ {
        Some(PlanId::Pro)
    } else if name == "enterprise"@ {
        Some(PlanId::Enterprise)
    } else {
        None
    }
}

/// The plan whose catalog entry a name yields: its own, or the free plan's
/// where the name is unknown.
pub open spec fn resolve(name: Seq<char>) -> PlanId {
    match plan_of_name(name) {
        Some(plan) => plan,
        None => PlanId::Free,
    }
}

/// The monthly price of a plan, in cents.
pub open spec fn price_cents(plan: PlanId) -> int {
    match plan {
        PlanId::Free => 0,
        PlanId::Starter => 999,
        PlanId::Pro => 2999,
        PlanId::Enterprise => 9999,
    }
}

/// The number of projects that a plan allows.
pub open spec fn project_quota(plan: PlanId) -> int {
    match plan {
        PlanId::Free => 3,
        PlanId::Starter => 10,
        PlanId::Pro => 50,
        PlanId::Enterprise => UNLIMITED as int,
    }
}

/// The number of tasks that a plan allows.
pub open spec fn task_quota(plan: PlanId) -> int {
    match plan {
        PlanId::Free => 100,
        PlanId::Starter => 500,
        PlanId::Pro => 5000,
        PlanId::Enterprise => UNLIMITED as int,
    }
}

/// The display name of a plan.
pub open spec fn display_name(plan: PlanId) -> Seq<char> {
    match plan {
        PlanId::Free => "Free"@,
        PlanId::Starter => "Starter"@,
        PlanId::Pro => "Pro"@,
        PlanId::Enterprise => "Enterprise"@,
    }
}

/// The features that a plan advertises.
pub open spec fn feature_list(plan: PlanId) -> Seq<Seq<char>> {
    match plan {
        PlanId::Free => seq!["3 projets max"@, "100 tâches max"@, "Support communauté"@],
        PlanId::Starter => seq![
            "10 projets max"@,
            "500 tâches max"@,
            "Support email"@,
            "API access basique"@,
        ],
        PlanId::Pro => seq![
            "50 projets max"@,
            "5000 tâches max"@,
            "Support prioritaire"@,
            "API access complet"@,
            "Exports avancés"@,
        ],
        PlanId::Enterprise => seq![
            "Projets illimités"@,
            "Tâches illimitées"@,
            "Support 24/7 dédié"@,
            "API access complet"@,
            "SLA 99.9% garanti"@,
            "Onboarding personnalisé"@,
        ],
    }
}

/// The catalog entry of a plan.
pub open spec fn catalog(plan: PlanId) -> PlanInfoView {
    PlanInfoView {
        id: plan_name(plan),
        name: display_name(plan),
        price_monthly_cents: price_cents(plan),
        max_projects: project_quota(plan),
        max_tasks: task_quota(plan),
        features: feature_list(plan),
    }
}

/// The plans in the order in which the catalog lists them.
pub open spec fn catalog_order() -> Seq<PlanId> {
    seq![PlanId::Free, PlanId::Starter, PlanId::Pro, PlanId::Enterprise]
}

/// The four plan names are pairwise different, so each plan is found again
/// by its own name.
pub proof fn lemma_plan_names_distinct()
    ensures
        forall|plan: PlanId| #[trigger] plan_of_name(plan_name(plan)) == Some(plan),
        forall|name: Seq<char>|
            (#[trigger] plan_of_name(name)) matches Some(plan) ==> name == plan_name(plan),
{
    reveal_strlit("free");
    reveal_strlit("starter");
    reveal_strlit("pro");
    reveal_strlit("enterprise");
    assert("free"@.len() == 4);
    assert("starter"@.len() == 7);
    assert("pro"@.len() == 3);
    assert("enterprise"@.len() == 10);
}

impl PlanId {
    /// Reads a plan name. Only the four names of the catalog are accepted.
    pub fn parse(name: &str) -> (plan: Option<PlanId>)
        ensures
            plan == plan_of_name(name@),
    {
        if same_text(name, "free") {
            Some(PlanId::Free)
        } else if same_text(name, "starter") {
            Some(PlanId::Starter)
        } else if same_text(name, "pro") {
            Some(PlanId::Pro)
        } else if same_text(name, "enterprise") {
            Some(PlanId::Enterprise)
        } else {
            None
        }
    }

    /// Returns the name by which requests refer to the plan.
    pub fn as_str(&self) -> (name: &'static str)
        ensures
            name@ == plan_name(*self),
    {
        match self {
            PlanId::Free => "free",
            PlanId::Starter => "starter",
            PlanId::Pro => "pro",
            PlanId::Enterprise => "enterprise",
        }
    }

    /// Returns the monthly price of the plan, in cents.
    pub fn price_cents(&self) -> (price: i64)
        ensures
            price == price_cents(*self),
    {
        match self {
            PlanId::Free => 0,
            PlanId::Starter => 999,
            PlanId::Pro => 2999,
            PlanId::Enterprise => 9999,
        }
    }

    /// Returns the number of projects that the plan allows.
    pub fn max_projects(&self) -> (quota: i32)
        ensures
            quota == project_quota(*self),
    {
        match self {
            PlanId::Free => 3,
            PlanId::Starter => 10,
            PlanId::Pro => 50,
            PlanId::Enterprise => UNLIMITED,
        }
    }

    /// Returns the number of tasks that the plan allows.
    pub fn max_tasks(&self) -> (quota: i32)
        ensures
            quota == task_quota(*self),
    {
        match self {
            PlanId::Free => 100,
            PlanId::Starter => 500,
            PlanId::Pro => 5000,
            PlanId::Enterprise => UNLIMITED,
        }
    }

    /// Tells whether the plan costs anything.
    pub fn is_paid(&self) -> (paid: bool)
        ensures
            paid == (price_cents(*self) > 0),
    {
        self.price_cents() > 0
    }

    /// Returns the features that the plan advertises.
    pub fn features(&self) -> (list: Vec<String>)
        ensures
            list@.len() == feature_list(*self).len(),
            forall|i: int| 0 <= i < list@.len() ==> #[trigger] list@[i]@ == feature_list(*self)[i],
    {
        match self {
            PlanId::Free => vec![
                String::from_str("3 projets max"),
                String::from_str("100 tâches max"),
                String::from_str("Support communauté"),
            ],
            PlanId::Starter => vec![
                String::from_str("10 projets max"),
                String::from_str("500 tâches max"),
                String::from_str("Support email"),
                String::from_str("API access basique"),
            ],
            PlanId::Pro => vec![
                String::from_str("50 projets max"),
                String::from_str("5000 tâches max"),
                String::from_str("Support prioritaire"),
                String::from_str("API access complet"),
                String::from_str("Exports avancés"),
            ],
            PlanId::Enterprise => vec![
                String::from_str("Projets illimités"),
                String::from_str("Tâches illimitées"),
                String::from_str("Support 24/7 dédié"),
                String::from_str("API access complet"),
                String::from_str("SLA 99.9% garanti"),
                String::from_str("Onboarding personnalisé"),
            ],
        }
    }

    /// Returns the catalog entry of the plan.
    pub fn info(&self) -> (info: PlanInfo)
        ensures
            info@ == catalog(*self),
    {
        let display = match self {
            PlanId::Free => "Free",
            PlanId::Starter => "Starter",
            PlanId::Pro => "Pro",
            PlanId::Enterprise => "Enterprise",
        };
        let info = PlanInfo {
            id: String::from_str(self.as_str()),
            name: String::from_str(display),
            price_monthly_cents: self.price_cents(),
            max_projects: self.max_projects(),
            max_tasks: self.max_tasks(),
            features: self.features(),
        };
        assert(info@.features =~= feature_list(*self));
        info
    }
}

/// Looks a plan up by name. The lookup is total: a name outside the catalog
/// yields the free plan's entry.
pub fn get_plan_info(plan: &str) -> (info: PlanInfo)
    ensures
        info@ == catalog(resolve(plan@)),
{
    match PlanId::parse(plan) {
        Some(id) => id.info(),
        None => PlanId::Free.info(),
    }
}

/// Lists the whole catalog: free, starter, pro, enterprise, in that order.
pub fn all_plans() -> (plans: Vec<PlanInfo>)
    ensures
        plans@.len() == catalog_order().len(),
        forall|i: int| 0 <= i < plans@.len() ==> #[trigger] plans@[i]@ == catalog(catalog_order()[i]),
{
    proof {
        lemma_plan_names_distinct();
        assert(resolve(plan_name(PlanId::Free)) == PlanId::Free);
        assert(resolve(plan_name(PlanId::Starter)) == PlanId::Starter);
        assert(resolve(plan_name(PlanId::Pro)) == PlanId::Pro);
        assert(resolve(plan_name(PlanId::Enterprise)) == PlanId::Enterprise);
    }
    vec![
        get_plan_info("free"),
        get_plan_info("starter"),
        get_plan_info("pro"),
        get_plan_info("enterprise"),
    ]
}

} // verus!
