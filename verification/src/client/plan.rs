//! The plans as the client presents them.

use vstd::prelude::*;
use vstd::string::*;
use crate::text::same_text;

verus! {

/// A plan that the client offers.
#[derive(Clone, Copy, Debug, PartialEq, Eq, Structural)]
pub enum Plan {
    Free,
    Pro,
    Enterprise,
}

/// The plan that the client shows for a name that the server sent: the
/// plan of that name, or the free plan for any other name.
pub open spec fn plan_of_server_name(name: Seq<char>) -> Plan {
    if name == "pro"@ {
        Plan::Pro
    } else if name == "enterprise"@ {
        Plan::Enterprise
    } else {
        Plan::Free
    }
}

impl Plan {
    /// The display name of the plan.
    pub open spec fn spec_name(self) -> Seq<char> {
        match self {
            Plan::Free => "Free"@,
            Plan::Pro => "Pro"@,
            Plan::Enterprise => "Enterprise"@,
        }
    }

    /// The name under which requests to the server refer to the plan.
    pub open spec fn spec_api_name(self) -> Seq<char> {
        match self {
            Plan::Free => "free"@,
            Plan::Pro => "pro"@,
            Plan::Enterprise => "enterprise"@,
        }
    }

    /// The price of the plan as shown.
    pub open spec fn spec_price(self) -> Seq<char> {
        match self {
            Plan::Free => "$0/forever"@,
            Plan::Pro => "$29.99/month"@,
            Plan::Enterprise => "$99.99/month"@,
        }
    }

    /// The monthly price of the plan, in cents.
    pub open spec fn spec_price_amount(self) -> int {
        match self {
            Plan::Free => 0,
            Plan::Pro => 2999,
            Plan::Enterprise => 9999,
        }
    }

    /// The line that describes whom the plan is for.
    pub open spec fn spec_description(self) -> Seq<char> {
        match self {
            Plan::Free => "For individuals and small teams getting started"@,
            Plan::Pro => "For growing teams that need more power"@,
            Plan::Enterprise => "For large organizations with custom needs"@,
        }
    }

    /// The features that the plan's card lists.
    pub open spec fn spec_features(self) -> Seq<Seq<char>> {
        match self {
            Plan::Free => seq![
                "Up to 5 projects"@,
                "10 team members"@,
                "Basic task management"@,
                "Email support"@,
                "1GB storage"@,
            ],
            Plan::Pro => seq![
                "Unlimited projects"@,
                "50 team members"@,
                "Advanced task management"@,
                "Priority support"@,
                "100GB storage"@,
                "Custom integrations"@,
                "Advanced analytics"@,
            ],
            Plan::Enterprise => seq![
                "Unlimited everything"@,
                "Unlimited team members"@,
                "Enterprise task management"@,
                "24/7 phone support"@,
                "Unlimited storage"@,
                "Custom integrations"@,
                "Advanced analytics"@,
                "SLA guarantee"@,
                "Dedicated account manager"@,
            ],
        }
    }

    /// The number of projects that the plan's card promises.
    pub open spec fn spec_max_projects(self) -> Seq<char> {
        match self {
            Plan::Free => "5"@,
            Plan::Pro => "∞"@,
            Plan::Enterprise => "∞"@,
        }
    }

    /// The number of members that the plan's card promises.
    pub open spec fn spec_max_members(self) -> Seq<char> {
        match self {
            Plan::Free => "10"@,
            Plan::Pro => "50"@,
            Plan::Enterprise => "∞"@,
        }
    }

    /// The words on the button that selects the plan.
    pub open spec fn spec_action_label(self) -> Seq<char> {
        match self {
            Plan::Free => "Downgrade to Free"@,
            Plan::Pro => "Upgrade to Pro"@,
            Plan::Enterprise => "Contact Sales"@,
        }
    }

    /// The number of projects that the usage display counts against.
    pub open spec fn spec_project_limit(self) -> Option<usize> {
        match self {
            Plan::Free => Some(5usize),
            Plan::Pro => Some(50usize),
            Plan::Enterprise => None,
        }
    }

    /// The number of tasks that the usage display counts against.
    pub open spec fn spec_task_limit(self) -> Option<usize> {
        match self {
            Plan::Free => Some(100usize),
            Plan::Pro => Some(1000usize),
            Plan::Enterprise => None,
        }
    }

    /// The storage, in megabytes, that the usage display counts against.
    pub open spec fn spec_storage_limit_mb(self) -> Option<usize> {
        match self {
            Plan::Free => Some(1024usize),
            Plan::Pro => Some(102400usize),
            Plan::Enterprise => None,
        }
    }

    /// Reads the plan name that the server sent. A name that the client
    /// does not offer shows as the free plan.
    pub fn from_str(name: &str) -> (plan: Plan)
        ensures
            plan == plan_of_server_name(name@),
    {
        if same_text(name, "pro") {
            Plan::Pro
        } else if same_text(name, "enterprise") {
            Plan::Enterprise
        } else {
            Plan::Free
        }
    }

    /// Returns the name under which requests to the server refer to the
    /// plan.
    pub fn api_name(&self) -> (name: &'static str)
        ensures
            name@ == self.spec_api_name(),
    {
        match self {
            Plan::Free => "free",
            Plan::Pro => "pro",
            Plan::Enterprise => "enterprise",
        }
    }

    /// Returns the display name of the plan.
    pub fn name(&self) -> (name: &'static str)
        ensures
            name@ == self.spec_name(),
    {
        match self {
            Plan::Free => "Free",
            Plan::Pro => "Pro",
            Plan::Enterprise => "Enterprise",
        }
    }

    /// Returns the price of the plan as shown.
    pub fn price(&self) -> (price: &'static str)
        ensures
            price@ == self.spec_price(),
    {
        match self {
            Plan::Free => "$0/forever",
            Plan::Pro => "$29.99/month",
            Plan::Enterprise => "$99.99/month",
        }
    }

    /// Returns the monthly price of the plan, in cents.
    pub fn price_amount(&self) -> (cents: u32)
        ensures
            cents == self.spec_price_amount(),
    {
        match self {
            Plan::Free => 0,
            Plan::Pro => 2999,
            Plan::Enterprise => 9999,
        }
    }

    /// Returns the line that describes whom the plan is for.
    pub fn description(&self) -> (line: &'static str)
        ensures
            line@ == self.spec_description(),
    {
        match self {
            Plan::Free => "For individuals and small teams getting started",
            Plan::Pro => "For growing teams that need more power",
            Plan::Enterprise => "For large organizations with custom needs",
        }
    }

    /// Returns the features that the plan's card lists.
    pub fn features(&self) -> (list: Vec<&'static str>)
        ensures
            list@.len() == self.spec_features().len(),
            forall|i: int| 0 <= i < list@.len() ==> #[trigger] list@[i]@ == self.spec_features()[i],
    {
        match self {
            Plan::Free => vec![
                "Up to 5 projects",
                "10 team members",
                "Basic task management",
                "Email support",
                "1GB storage",
            ],
            Plan::Pro => vec![
                "Unlimited projects",
                "50 team members",
                "Advanced task management",
                "Priority support",
                "100GB storage",
                "Custom integrations",
                "Advanced analytics",
            ],
            Plan::Enterprise => vec![
                "Unlimited everything",
                "Unlimited team members",
                "Enterprise task management",
                "24/7 phone support",
                "Unlimited storage",
                "Custom integrations",
                "Advanced analytics",
                "SLA guarantee",
                "Dedicated account manager",
            ],
        }
    }

    /// Returns the number of projects that the plan's card promises.
    pub fn max_projects(&self) -> (shown: &'static str)
        ensures
            shown@ == self.spec_max_projects(),
    {
        match self {
            Plan::Free => "5",
            Plan::Pro => "∞",
            Plan::Enterprise => "∞",
        }
    }

    /// Returns the number of members that the plan's card promises.
    pub fn max_members(&self) -> (shown: &'static str)
        ensures
            shown@ == self.spec_max_members(),
    {
        match self {
            Plan::Free => "10",
            Plan::Pro => "50",
            Plan::Enterprise => "∞",
        }
    }

    /// Returns the words on the button that selects the plan.
    pub fn action_label(&self) -> (label: &'static str)
        ensures
            label@ == self.spec_action_label(),
    {
        match self {
            Plan::Free => "Downgrade to Free",
            Plan::Pro => "Upgrade to Pro",
            Plan::Enterprise => "Contact Sales",
        }
    }

    /// Tells whether a change from this plan to `target` is an upgrade:
    /// whether the target costs more.
    pub fn is_upgrade_to(&self, target: &Plan) -> (upgrade: bool)
        ensures
            upgrade == (self.spec_price_amount() < target.spec_price_amount()),
    {
        self.price_amount() < target.price_amount()
    }

    /// The heading of the dialog that confirms a change to `target`: an
    /// upgrade where the target costs more, a downgrade otherwise.
    pub open spec fn spec_change_title(self, target: Plan) -> Seq<char> {
        if self.spec_price_amount() < target.spec_price_amount() {
            "Upgrade to "@ + target.spec_name() + " Plan"@
        } else {
            "Downgrade to "@ + target.spec_name() + " Plan"@
        }
    }

    /// The line of the dialog that says what the plan will cost.
    pub open spec fn spec_charge_notice(self) -> Seq<char> {
        "You will be charged "@ + self.spec_price() + " starting from the next billing cycle."@
    }

    /// The line of the dialog that says what the plan allows.
    pub open spec fn spec_limits_notice(self) -> Seq<char> {
        "New limits → "@ + self.spec_max_projects() + " projects, "@ + self.spec_max_members()
            + " members"@
    }

    /// The badge that shows the plan.
    pub open spec fn spec_badge(self) -> Seq<char> {
        self.spec_name() + " Plan"@
    }

    /// Returns the heading of the dialog that confirms a change from this
    /// plan to `target`.
    pub fn change_title(&self, target: &Plan) -> (title: String)
        ensures
            title@ == self.spec_change_title(*target),
    {
        if self.is_upgrade_to(target) {
            String::from_str("Upgrade to ").concat(target.name()).concat(" Plan")
        } else {
            String::from_str("Downgrade to ").concat(target.name()).concat(" Plan")
        }
    }

    /// Returns the line that says what a change to this plan will cost.
    pub fn charge_notice(&self) -> (line: String)
        ensures
            line@ == self.spec_charge_notice(),
    {
        String::from_str("You will be charged ").concat(self.price()).concat(
            " starting from the next billing cycle.",
        )
    }

    /// Returns the line that says what a change to this plan allows.
    pub fn limits_notice(&self) -> (line: String)
        ensures
            line@ == self.spec_limits_notice(),
    {
        String::from_str("New limits → ").concat(self.max_projects()).concat(" projects, ").concat(
            self.max_members(),
        ).concat(" members")
    }

    /// Returns the badge that shows the plan.
    pub fn badge(&self) -> (badge: String)
        ensures
            badge@ == self.spec_badge(),
    {
        String::from_str(self.name()).concat(" Plan")
    }

    /// Returns the number of projects that the usage display counts
    /// against, or nothing where the plan sets no limit.
    pub fn project_limit(&self) -> (limit: Option<usize>)
        ensures
            limit == self.spec_project_limit(),
    {
        match self {
            Plan::Free => Some(5),
            Plan::Pro => Some(50),
            Plan::Enterprise => None,
        }
    }

    /// Returns the number of tasks that the usage display counts against,
    /// or nothing where the plan sets no limit.
    pub fn task_limit(&self) -> (limit: Option<usize>)
        ensures
            limit == self.spec_task_limit(),
    {
        match self {
            Plan::Free => Some(100),
            Plan::Pro => Some(1000),
            Plan::Enterprise => None,
        }
    }

    /// Returns the storage, in megabytes, that the usage display counts
    /// against, or nothing where the plan sets no limit.
    pub fn storage_limit_mb(&self) -> (limit: Option<usize>)
        ensures
            limit == self.spec_storage_limit_mb(),
    {
        match self {
            Plan::Free => Some(1024),
            Plan::Pro => Some(102400),
            Plan::Enterprise => None,
        }
    }
}

/// The storage that the usage display shows as used: twenty megabytes for
/// each project, a gigabyte at most.
pub open spec fn storage_used(projects: usize) -> int {
    if projects * 20 < 1024 {
        projects * 20
    } else {
        1024
    }
}

/// Computes the storage, in megabytes, that the usage display shows as
/// used.
pub fn storage_used_mb(projects: usize) -> (used: usize)
    ensures
        used == storage_used(projects),
{
    if projects < 52 {
        projects * 20
    } else {
        1024
    }
}

/// The client's names lead back to the plans they came from.
pub proof fn lemma_api_names_round_trip()
    ensures
        forall|plan: Plan| #[trigger] plan_of_server_name(plan.spec_api_name()) == plan,
{
    reveal_strlit("free");
    reveal_strlit("pro");
    reveal_strlit("enterprise");
    assert("free"@.len() == 4);
    assert("pro"@.len() == 3);
    assert("enterprise"@.len() == 10);
}

} // verus!
