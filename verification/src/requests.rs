//! The reading of requests: which plan, status and renewal a request for
//! a subscription means, and what refuses a request that cannot be read.

use vstd::prelude::*;
use vstd::string::*;
use crate::errors::AppError;
use crate::models::{CreateSubscriptionRequest, SubscriptionStatus, UpdateSubscriptionRequest};
use crate::plans::{plan_of_name, PlanId};
use crate::text::same_text;

verus! {

/// What a change of subscription asks for, once its request is read.
#[derive(Clone, Copy, Debug, PartialEq, Eq)]
pub struct PlanChange {
    pub plan: PlanId,
    pub status: SubscriptionStatus,
    pub auto_renew: bool,
}

/// The text that refuses an unknown plan in a request for a new
/// subscription.
pub open spec fn invalid_plan_text(name: Seq<char>) -> Seq<char> {
    "Plan '"@ + name + "' invalide"@
}

/// The text that refuses an unknown plan in a request for a change.
pub open spec fn invalid_change_text(name: Seq<char>) -> Seq<char> {
    "Plan '"@ + name + "' invalide. Valeurs acceptées: free, starter, pro, enterprise"@
}

/// The text that refuses an unknown status in a request for a change.
pub open spec fn invalid_status_text(name: Seq<char>) -> Seq<char> {
    "Erreur mise à jour: statut '"@ + name + "' inconnu"@
}

/// The status that a name stands for.
pub open spec fn status_of_name(name: Seq<char>) -> Option<SubscriptionStatus> {
    if name == "active"@ {
        Some(SubscriptionStatus::Active)
    } else if name == "cancelled"@ {
        Some(SubscriptionStatus::Cancelled)
    } else {
        None
    }
}

/// The name of a status.
pub open spec fn status_name(status: SubscriptionStatus) -> Seq<char> {
    match status {
        SubscriptionStatus::Active => "active"@,
        SubscriptionStatus::Cancelled => "cancelled"@,
    }
}

/// The plan that a request for a change means: the one it names, or the
/// free plan where it names none.
pub open spec fn change_plan(plan: Option<String>) -> Option<PlanId> {
    match plan {
        Some(name) => plan_of_name(name@),
        None => Some(PlanId::Free),
    }
}

/// The status that a request for a change means: the one it names, or
/// active where it names none.
pub open spec fn change_status(status: Option<String>) -> Option<SubscriptionStatus> {
    match status {
        Some(name) => status_of_name(name@),
        None => Some(SubscriptionStatus::Active),
    }
}

/// Whether a request for a change means renewal: as it says, or on where
/// it says nothing.
pub open spec fn change_renewal(auto_renew: Option<bool>) -> bool {
    match auto_renew {
        Some(renew) => renew,
        None => true,
    }
}

/// The change that a readable request asks for.
pub open spec fn requested_change(body: UpdateSubscriptionRequest) -> PlanChange {
    PlanChange {
        plan: change_plan(body.plan)->Some_0,
        status: change_status(body.status)->Some_0,
        auto_renew: change_renewal(body.auto_renew),
    }
}

/// The change that a request for a new subscription asks for.
pub open spec fn fresh_change(plan: PlanId) -> PlanChange {
    PlanChange { plan, status: SubscriptionStatus::Active, auto_renew: true }
}

impl SubscriptionStatus {
    /// Reads a status name.
    pub fn parse(name: &str) -> (status: Option<SubscriptionStatus>)
        ensures
            status == status_of_name(name@),
    {
        if same_text(name, "active") {
            Some(SubscriptionStatus::Active)
        } else if same_text(name, "cancelled") {
            Some(SubscriptionStatus::Cancelled)
        } else {
            None
        }
    }

    /// Returns the name of the status.
    pub fn as_str(&self) -> (name: &'static str)
        ensures
            name@ == status_name(*self),
    {
        match self {
            SubscriptionStatus::Active => "active",
            SubscriptionStatus::Cancelled => "cancelled",
        }
    }
}

impl CreateSubscriptionRequest {
    /// Reads the plan that the request names. Only the four plans of the
    /// catalog are accepted.
    pub fn plan_id(&self) -> (outcome: Result<PlanId, AppError>)
        ensures
            match outcome {
                Ok(plan) => plan_of_name(self.plan@) == Some(plan),
                Err(error) => plan_of_name(self.plan@) is None && error is ValidationError
                    && error.text() == invalid_plan_text(self.plan@),
            },
    {
        match PlanId::parse(self.plan.as_str()) {
            Some(plan) => Ok(plan),
            None => {
                let text = String::from_str("Plan '").concat(self.plan.as_str()).concat(
                    "' invalide",
                );
                Err(AppError::ValidationError(text))
            },
        }
    }
}

impl UpdateSubscriptionRequest {
    /// Reads the change that the request asks for. An unknown plan is a
    /// validation failure; an unknown status, which the store cannot hold,
    /// an internal one. The plan is looked at first.
    pub fn change(&self) -> (outcome: Result<PlanChange, AppError>)
        ensures
            match outcome {
                Ok(change) => {
                    &&& change_plan(self.plan) == Some(change.plan)
                    &&& change_status(self.status) == Some(change.status)
                    &&& change.auto_renew == change_renewal(self.auto_renew)
                },
                Err(error) => if change_plan(self.plan) is None {
                    error is ValidationError && error.text() == invalid_change_text(
                        self.plan->Some_0@,
                    )
                } else {
                    change_status(self.status) is None && error is InternalError && error.text()
                        == invalid_status_text(self.status->Some_0@)
                },
            },
    {
        let plan = match &self.plan {
            Some(name) => match PlanId::parse(name.as_str()) {
                Some(plan) => plan,
                None => {
                    let text = String::from_str("Plan '").concat(name.as_str()).concat(
                        "' invalide. Valeurs acceptées: free, starter, pro, enterprise",
                    );
                    return Err(AppError::ValidationError(text));
                },
            },
            None => PlanId::Free,
        };
        let status = match &self.status {
            Some(name) => match SubscriptionStatus::parse(name.as_str()) {
                Some(status) => status,
                None => {
                    let text = String::from_str("Erreur mise à jour: statut '").concat(
                        name.as_str(),
                    ).concat("' inconnu");
                    return Err(AppError::InternalError(text));
                },
            },
            None => SubscriptionStatus::Active,
        };
        let auto_renew = match self.auto_renew {
            Some(renew) => renew,
            None => true,
        };
        Ok(PlanChange { plan, status, auto_renew })
    }
}

} // verus!
