//! Plan and credit-limit inference from the reported balance.
use vstd::prelude::*;

verus! {

/// Credit limit of the free tier; balances above it are taken to belong to
/// the paid tier.
pub const FREE_LIMIT: i32 = 2500;

/// Credit limit assumed for the paid tier.
pub const PRO_LIMIT: i32 = 10000;

/// The subscription tier inferred from a balance.
#[derive(Clone, Copy, Debug, PartialEq, Eq, Structural)]
pub enum Plan {
    Pro,
    Free,
    Unknown,
}

/// The tier that a balance is taken to indicate.
pub open spec fn plan_for(balance: int) -> Plan {
    if balance > FREE_LIMIT {
        Plan::Pro
    } else if balance > 0 {
        Plan::Free
    } else {
        Plan::Unknown
    }
}

/// The credit limit of a tier; zero when the tier is unknown.
pub open spec fn limit_of(plan: Plan) -> int {
    match plan {
        Plan::Pro => PRO_LIMIT as int,
        Plan::Free => FREE_LIMIT as int,
        Plan::Unknown => 0,
    }
}

/// The credit limit inferred from a balance.
pub open spec fn limit_for(balance: int) -> int {
    limit_of(plan_for(balance))
}

/// Credits consumed: the limit less the balance, or zero without a limit.
pub open spec fn used_for(balance: int) -> int {
    if limit_for(balance) > 0 {
        limit_for(balance) - balance
    } else {
        0
    }
}

impl Plan {
    /// The name under which the tier is reported.
    pub open spec fn label_spec(self) -> Seq<char> {
        match self {
            Plan::Pro => "Pro"@,
            Plan::Free => "Free"@,
            Plan::Unknown => "Unknown"@,
        }
    }

    pub fn label(&self) -> (r: &'static str)
        ensures
            r@ == self.label_spec(),
    {
        match self {
            Plan::Pro => "Pro",
            Plan::Free => "Free",
            Plan::Unknown => "Unknown",
        }
    }

    pub fn limit(&self) -> (r: i32)
        ensures
            r as int == limit_of(*self),
    {
        match self {
            Plan::Pro => PRO_LIMIT,
            Plan::Free => FREE_LIMIT,
            Plan::Unknown => 0,
        }
    }
}

/// Infers the tier and its credit limit from a balance.
pub fn infer_plan(balance: i32) -> (r: (Plan, i32))
    ensures
        r.0 == plan_for(balance as int),
        r.1 as int == limit_for(balance as int),
{
    let plan = if balance > FREE_LIMIT {
        Plan::Pro
    } else if balance > 0 {
        Plan::Free
    } else {
        Plan::Unknown
    };
    (plan, plan.limit())
}

/// Credits consumed for a balance, under the inferred limit.
pub fn credits_used(balance: i32) -> (r: i32)
    ensures
        r as int == used_for(balance as int),
{
    let (_, limit) = infer_plan(balance);
    if limit > 0 {
        limit - balance
    } else {
        0
    }
}

} // verus!
