//! The normalised usage record, the failure taxonomy, and the steps that
//! turn an HTTP status and a parsed account payload into a record.
use vstd::prelude::*;
use vstd::string::*;

use crate::decimal::{decimal, push_decimal};
use crate::plan::{credits_used, infer_plan, limit_for, plan_for, used_for, Plan};

verus! {

/// The fields of an account response. Every field may be absent; only
/// `balance` takes part in the inference, the others are carried for
/// tolerance of older and newer response shapes.
#[derive(Debug, Clone, PartialEq, Eq)]
pub struct UsagePayload {
    pub balance: Option<i32>,
    pub rate_limit: Option<i32>,
    pub credits_used: Option<i32>,
    pub credits_remaining: Option<i32>,
    pub credits_limit: Option<i32>,
    pub plan: Option<String>,
}

impl UsagePayload {
    /// The balance, zero when absent.
    pub open spec fn balance_spec(&self) -> int {
        match self.balance {
            Some(b) => b as int,
            None => 0,
        }
    }

    pub fn balance_or_zero(&self) -> (r: i32)
        ensures
            r as int == self.balance_spec(),
    {
        match self.balance {
            Some(b) => b,
            None => 0,
        }
    }
}

/// A normalised usage record.
#[derive(Debug, Clone, PartialEq, Eq)]
pub struct NormalizedUsage {
    pub success: bool,
    pub credits_used: i32,
    pub credits_remaining: i32,
    pub credits_limit: i32,
    pub plan: String,
    pub error: Option<String>,
    pub raw_response: Option<String>,
}

/// The mathematical content of a [`NormalizedUsage`].
pub struct UsageView {
    pub success: bool,
    pub credits_used: int,
    pub credits_remaining: int,
    pub credits_limit: int,
    pub plan: Seq<char>,
    pub error: Option<Seq<char>>,
    pub raw_response: Option<Seq<char>>,
}

impl View for NormalizedUsage {
    type V = UsageView;

    open spec fn view(&self) -> UsageView {
        UsageView {
            success: self.success,
            credits_used: self.credits_used as int,
            credits_remaining: self.credits_remaining as int,
            credits_limit: self.credits_limit as int,
            plan: self.plan@,
            error: self.error.deep_view(),
            raw_response: self.raw_response.deep_view(),
        }
    }
}

impl UsageView {
    /// A record is either a success that echoes the raw body and carries no
    /// error, or a failure that carries an error, zero credits and the
    /// unknown tier.
    pub open spec fn consistent(self) -> bool {
        if self.success {
            self.raw_response is Some && self.error is None
        } else {
            &&& self.error is Some
            &&& self.credits_used == 0
            &&& self.credits_remaining == 0
            &&& self.credits_limit == 0
            &&& self.plan == Plan::Unknown.label_spec()
        }
    }
}

/// The record computed from a balance, echoing the raw body it came from.
pub open spec fn record_of_balance(balance: int, raw: Seq<char>) -> UsageView {
    UsageView {
        success: true,
        credits_used: used_for(balance),
        credits_remaining: balance,
        credits_limit: limit_for(balance),
        plan: plan_for(balance).label_spec(),
        error: None,
        raw_response: Some(raw),
    }
}

/// Whether an HTTP status code is in the success class.
pub open spec fn is_success_status(status: u16) -> bool {
    200 <= status <= 299
}

/// The error text of a record for a non-success status.
pub open spec fn status_message(status: u16) -> Seq<char> {
    "API returned status: "@ + decimal(status as nat)
}

/// The record for a response whose status is not a success.
pub open spec fn record_of_status(status: u16) -> UsageView {
    UsageView {
        success: false,
        credits_used: 0,
        credits_remaining: 0,
        credits_limit: 0,
        plan: Plan::Unknown.label_spec(),
        error: Some(status_message(status)),
        raw_response: None,
    }
}

/// A failure that leaves no record: the request could not be made, or its
/// body could not be read as an account payload.
#[derive(Debug, Clone, PartialEq, Eq)]
pub enum UsageError {
    Connection { cause: String },
    Parse { message: String, raw: String },
}

impl UsageError {
    /// The human-readable description of the failure.
    pub open spec fn describe_spec(&self) -> Seq<char> {
        match self {
            UsageError::Connection { cause } => "Failed to connect to Serper API: "@ + cause@,
            UsageError::Parse { message, raw } => "Failed to parse response: "@ + message@
                + ". Raw: "@ + raw@,
        }
    }

    pub fn describe(&self) -> (r: String)
        ensures
            r@ == self.describe_spec(),
    {
        match self {
            UsageError::Connection { cause } => {
                let s = String::from_str("Failed to connect to Serper API: ");
                s.concat(cause.as_str())
            },
            UsageError::Parse { message, raw } => {
                let s = String::from_str("Failed to parse response: ");
                let s = s.concat(message.as_str());
                let s = s.concat(". Raw: ");
                s.concat(raw.as_str())
            },
        }
    }
}

/// Whether an HTTP status code is in the success class (200 to 299).
pub fn status_is_success(status: u16) -> (r: bool)
    ensures
        r == is_success_status(status),
{
    200 <= status && status <= 299
}

/// The soft-failure record for a non-success status.
pub fn status_failure(status: u16) -> (r: NormalizedUsage)
    ensures
        r@ == record_of_status(status),
        r@.consistent(),
{
    let mut error = String::from_str("API returned status: ");
    push_decimal(&mut error, status);
    let plan = Plan::Unknown;
    NormalizedUsage {
        success: false,
        credits_used: 0,
        credits_remaining: 0,
        credits_limit: 0,
        plan: String::from_str(plan.label()),
        error: Some(error),
        raw_response: None,
    }
}

/// Decides on a received status: a success status leaves the body to be
/// normalised (`None`); any other gives the soft-failure record.
pub fn check_status(status: u16) -> (r: Option<NormalizedUsage>)
    ensures
        r is None <==> is_success_status(status),
        r matches Some(u) ==> u@ == record_of_status(status),
{
    if status_is_success(status) {
        None
    } else {
        Some(status_failure(status))
    }
}

/// Builds the success record from a parsed payload and the raw body.
pub fn normalize_payload(payload: &UsagePayload, raw_text: String) -> (r: NormalizedUsage)
    ensures
        r@ == record_of_balance(payload.balance_spec(), raw_text@),
        r@.consistent(),
{
    let balance = payload.balance_or_zero();
    let (plan, credits_limit) = infer_plan(balance);
    NormalizedUsage {
        success: true,
        credits_used: credits_used(balance),
        credits_remaining: balance,
        credits_limit,
        plan: String::from_str(plan.label()),
        error: None,
        raw_response: Some(raw_text),
    }
}

/// Normalises a success body, given the body and the outcome of reading it
/// as an account payload (the payload, or the parser's message). A body
/// that did not parse is a hard failure carrying the message and the body.
pub fn normalize(raw_text: String, parsed: Result<UsagePayload, String>) -> (r: Result<
    NormalizedUsage,
    UsageError,
>)
    ensures
        r is Ok <==> parsed is Ok,
        parsed matches Ok(p) ==> r matches Ok(u) && u@ == record_of_balance(
            p.balance_spec(),
            raw_text@,
        ),
        parsed matches Err(m) ==> r matches Err(UsageError::Parse { message, raw }) && message@
            == m@ && raw@ == raw_text@,
{
    match parsed {
        Ok(payload) => Ok(normalize_payload(&payload, raw_text)),
        Err(message) => Err(UsageError::Parse { message, raw: raw_text }),
    }
}

/// Every balance above the free allowance is reported as the paid tier,
/// with a limit of 10000 credits, `10000 - balance` used and the balance
/// remaining.
pub proof fn lemma_pro_band(balance: int, raw: Seq<char>)
    requires
        balance > 2500,
    ensures
        record_of_balance(balance, raw).plan == "Pro"@,
        record_of_balance(balance, raw).credits_limit == 10000,
        record_of_balance(balance, raw).credits_used == 10000 - balance,
        record_of_balance(balance, raw).credits_remaining == balance,
{
}

/// Every positive balance up to the free allowance is reported as the free
/// tier, with a limit of 2500 credits and `2500 - balance` used.
pub proof fn lemma_free_band(balance: int, raw: Seq<char>)
    requires
        0 < balance <= 2500,
    ensures
        record_of_balance(balance, raw).plan == "Free"@,
        record_of_balance(balance, raw).credits_limit == 2500,
        record_of_balance(balance, raw).credits_used == 2500 - balance,
        record_of_balance(balance, raw).credits_remaining == balance,
{
}

/// A balance of zero or below is reported as the unknown tier, with no
/// limit, nothing used and the balance remaining.
pub proof fn lemma_unknown_band(balance: int, raw: Seq<char>)
    requires
        balance <= 0,
    ensures
        record_of_balance(balance, raw).plan == "Unknown"@,
        record_of_balance(balance, raw).credits_limit == 0,
        record_of_balance(balance, raw).credits_used == 0,
        record_of_balance(balance, raw).credits_remaining == balance,
{
}

/// A payload without a balance is reported as a balance of zero: the
/// unknown tier, with no limit, nothing used and nothing remaining.
pub proof fn lemma_missing_balance(payload: UsagePayload, raw: Seq<char>)
    requires
        payload.balance is None,
    ensures
        record_of_balance(payload.balance_spec(), raw).plan == "Unknown"@,
        record_of_balance(payload.balance_spec(), raw).credits_limit == 0,
        record_of_balance(payload.balance_spec(), raw).credits_used == 0,
        record_of_balance(payload.balance_spec(), raw).credits_remaining == 0,
{
}

/// The band edges: a balance of exactly 2500 is still the free tier with a
/// limit of 2500, and a balance of exactly zero is the unknown tier with no
/// limit.
pub proof fn lemma_band_edges(raw: Seq<char>)
    ensures
        record_of_balance(2500, raw).plan == "Free"@,
        record_of_balance(2500, raw).credits_limit == 2500,
        record_of_balance(0, raw).plan == "Unknown"@,
        record_of_balance(0, raw).credits_limit == 0,
{
}

/// The rate limit and the legacy credit and plan fields never affect the
/// record: two payloads with the same balance give the same record for the
/// same body.
pub proof fn lemma_legacy_fields_ignored(a: UsagePayload, b: UsagePayload, raw: Seq<char>)
    requires
        a.balance == b.balance,
    ensures
        record_of_balance(a.balance_spec(), raw) == record_of_balance(b.balance_spec(), raw),
{
}

/// Normalising the same body twice, with the same outcome of reading it,
/// gives the same result both times: two failures, or two identical records.
pub proof fn lemma_normalize_repeatable(
    raw: Seq<char>,
    first: Result<UsagePayload, String>,
    second: Result<UsagePayload, String>,
)
    requires
        first == second,
    ensures
        first is Ok <==> second is Ok,
        first matches Ok(p) ==> second matches Ok(q) && record_of_balance(p.balance_spec(), raw)
            == record_of_balance(q.balance_spec(), raw),
{
}

/// Every record for a non-success status is a consistent failure record
/// that carries the status in its error text.
pub proof fn lemma_status_record_consistent(status: u16)
    ensures
        record_of_status(status).consistent(),
        record_of_status(status).error == Some(status_message(status)),
{
}

} // verus!
