use serper_usage::decimal::push_decimal;
use serper_usage::plan::{credits_used, infer_plan, Plan, FREE_LIMIT, PRO_LIMIT};
use serper_usage::usage::{
    check_status, normalize, normalize_payload, status_failure, status_is_success,
    NormalizedUsage, UsageError, UsagePayload,
};

fn payload(balance: Option<i32>, rate_limit: Option<i32>) -> UsagePayload {
    UsagePayload {
        balance,
        rate_limit,
        credits_used: None,
        credits_remaining: None,
        credits_limit: None,
        plan: None,
    }
}

fn record_for(balance: Option<i32>) -> NormalizedUsage {
    normalize_payload(&payload(balance, None), String::from("{}"))
}

fn assert_record(r: &NormalizedUsage, used: i32, remaining: i32, limit: i32, plan: &str) {
    assert!(r.success);
    assert_eq!(r.credits_used, used);
    assert_eq!(r.credits_remaining, remaining);
    assert_eq!(r.credits_limit, limit);
    assert_eq!(r.plan, plan);
    assert_eq!(r.error, None);
}

#[test]
fn free_balance_with_rate_limit() {
    let raw = String::from("{\"balance\": 1500, \"rateLimit\": 10}");
    let r = normalize(raw.clone(), Ok(payload(Some(1500), Some(10)))).unwrap();
    assert_record(&r, 1000, 1500, 2500, "Free");
    assert_eq!(r.raw_response, Some(raw));
}

#[test]
fn pro_balance() {
    let raw = String::from("{\"balance\": 5000}");
    let r = normalize(raw.clone(), Ok(payload(Some(5000), None))).unwrap();
    assert_record(&r, 5000, 5000, 10000, "Pro");
    assert_eq!(r.raw_response, Some(raw));
}

#[test]
fn unauthorized_status_is_soft_failure() {
    let r = check_status(401).unwrap();
    assert!(!r.success);
    assert_eq!(r.credits_used, 0);
    assert_eq!(r.credits_remaining, 0);
    assert_eq!(r.credits_limit, 0);
    assert_eq!(r.plan, "Unknown");
    assert_eq!(r.error, Some(String::from("API returned status: 401")));
    assert_eq!(r.raw_response, None);
}

#[test]
fn success_statuses_leave_body_to_normalize() {
    assert!(check_status(200).is_none());
    assert!(check_status(204).is_none());
    assert!(check_status(299).is_none());
    assert_eq!(
        check_status(500).unwrap().error,
        Some(String::from("API returned status: 500"))
    );
}

#[test]
fn status_class_edges() {
    assert!(!status_is_success(0));
    assert!(!status_is_success(199));
    assert!(status_is_success(200));
    assert!(status_is_success(299));
    assert!(!status_is_success(300));
    assert!(!status_is_success(404));
}

#[test]
fn status_failure_text_for_various_codes() {
    assert_eq!(status_failure(0).error, Some(String::from("API returned status: 0")));
    assert_eq!(status_failure(7).error, Some(String::from("API returned status: 7")));
    assert_eq!(status_failure(100).error, Some(String::from("API returned status: 100")));
    assert_eq!(
        status_failure(65535).error,
        Some(String::from("API returned status: 65535"))
    );
}

#[test]
fn body_that_is_not_json_is_parse_error() {
    let raw = String::from("not json");
    let message = serde_json::from_str::<serde_json::Value>(&raw)
        .unwrap_err()
        .to_string();
    let err = normalize(raw.clone(), Err(message.clone())).unwrap_err();
    assert_eq!(
        err,
        UsageError::Parse {
            message: message.clone(),
            raw: raw.clone()
        }
    );
    let text = err.describe();
    assert!(text.contains("not json"));
    assert_eq!(
        text,
        format!("Failed to parse response: {}. Raw: not json", message)
    );
}

#[test]
fn connection_error_describes_cause() {
    let err = UsageError::Connection {
        cause: String::from("connection refused"),
    };
    assert_eq!(
        err.describe(),
        "Failed to connect to Serper API: connection refused"
    );
}

#[test]
fn pro_band_values() {
    assert_record(&record_for(Some(2501)), 7499, 2501, 10000, "Pro");
    assert_record(&record_for(Some(10000)), 0, 10000, 10000, "Pro");
    assert_record(&record_for(Some(12000)), -2000, 12000, 10000, "Pro");
    assert_record(&record_for(Some(i32::MAX)), 10000 - i32::MAX, i32::MAX, 10000, "Pro");
}

#[test]
fn free_band_values() {
    assert_record(&record_for(Some(1)), 2499, 1, 2500, "Free");
    assert_record(&record_for(Some(2000)), 500, 2000, 2500, "Free");
}

#[test]
fn unknown_band_values() {
    assert_record(&record_for(Some(-5)), 0, -5, 0, "Unknown");
    assert_record(&record_for(Some(i32::MIN)), 0, i32::MIN, 0, "Unknown");
    assert_record(&record_for(None), 0, 0, 0, "Unknown");
}

#[test]
fn band_edges() {
    assert_record(&record_for(Some(2500)), 0, 2500, 2500, "Free");
    assert_record(&record_for(Some(0)), 0, 0, 0, "Unknown");
}

#[test]
fn legacy_fields_do_not_change_record() {
    let raw = String::from("{\"balance\": 300, \"creditsUsed\": 9, \"plan\": \"Team\"}");
    let plain = normalize_payload(&payload(Some(300), None), raw.clone());
    let legacy = UsagePayload {
        balance: Some(300),
        rate_limit: Some(50),
        credits_used: Some(9),
        credits_remaining: Some(1),
        credits_limit: Some(4),
        plan: Some(String::from("Team")),
    };
    let with_legacy = normalize_payload(&legacy, raw);
    assert_eq!(plain, with_legacy);
    assert_record(&with_legacy, 2200, 300, 2500, "Free");
}

#[test]
fn normalize_twice_gives_same_record() {
    let raw = String::from("{\"balance\": 4321}");
    let first = normalize(raw.clone(), Ok(payload(Some(4321), None)));
    let second = normalize(raw.clone(), Ok(payload(Some(4321), None)));
    assert_eq!(first, second);
    let first_err = normalize(raw.clone(), Err(String::from("bad")));
    let second_err = normalize(raw, Err(String::from("bad")));
    assert_eq!(first_err, second_err);
}

#[test]
fn infer_plan_per_band() {
    assert_eq!(infer_plan(2501), (Plan::Pro, PRO_LIMIT));
    assert_eq!(infer_plan(2500), (Plan::Free, FREE_LIMIT));
    assert_eq!(infer_plan(1), (Plan::Free, 2500));
    assert_eq!(infer_plan(0), (Plan::Unknown, 0));
    assert_eq!(infer_plan(-1), (Plan::Unknown, 0));
}

#[test]
fn credits_used_per_band() {
    assert_eq!(credits_used(3000), 7000);
    assert_eq!(credits_used(2400), 100);
    assert_eq!(credits_used(-40), 0);
}

#[test]
fn plan_labels_and_limits() {
    assert_eq!(Plan::Pro.label(), "Pro");
    assert_eq!(Plan::Free.label(), "Free");
    assert_eq!(Plan::Unknown.label(), "Unknown");
    assert_eq!(Plan::Pro.limit(), 10000);
    assert_eq!(Plan::Free.limit(), 2500);
    assert_eq!(Plan::Unknown.limit(), 0);
}

#[test]
fn balance_defaults_to_zero() {
    assert_eq!(payload(None, Some(3)).balance_or_zero(), 0);
    assert_eq!(payload(Some(-7), None).balance_or_zero(), -7);
}

#[test]
fn decimal_appends_digits() {
    let mut s = String::from("n=");
    push_decimal(&mut s, 0);
    assert_eq!(s, "n=0");
    let mut s = String::new();
    push_decimal(&mut s, 1009);
    assert_eq!(s, "1009");
}
