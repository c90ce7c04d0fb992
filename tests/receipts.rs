use filesortify::apple::{
    AppleReceipt, AppleStatusError, AppleSubscriptionConfig, AppleSubscriptionValidator, AppleTransaction,
    AppleVerificationResponse, ApplePendingRenewal,
};
use filesortify::apple::{MAX_DATE_MS, MIN_DATE_MS};
use filesortify::text::parse_i64;

fn tx(product: &str, original: &str, purchase_ms: &str, expires_ms: Option<&str>) -> AppleTransaction {
    AppleTransaction {
        product_id: product.to_string(),
        transaction_id: format!("t-{}", original),
        original_transaction_id: original.to_string(),
        purchase_date: String::new(),
        purchase_date_ms: purchase_ms.to_string(),
        expires_date: None,
        expires_date_ms: expires_ms.map(|s| s.to_string()),
        is_trial_period: Some("true".to_string()),
        is_in_intro_offer_period: None,
        cancellation_date: None,
        cancellation_date_ms: None,
    }
}

fn response(status: i32, latest: Option<Vec<AppleTransaction>>) -> AppleVerificationResponse {
    AppleVerificationResponse {
        status,
        environment: None,
        receipt: None,
        latest_receipt_info: latest,
        pending_renewal_info: Some(vec![ApplePendingRenewal {
            product_id: "com.fileSortify.yearly".to_string(),
            original_transaction_id: "o2".to_string(),
            auto_renew_status: "1".to_string(),
            auto_renew_product_id: "com.fileSortify.yearly".to_string(),
            expiration_intent: None,
        }]),
    }
}

fn validator() -> AppleSubscriptionValidator {
    AppleSubscriptionValidator::new("secret".to_string(), "com.fileSortify.tool".to_string())
}

#[test]
fn integers_parse_like_std() {
    for s in ["0", "42", "-17", "+8", "9223372036854775807", "-9223372036854775808", "", "-", "+", "12a", " 1", "9223372036854775808", "99999999999999999999999"] {
        assert_eq!(parse_i64(s), s.parse::<i64>().ok(), "{}", s);
    }
}

#[test]
fn latest_subscription_purchase_decides() {
    let now = 1_000_000;
    let r = response(0, Some(vec![
        tx("com.fileSortify.monthly", "o1", "100", Some("2000000")),
        tx("other.product", "o9", "999", Some("5000000")),
        tx("com.fileSortify.yearly", "o2", "200", Some("3000000")),
    ]));
    let s = validator().get_subscription_status(&r, now).unwrap();
    assert_eq!(s.product_id, "com.fileSortify.yearly");
    assert_eq!(s.expires_date, Some(3_000_000));
    assert!(s.is_active);
    assert!(s.is_trial);
    assert!(!s.is_cancelled);
    assert!(s.auto_renew_status);
}

#[test]
fn equal_purchase_times_prefer_the_later_entry() {
    let r = response(0, Some(vec![
        tx("com.fileSortify.yearly", "o2", "100", None),
        tx("com.fileSortify.monthly", "o1", "100", None),
    ]));
    let s = validator().get_subscription_status(&r, 0).unwrap();
    assert_eq!(s.product_id, "com.fileSortify.monthly");
    assert_eq!(s.expires_date, None);
    assert!(!s.is_active);
    assert!(!s.auto_renew_status);
}

#[test]
fn receipt_errors() {
    let v = validator();
    assert_eq!(v.get_subscription_status(&response(21007, None), 0).map(|s| s.product_id), Err(AppleStatusError::VerificationFailed(21007)));
    assert_eq!(v.get_subscription_status(&response(0, None), 0).map(|s| s.product_id), Err(AppleStatusError::NoTransactionData));
    assert_eq!(v.get_subscription_status(&response(0, Some(vec![])), 0).map(|s| s.product_id), Err(AppleStatusError::NoTransactions));
    let other = response(0, Some(vec![tx("x", "o", "1", None)]));
    assert_eq!(v.get_subscription_status(&other, 0).map(|s| s.product_id), Err(AppleStatusError::NoSubscriptionTransactions));
    let bad = response(0, Some(vec![tx("com.fileSortify.yearly", "o", "1", Some("soon"))]));
    assert_eq!(v.get_subscription_status(&bad, 0).map(|s| s.product_id), Err(AppleStatusError::InvalidExpiry));
    assert!(AppleSubscriptionValidator::needs_sandbox(&response(21007, None)));
}

#[test]
fn expiry_out_of_date_range_counts_as_now() {
    let r = response(0, Some(vec![tx("com.fileSortify.yearly", "o2", "1", Some("9223372036854775807"))]));
    let s = validator().get_subscription_status(&r, 5).unwrap();
    assert_eq!(s.expires_date, Some(5));
    assert!(!s.is_active);
}

#[test]
fn receipt_falls_back_to_in_app_purchases() {
    let mut r = response(0, None);
    r.receipt = Some(AppleReceipt {
        receipt_type: "Production".into(),
        bundle_id: "com.fileSortify.tool".into(),
        application_version: "1".into(),
        in_app: vec![tx("com.fileSortify.monthly", "o1", "5", Some("10"))],
    });
    let s = validator().get_subscription_status(&r, 20).unwrap();
    assert_eq!(s.product_id, "com.fileSortify.monthly");
    assert!(!s.is_active);
}

#[test]
fn request_body_and_config() {
    let body = validator().receipt_request("abc");
    assert_eq!(body.receipt_data, "abc");
    assert_eq!(body.password, "secret");
    let c = AppleSubscriptionConfig::with_shared_secret("s".into());
    assert_eq!(c.monthly_product_id, "com.fileSortify.monthly");
    assert_eq!(c.bundle_id, "com.fileSortify.tool");
}

#[test]
fn expiry_date_range_edges() {
    let at = |ms: i64| {
        let r = response(0, Some(vec![tx("com.fileSortify.yearly", "o2", "1", Some(&ms.to_string()))]));
        validator().get_subscription_status(&r, 5).unwrap().expires_date
    };
    assert_eq!(at(MAX_DATE_MS), Some(MAX_DATE_MS));
    assert_eq!(at(MAX_DATE_MS + 1), Some(5));
    assert_eq!(at(MIN_DATE_MS), Some(MIN_DATE_MS));
    assert_eq!(at(MIN_DATE_MS - 1), Some(5));
}
