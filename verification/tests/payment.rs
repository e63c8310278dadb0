use sdkwork_order::error::ErrorKind;
use sdkwork_order::json::JsonMember;
use sdkwork_order::money::decimal_major_to_minor;
use sdkwork_order::payment::{
    compensation_payment_raw_status, compensation_provider_code, compensation_refund_raw_status,
    compensation_scan_tenant, ensure_candidate_context, ensure_currency, ensure_minor_amount,
    normalized_provider_status, payment_compensation_step, provider_account_lookup,
    provider_enrichment, provider_query_reference, reconciliation_is_replay,
    refund_compensation_step, sandbox_provider_payment, unconfigured_provider_error,
    unique_candidate, validate_provider_identity_and_amount, verify_provider_query,
    webhook_account_lookup, webhook_normalization_rejection, webhook_verification_rejection,
    check_payment_payload, ensure_out_trade_no, reconciliation_outcome, webhook_provider_scope,
    ProviderScope, ReconcileOwnerOrderPaymentRequest, read_payload_members, ProviderPayloadMembers,
    summarize_compensation_pass, AppliedCompensation, AttemptProviderContext, CompensationStep,
    PaymentCompensationPassConfig,
    PaymentCompensationRunSummary, ProviderAccountLookup, ProviderPaymentQueryState,
    ProviderQueryOutcome, ProviderRefundSubmissionState, ReconciliationCandidate,
    VerifiedProviderPayment, WebhookAccountLookup, WebhookVerification,
};

fn event_id(step: CompensationStep) -> String {
    match step {
        CompensationStep::Ingest(event) => event.provider_event_id,
        CompensationStep::Skip(outcome) => panic!("expected an event, got {outcome:?}"),
    }
}

#[test]
fn synthetic_event_ids_are_stable_and_state_scoped() {
    let succeeded = event_id(payment_compensation_step(
        "sandbox",
        "trade-1",
        Some(ProviderPaymentQueryState::Succeeded),
    ));
    let canceled = event_id(payment_compensation_step(
        "sandbox",
        "trade-1",
        Some(ProviderPaymentQueryState::Canceled),
    ));
    assert_eq!(succeeded, "query:sandbox:trade-1:succeeded");
    assert_ne!(succeeded, canceled);
}

#[test]
fn provider_success_statuses_are_explicit_and_fail_closed() {
    assert_eq!(normalized_provider_status("stripe", "succeeded"), Some("succeeded"));
    assert_eq!(normalized_provider_status("alipay", "TRADE_SUCCESS"), Some("succeeded"));
    assert_eq!(normalized_provider_status("wechat_pay", "SUCCESS"), Some("succeeded"));
    assert_eq!(normalized_provider_status("wechat_pay", "NOTPAY"), Some("pending"));
    assert_eq!(normalized_provider_status("new-provider", "SUCCESS"), None);
}

#[test]
fn alipay_decimal_amount_is_compared_as_minor_units_without_float_rounding() {
    assert_eq!(decimal_major_to_minor("99.00"), Some(9900));
    assert_eq!(decimal_major_to_minor("0.01"), Some(1));
    assert_eq!(decimal_major_to_minor("1.001"), None);
}

fn wechat_candidate() -> ReconciliationCandidate {
    ReconciliationCandidate {
        attempt_id: "attempt-1".to_owned(),
        provider_code: "wechat_pay".to_owned(),
        out_trade_no: "trade-1".to_owned(),
        amount: "9900".to_owned(),
        currency_code: "CNY".to_owned(),
        status: "pending".to_owned(),
    }
}

#[test]
fn provider_payload_must_match_trade_amount_and_currency() {
    let candidate = wechat_candidate();
    let matching = r#"{"transaction_id":"wx-1","out_trade_no":"trade-1","amount":{"total":9900,"currency":"CNY"}}"#;
    assert!(validate_provider_identity_and_amount(&candidate, matching, Some("wx-1")).is_ok());
    let mismatch = r#"{"transaction_id":"wx-1","out_trade_no":"trade-1","amount":{"total":1,"currency":"CNY"}}"#;
    assert!(validate_provider_identity_and_amount(&candidate, mismatch, Some("wx-1")).is_err());
}

#[test]
fn payload_checks_report_each_mismatch() {
    let candidate = wechat_candidate();
    let wrong_trade = r#"{"out_trade_no":"trade-2","amount":{"total":9900,"currency":"CNY"}}"#;
    assert_eq!(
        validate_provider_identity_and_amount(&candidate, wrong_trade, None).unwrap_err().kind,
        ErrorKind::Conflict
    );
    let wrong_currency = r#"{"out_trade_no":"trade-1","amount":{"total":9900,"currency":"USD"}}"#;
    assert!(validate_provider_identity_and_amount(&candidate, wrong_currency, None).is_err());
    let lower_currency = r#"{"out_trade_no":"trade-1","amount":{"total":9900,"currency":"cny"}}"#;
    assert!(validate_provider_identity_and_amount(&candidate, lower_currency, None).is_ok());

    let mut alipay = wechat_candidate();
    alipay.provider_code = "alipay".to_owned();
    let alipay_ok = r#"{"out_trade_no":"trade-1","total_amount":"99.00"}"#;
    assert!(validate_provider_identity_and_amount(&alipay, alipay_ok, None).is_ok());
    let alipay_short = r#"{"out_trade_no":"trade-1","total_amount":"98.99"}"#;
    assert!(validate_provider_identity_and_amount(&alipay, alipay_short, None).is_err());

    let mut stripe = wechat_candidate();
    stripe.provider_code = "stripe".to_owned();
    stripe.currency_code = "USD".to_owned();
    let stripe_ok = r#"{"id":"pi_1","amount_received":9900,"currency":"usd"}"#;
    assert!(validate_provider_identity_and_amount(&stripe, stripe_ok, None).is_ok());
    let stripe_no_id = r#"{"amount_received":9900,"currency":"usd"}"#;
    assert!(validate_provider_identity_and_amount(&stripe, stripe_no_id, None).is_err());
    assert!(validate_provider_identity_and_amount(&stripe, stripe_no_id, Some("pi_1")).is_ok());

    let mut unknown = wechat_candidate();
    unknown.provider_code = "paypal".to_owned();
    assert_eq!(
        validate_provider_identity_and_amount(&unknown, matching_payload(), None)
            .unwrap_err()
            .kind,
        ErrorKind::ProviderUnavailable
    );
    let mut bad_amount = wechat_candidate();
    bad_amount.amount = "99.00".to_owned();
    assert_eq!(
        validate_provider_identity_and_amount(&bad_amount, matching_payload(), None)
            .unwrap_err()
            .kind,
        ErrorKind::Storage
    );
}

fn matching_payload() -> &'static str {
    r#"{"out_trade_no":"trade-1","amount":{"total":9900,"currency":"CNY"}}"#
}

#[test]
fn raw_statuses_read_back_as_the_queried_outcome() {
    let cases = [
        ("stripe", ProviderPaymentQueryState::Succeeded, "succeeded"),
        ("stripe", ProviderPaymentQueryState::Canceled, "failed"),
        ("stripe", ProviderPaymentQueryState::Failed, "failed"),
        ("stripe", ProviderPaymentQueryState::Pending, "pending"),
        ("wechat_pay", ProviderPaymentQueryState::Succeeded, "succeeded"),
        ("wechat_pay", ProviderPaymentQueryState::Canceled, "failed"),
        ("wechat_pay", ProviderPaymentQueryState::Pending, "pending"),
        ("alipay", ProviderPaymentQueryState::Succeeded, "succeeded"),
        ("alipay", ProviderPaymentQueryState::Canceled, "failed"),
        ("alipay", ProviderPaymentQueryState::Pending, "pending"),
    ];
    for (provider, state, expected) in cases {
        let raw = compensation_payment_raw_status(provider, state).expect("raw status");
        assert_eq!(normalized_provider_status(provider, raw), Some(expected));
    }
    assert_eq!(compensation_payment_raw_status("wechat_pay", ProviderPaymentQueryState::Failed), None);
    assert_eq!(compensation_payment_raw_status("alipay", ProviderPaymentQueryState::Failed), None);
    assert_eq!(compensation_payment_raw_status("paypal", ProviderPaymentQueryState::Succeeded), None);
    // The sandbox reads every raw status as succeeded.
    assert_eq!(normalized_provider_status("sandbox", "canceled"), Some("succeeded"));
}

#[test]
fn refund_raw_statuses_cover_terminal_states_only() {
    assert_eq!(compensation_refund_raw_status("stripe", ProviderRefundSubmissionState::Succeeded), Some("succeeded"));
    assert_eq!(compensation_refund_raw_status("alipay", ProviderRefundSubmissionState::Failed), Some("refund_failed"));
    assert_eq!(compensation_refund_raw_status("wechat_pay", ProviderRefundSubmissionState::Succeeded), Some("success"));
    assert_eq!(compensation_refund_raw_status("sandbox", ProviderRefundSubmissionState::Failed), Some("closed"));
    assert_eq!(compensation_refund_raw_status("stripe", ProviderRefundSubmissionState::Processing), None);
}

#[test]
fn compensation_steps_skip_until_the_provider_concludes() {
    assert!(matches!(
        payment_compensation_step("stripe", "t", None),
        CompensationStep::Skip(AppliedCompensation::NotFound)
    ));
    assert!(matches!(
        payment_compensation_step("stripe", "t", Some(ProviderPaymentQueryState::Pending)),
        CompensationStep::Skip(AppliedCompensation::StillPending)
    ));
    assert!(matches!(
        payment_compensation_step("alipay", "t", Some(ProviderPaymentQueryState::Failed)),
        CompensationStep::Skip(AppliedCompensation::Unrepresentable)
    ));
    match payment_compensation_step("stripe", "t-9", Some(ProviderPaymentQueryState::Failed)) {
        CompensationStep::Ingest(event) => {
            assert_eq!(event.provider_event_id, "query:stripe:t-9:payment_failed");
            assert_eq!(event.event_type, "query.payment");
            assert_eq!(event.payment_status, "payment_failed");
            assert_eq!(event.out_trade_no, "t-9");
        }
        other => panic!("unexpected {other:?}"),
    }
    match refund_compensation_step("alipay", "t-1", "r-1", Some(ProviderRefundSubmissionState::Succeeded)) {
        CompensationStep::Ingest(event) => {
            assert_eq!(event.provider_event_id, "query:alipay:t-1:r-1:refund_success");
            assert_eq!(event.event_type, "query.refund");
        }
        other => panic!("unexpected {other:?}"),
    }
    assert!(matches!(
        refund_compensation_step("stripe", "t", "r", Some(ProviderRefundSubmissionState::Processing)),
        CompensationStep::Skip(AppliedCompensation::StillPending)
    ));
    assert!(matches!(
        refund_compensation_step("paypal", "t", "r", Some(ProviderRefundSubmissionState::Failed)),
        CompensationStep::Skip(AppliedCompensation::Unrepresentable)
    ));
    assert_eq!(compensation_provider_code("  Stripe "), Some("stripe".to_owned()));
    assert_eq!(compensation_provider_code("   "), None);
}

#[test]
fn pass_config_and_summary_count_every_claim_once() {
    let config = PaymentCompensationPassConfig::default();
    assert_eq!(config.batch_size, 50);
    assert_eq!(config.min_age_seconds, 60);
    assert_eq!(config.max_age_seconds, 86_400);
    assert_eq!(compensation_scan_tenant(&config), "0");

    let mut summary = PaymentCompensationRunSummary::new();
    summary.record_payment_outcome(&Ok(AppliedCompensation::Applied));
    summary.record_payment_outcome(&Ok(AppliedCompensation::StillPending));
    summary.record_payment_outcome(&Err(sdkwork_order::error::storage("boom")));
    summary.record_refund_outcome(&Ok(AppliedCompensation::NotFound));
    summary.record_refund_outcome(&Ok(AppliedCompensation::Unrepresentable));
    assert_eq!(summary.payment_events_applied, 1);
    assert_eq!(summary.payments_still_pending, 1);
    assert_eq!(summary.errors, 1);
    assert_eq!(summary.refunds_not_found, 1);
    assert_eq!(summary.skipped_unrepresentable, 1);
    assert_eq!(summary.refund_events_applied, 0);
}

#[test]
fn reconciliation_candidates_and_references() {
    assert_eq!(unique_candidate(vec![]).unwrap_err().kind, ErrorKind::NotFound);
    assert_eq!(
        unique_candidate(vec![wechat_candidate(), wechat_candidate()]).unwrap_err().kind,
        ErrorKind::Conflict
    );
    assert_eq!(unique_candidate(vec![wechat_candidate()]).unwrap(), wechat_candidate());

    let mut succeeded = wechat_candidate();
    succeeded.status = "SUCCEEDED".to_owned();
    assert!(reconciliation_is_replay(&succeeded));
    assert!(!reconciliation_is_replay(&wechat_candidate()));

    let context = AttemptProviderContext {
        attempt_id: "attempt-1".to_owned(),
        tenant_id: "tenant-1".to_owned(),
        provider_code: "wechat_pay".to_owned(),
        out_trade_no: "trade-1".to_owned(),
        amount: "9900".to_owned(),
        provider_transaction_id: Some("wx-1".to_owned()),
    };
    assert!(ensure_candidate_context(&wechat_candidate(), &context, "tenant-1").is_ok());
    assert!(ensure_candidate_context(&wechat_candidate(), &context, "tenant-2").is_err());
    assert_eq!(provider_query_reference(&wechat_candidate(), &context).unwrap(), "trade-1");

    let mut stripe = wechat_candidate();
    stripe.provider_code = "stripe".to_owned();
    assert!(provider_query_reference(&stripe, &context).is_err());
    let mut intent = context.clone();
    intent.provider_transaction_id = Some("pi_123".to_owned());
    assert_eq!(provider_query_reference(&stripe, &intent).unwrap(), "pi_123");

    let mut sandbox = wechat_candidate();
    sandbox.provider_code = "sandbox".to_owned();
    let settled = sandbox_provider_payment(&sandbox).expect("sandbox settles");
    assert_eq!(settled.status, "succeeded");
    assert!(sandbox_provider_payment(&wechat_candidate()).is_none());
}

#[test]
fn provider_query_outcomes_are_checked_before_acceptance() {
    let candidate = wechat_candidate();
    let outcome = ProviderQueryOutcome {
        provider_code: "wechat_pay".to_owned(),
        native_id: Some("wx-1".to_owned()),
        raw_status: Some(" SUCCESS ".to_owned()),
        payload_json: matching_payload().to_owned(),
    };
    let accepted = verify_provider_query(&candidate, "trade-1", &outcome).expect("accepted");
    assert_eq!(accepted.status, "SUCCESS");
    assert_eq!(accepted.native_id.as_deref(), Some("wx-1"));

    let mut pending = outcome.clone();
    pending.raw_status = Some("NOTPAY".to_owned());
    assert_eq!(verify_provider_query(&candidate, "trade-1", &pending).unwrap_err().kind, ErrorKind::Conflict);
    let mut silent = outcome.clone();
    silent.raw_status = Some("  ".to_owned());
    assert_eq!(
        verify_provider_query(&candidate, "trade-1", &silent).unwrap_err().kind,
        ErrorKind::ProviderUnavailable
    );
    let mut other = outcome.clone();
    other.provider_code = "alipay".to_owned();
    assert_eq!(verify_provider_query(&candidate, "trade-1", &other).unwrap_err().kind, ErrorKind::Conflict);

    let enrichment = provider_enrichment(&VerifiedProviderPayment {
        native_id: Some("wx-1".to_owned()),
        status: "SUCCESS".to_owned(),
    });
    assert_eq!(
        enrichment,
        vec![
            ("providerStatus".to_owned(), "SUCCESS".to_owned()),
            ("providerTransactionId".to_owned(), "wx-1".to_owned())
        ]
    );
}

#[test]
fn webhook_rejections_and_account_lookups() {
    assert!(webhook_verification_rejection(WebhookVerification::Verified).is_none());
    let unverified = webhook_verification_rejection(WebhookVerification::Unverified).unwrap();
    assert_eq!(unverified.reason, "webhook signature verification failed");
    let provider = webhook_verification_rejection(WebhookVerification::ProviderError).unwrap();
    assert_eq!(provider.reason, "webhook verification provider error");
    assert_eq!(provider.error.message, "webhook signature verification failed");
    assert_eq!(webhook_normalization_rejection().error.message, "bad request");
    assert_eq!(
        unconfigured_provider_error("paypal").message,
        "payment provider paypal is not configured"
    );
    assert_eq!(webhook_account_lookup(true, Some("m-1")), WebhookAccountLookup::ByAttempt);
    assert_eq!(
        webhook_account_lookup(false, Some("m-1")),
        WebhookAccountLookup::ByMerchant("m-1".to_owned())
    );
    assert_eq!(webhook_account_lookup(false, None), WebhookAccountLookup::Deployment);
    assert_eq!(provider_account_lookup(Some("acct"), Some("ch")), ProviderAccountLookup::ById("acct".to_owned()));
    assert_eq!(provider_account_lookup(None, Some("ch")), ProviderAccountLookup::ChannelBound);
    assert_eq!(provider_account_lookup(None, None), ProviderAccountLookup::ActiveAccount);
    assert!(ensure_minor_amount(Some(5), 5).is_ok());
    assert!(ensure_minor_amount(None, 5).is_err());
    assert!(ensure_currency(Some("cny"), "CNY").is_ok());
    assert!(ensure_currency(None, "CNY").is_err());
}

fn no_members() -> ProviderPayloadMembers {
    ProviderPayloadMembers {
        id: None,
        amount_received: None,
        amount: None,
        currency: None,
        out_trade_no: None,
        total_amount: None,
        amount_total: None,
        amount_currency: None,
    }
}

#[test]
fn payload_members_are_checked_against_the_attempt() {
    let mut wechat = no_members();
    wechat.out_trade_no = Some(JsonMember::Text("trade-1".into()));
    wechat.amount_total = Some(JsonMember::Integer(9900));
    wechat.amount_currency = Some(JsonMember::Text("cny".into()));
    assert!(check_payment_payload(&wechat_candidate(), &wechat, None).is_ok());
    wechat.amount_total = Some(JsonMember::Text("9900".into()));
    assert_eq!(check_payment_payload(&wechat_candidate(), &wechat, None).unwrap_err().kind, ErrorKind::Conflict);
    let mut stripe_candidate = wechat_candidate();
    stripe_candidate.provider_code = "stripe".into();
    let mut stripe = no_members();
    stripe.amount = Some(JsonMember::Integer(9900));
    stripe.currency = Some(JsonMember::Text("CNY".into()));
    assert_eq!(check_payment_payload(&stripe_candidate, &stripe, None).unwrap_err().kind, ErrorKind::Conflict);
    assert!(check_payment_payload(&stripe_candidate, &stripe, Some("pi_9")).is_ok());
    stripe.amount_received = Some(JsonMember::Integer(100));
    assert!(check_payment_payload(&stripe_candidate, &stripe, Some("pi_9")).is_err());
    assert!(ensure_out_trade_no(&Some(JsonMember::Text("t".into())), "t").is_ok());
    assert!(ensure_out_trade_no(&Some(JsonMember::Integer(1)), "1").is_err());
    let read = read_payload_members(r#"{"amount":{"total":5,"currency":"USD"},"out_trade_no":"x"}"#);
    assert_eq!(read.amount_total, Some(JsonMember::Integer(5)));
    assert_eq!(read.amount_currency, Some(JsonMember::Text("USD".into())));
    assert_eq!(read.amount, Some(JsonMember::Other));
    assert_eq!(read.id, Some(JsonMember::Absent));
    assert_eq!(read_payload_members("oops").id, None);
}

#[test]
fn webhook_scope_and_reconciliation_report() {
    let account = ProviderScope { tenant_id: "t-account".into(), organization_id: None };
    let attempt = ProviderScope { tenant_id: "t-attempt".into(), organization_id: Some("o".into()) };
    assert_eq!(webhook_provider_scope(Some(account.clone()), Some(attempt.clone())).unwrap().tenant_id, "t-account");
    assert_eq!(webhook_provider_scope(None, Some(attempt)).unwrap().tenant_id, "t-attempt");
    assert!(webhook_provider_scope(None, None).is_none());
    let request = ReconcileOwnerOrderPaymentRequest {
        tenant_id: "t1".into(),
        organization_id: Some("org".into()),
        owner_user_id: "u1".into(),
        order_id: "o1".into(),
    };
    let report = reconciliation_outcome(request, wechat_candidate(), "SUCCESS", true);
    assert_eq!(report.attempt.payment_attempt_id.as_deref(), Some("attempt-1"));
    assert_eq!(report.attempt.out_trade_no.as_deref(), Some("trade-1"));
    assert_eq!(report.attempt.order_id, "o1");
    assert_eq!(report.provider_code, "wechat_pay");
    assert_eq!(report.provider_status, "SUCCESS");
    assert!(report.replayed);
}

#[test]
fn a_pass_summary_counts_every_claim_once() {
    let payments = vec![
        Ok(AppliedCompensation::Applied),
        Ok(AppliedCompensation::StillPending),
        Ok(AppliedCompensation::NotFound),
        Err(sdkwork_order::error::storage("boom")),
    ];
    let refunds = vec![
        Ok(AppliedCompensation::Applied),
        Ok(AppliedCompensation::StillPending),
        Ok(AppliedCompensation::Unrepresentable),
    ];
    let summary = summarize_compensation_pass(&payments, &refunds);
    assert_eq!(summary.claimed_payment_attempts, 4);
    assert_eq!(summary.claimed_refunds, 3);
    assert_eq!(summary.payment_events_applied, 1);
    assert_eq!(summary.payments_still_pending, 1);
    assert_eq!(summary.payments_not_found, 1);
    assert_eq!(summary.refund_events_applied, 1);
    assert_eq!(summary.refunds_still_processing, 1);
    assert_eq!(summary.refunds_not_found, 0);
    assert_eq!(summary.skipped_unrepresentable, 1);
    assert_eq!(summary.errors, 1);
    let empty = summarize_compensation_pass(&Vec::new(), &Vec::new());
    assert_eq!(empty, PaymentCompensationRunSummary::new());
}
