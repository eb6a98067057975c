use lenso_email_smtp_plugin::email::{DispatchResponse, DispatchResponseOutcome};
use lenso_email_smtp_plugin::response::{
    accepted_response, outcome_name, permanent_response, send_response, send_response_at,
    smtp_error_response, temporary_response, unknown_response, SendOutcome, SmtpReply,
};

fn reply(positive: bool) -> SmtpReply {
    SmtpReply {
        positive,
        code: "250".into(),
        lines: vec!["queued".into(), "as 1".into()],
    }
}

fn failure_of(response: &DispatchResponse) -> (&str, &str, Option<i64>) {
    let failure = response.failure.as_ref().unwrap();
    (
        failure.classification.as_str(),
        failure.code.as_str(),
        failure.retry_after_ms,
    )
}

#[test]
fn response_shapes_match_contract_outcomes() {
    let temporary = temporary_response("smtp", "busy", 1_000);
    assert_eq!(temporary.outcome, DispatchResponseOutcome::TemporaryFailure);
    assert!(temporary.remote_receipt.is_none());
    let unknown = unknown_response("smtp", "timeout");
    assert_eq!(
        unknown
            .failure
            .as_ref()
            .map(|failure| failure.classification.as_str()),
        Some("delivery_unknown")
    );
}

#[test]
fn failures_carry_their_code_and_retry() {
    let temporary = temporary_response("smtp", "busy", 1_000);
    assert_eq!(failure_of(&temporary), ("temporary_failure", "busy", Some(1_000)));
    assert_eq!(temporary.provider, "smtp");
    let permanent = permanent_response("smtp", "gone");
    assert_eq!(permanent.outcome, DispatchResponseOutcome::PermanentFailure);
    assert_eq!(failure_of(&permanent), ("permanent_failure", "gone", None));
    assert!(permanent.remote_receipt.is_none());
    let unknown = unknown_response("smtp", "timeout");
    assert_eq!(unknown.outcome, DispatchResponseOutcome::DeliveryUnknown);
    assert_eq!(failure_of(&unknown), ("delivery_unknown", "timeout", None));
}

#[test]
fn acceptance_carries_a_receipt() {
    let accepted = accepted_response("smtp", "<id@mail.example.com>", &reply(true));
    assert_eq!(accepted.outcome, DispatchResponseOutcome::Accepted);
    assert!(accepted.failure.is_none());
    let receipt = accepted.remote_receipt.unwrap();
    assert_eq!(receipt.remote_id, "<id@mail.example.com>");
    assert_eq!(receipt.source, "rfc5322-message-id");
    assert_eq!(
        receipt.digest,
        "sha256:99e51e4e0f1f43a569df99f34671dc91ab40f79864b078bf6870d56b1e661807"
    );
}

#[test]
fn relay_errors_are_classified_by_their_reply() {
    let transient = smtp_error_response("smtp", true, false);
    assert_eq!(
        failure_of(&transient),
        ("temporary_failure", "smtp_transient_response", Some(60_000))
    );
    let permanent = smtp_error_response("smtp", false, true);
    assert_eq!(
        failure_of(&permanent),
        ("permanent_failure", "smtp_permanent_response", None)
    );
    let uncertain = smtp_error_response("smtp", false, false);
    assert_eq!(
        failure_of(&uncertain),
        ("delivery_unknown", "smtp_transport_uncertain", None)
    );
}

#[test]
fn submissions_are_classified_by_what_was_seen() {
    let classify = |outcome: SendOutcome| send_response("smtp", "<id>", &outcome);
    assert_eq!(
        classify(SendOutcome::Completed(reply(true))).outcome,
        DispatchResponseOutcome::Accepted
    );
    assert_eq!(
        failure_of(&classify(SendOutcome::Completed(reply(false)))),
        ("delivery_unknown", "smtp_non_positive_completion", None)
    );
    assert_eq!(
        failure_of(&classify(SendOutcome::RelayUnusable)),
        ("permanent_failure", "smtp_configuration_invalid", None)
    );
    assert_eq!(
        failure_of(&classify(SendOutcome::TimedOut)),
        ("delivery_unknown", "smtp_timeout_unknown", None)
    );
    assert_eq!(
        failure_of(&classify(SendOutcome::Failed {
            transient: true,
            permanent: true
        })),
        ("temporary_failure", "smtp_transient_response", Some(60_000))
    );
}

#[test]
fn only_explicit_rejections_and_completions_are_definite() {
    for outcome in [
        SendOutcome::TimedOut,
        SendOutcome::Completed(reply(false)),
        SendOutcome::Failed {
            transient: false,
            permanent: false,
        },
    ] {
        let response = send_response("smtp", "<id>", &outcome);
        assert_eq!(response.outcome, DispatchResponseOutcome::DeliveryUnknown);
        assert!(response.remote_receipt.is_none());
    }
}

#[test]
fn responses_are_observed_when_they_are_told() {
    let response = send_response_at(
        "smtp",
        "<id>",
        &SendOutcome::TimedOut,
        "2026-08-30T00:00:00.000Z".into(),
    );
    assert_eq!(response.observed_at, "2026-08-30T00:00:00.000Z");
}

#[test]
fn times_are_written_with_milliseconds_in_utc() {
    let observed = unknown_response("smtp", "timeout").observed_at;
    let text = observed.as_bytes();
    assert_eq!(text.len(), 24);
    for (index, byte) in text.iter().enumerate() {
        match index {
            4 | 7 => assert_eq!(*byte, b'-'),
            10 => assert_eq!(*byte, b'T'),
            13 | 16 => assert_eq!(*byte, b':'),
            19 => assert_eq!(*byte, b'.'),
            23 => assert_eq!(*byte, b'Z'),
            _ => assert!(byte.is_ascii_digit()),
        }
    }
}

#[test]
fn outcomes_have_names() {
    assert_eq!(outcome_name(DispatchResponseOutcome::Accepted), "accepted");
    assert_eq!(
        outcome_name(DispatchResponseOutcome::TemporaryFailure),
        "temporary_failure"
    );
    assert_eq!(
        outcome_name(DispatchResponseOutcome::PermanentFailure),
        "permanent_failure"
    );
    assert_eq!(
        outcome_name(DispatchResponseOutcome::DeliveryUnknown),
        "delivery_unknown"
    );
}
