use lenso_email_smtp_plugin::config::{SmtpConfig, TlsMode};
use lenso_email_smtp_plugin::dispatch::{
    admit_prepared, begin_again_step, dispatch, dispatch_step, dispatch_step_at, open_dispatch,
    suits, wait_for_inflight, DispatchFailure, DispatchOperation, DispatchOutcome, DispatchStep,
};
use lenso_email_smtp_plugin::email::{
    DispatchError, DispatchRequest, DispatchRequestMessage, DispatchRequestRecipient,
    DispatchResponse, DispatchResponseOutcome,
};
use lenso_email_smtp_plugin::failure::{
    credential_rejected, database_secret_rejected, RuntimeFailure,
};
use lenso_email_smtp_plugin::response::{unknown_response, SendOutcome, SmtpReply};
use lenso_email_smtp_plugin::storage::{runtime, BeginDispatch, EffectStatus, StorageError};
use lenso_email_smtp_plugin::transport::{content_digest, prepare_dispatch, PrepareError};

fn config() -> SmtpConfig {
    SmtpConfig {
        schema: "smtp".into(),
        database_url_secret: "secret://postgres".into(),
        provider: "smtp-primary".into(),
        smtp_host: "smtp.example.com".into(),
        smtp_port: 465,
        tls_mode: TlsMode::StarttlsRequired,
        username_secret_ref: "secret://smtp/user".into(),
        password_secret_ref: "secret://smtp/pass".into(),
        from_address: "hello@example.com".into(),
        from_name: None,
        message_id_domain: "mail.example.com".into(),
        command_timeout_ms: 10_000,
        effect_lease_ms: 20_000,
        max_message_bytes: 900_000,
        allowed_callers: vec!["notification".into()],
    }
}

fn request() -> DispatchRequest {
    let mut message = DispatchRequestMessage {
        content_digest: String::new(),
        html: "<p>Hello</p>".into(),
        locale: "en-US".into(),
        subject: "Hello".into(),
        template_id: "welcome".into(),
        template_version: "v1".into(),
        text: "Hello".into(),
    };
    message.content_digest = content_digest(&message);
    DispatchRequest {
        attempt_id: "attempt_1".into(),
        correlation_id: "story_1".into(),
        delivery_id: "delivery_1".into(),
        idempotency_key: "key_1".into(),
        message,
        recipient: DispatchRequestRecipient {
            address: "person@example.com".into(),
        },
        run_id: "run_1".into(),
    }
}

fn at() -> String {
    "2026-08-30T00:00:00.000Z".into()
}

fn step(operation: DispatchOperation, outcome: DispatchOutcome) -> DispatchStep {
    assert!(suits(&operation, &outcome));
    dispatch_step_at(operation, "smtp", "<id@example.com>", outcome, at())
}

fn end(step: DispatchStep) -> Result<DispatchResponse, DispatchFailure> {
    match step {
        DispatchStep::Finish(result) => result,
        DispatchStep::Perform(_) => panic!("the dispatch goes on"),
    }
}

fn next(step: DispatchStep) -> DispatchOperation {
    match step {
        DispatchStep::Perform(operation) => operation,
        DispatchStep::Finish(result) => panic!("the dispatch has ended: {result:?}"),
    }
}

fn plugin_failure(detail: &str) -> DispatchFailure {
    DispatchFailure::Runtime(RuntimeFailure::PluginFailure {
        detail: detail.into(),
    })
}

fn reply() -> SmtpReply {
    SmtpReply {
        positive: true,
        code: "250".into(),
        lines: vec!["queued".into()],
    }
}

#[test]
fn strangers_are_refused_whatever_they_ask() {
    for caller in [None, Some("stranger")] {
        let mut invalid = request();
        invalid.message.subject = String::new();
        for request in [request(), invalid] {
            let refused = open_dispatch(&config(), caller, &request, false);
            assert_eq!(
                refused.err(),
                Some(DispatchFailure::Domain(DispatchError::InvalidDispatch))
            );
        }
    }
}

#[test]
fn requests_are_refused_before_the_plugin_is_looked_at() {
    let mut invalid = request();
    invalid.message.html.push('x');
    assert_eq!(
        open_dispatch(&config(), Some("notification"), &invalid, false).err(),
        Some(DispatchFailure::Domain(DispatchError::InvalidDispatch))
    );
    let mut small = config();
    small.max_message_bytes = 1_024;
    assert_eq!(
        open_dispatch(&small, Some("notification"), &request(), false).err(),
        Some(DispatchFailure::Domain(DispatchError::UnsupportedMessage))
    );
    assert_eq!(
        open_dispatch(&config(), Some("notification"), &request(), false).err(),
        Some(plugin_failure("SMTP Plugin is not active"))
    );
}

#[test]
fn admitted_dispatches_carry_their_identity() {
    let open = open_dispatch(&config(), Some("notification"), &request(), true)
        .ok()
        .unwrap();
    assert_eq!(
        open.identity.idempotency_key_hash,
        open.prepared.idempotency_key_hash
    );
    assert_eq!(
        open.identity.delivery_id_hash,
        open.prepared.delivery_id_hash
    );
    assert_eq!(open.identity.attempt_id_hash, open.prepared.attempt_id_hash);
    assert_eq!(
        open.identity.request_fingerprint,
        open.prepared.request_fingerprint
    );
    assert_eq!(open.identity.content_digest, request().message.content_digest);
    assert_eq!(open.lease_ms, 20_000);
    assert_eq!(
        open.expired_response.outcome,
        DispatchResponseOutcome::DeliveryUnknown
    );
    assert_eq!(open.expired_response.provider, "smtp-primary");
    assert_eq!(
        open.expired_response.failure.unwrap().code,
        "smtp_effect_lease_expired"
    );
}

#[test]
fn prepared_requests_are_admitted_by_their_verdict() {
    let refused = |error: PrepareError| {
        admit_prepared(&config(), &request(), Err(error), true, at())
            .err()
            .unwrap()
    };
    assert_eq!(
        refused(PrepareError::Invalid),
        DispatchFailure::Domain(DispatchError::InvalidDispatch)
    );
    assert_eq!(
        refused(PrepareError::Unsupported),
        DispatchFailure::Domain(DispatchError::UnsupportedMessage)
    );
    let prepared = prepare_dispatch(&config(), &request());
    let open = admit_prepared(&config(), &request(), prepared, true, at())
        .ok()
        .unwrap();
    assert_eq!(open.expired_response.observed_at, at());
}

#[test]
fn a_dispatch_runs_from_the_fence_to_the_record() {
    let operation = dispatch();
    assert!(matches!(operation, DispatchOperation::Begin));
    let operation = next(step(
        operation,
        DispatchOutcome::Begun(Ok(BeginDispatch::Send { fence: 7 })),
    ));
    assert!(matches!(
        operation,
        DispatchOperation::ResolveCredentials { fence: 7 }
    ));
    let operation = next(step(
        operation,
        DispatchOutcome::Credentials {
            username: true,
            password: true,
        },
    ));
    assert!(matches!(operation, DispatchOperation::Submit { fence: 7 }));
    let operation = next(step(
        operation,
        DispatchOutcome::Submitted(SendOutcome::Completed(reply())),
    ));
    let response = match &operation {
        DispatchOperation::Finalize { fence: 7, response } => response.clone(),
        _ => panic!("the submission is recorded next"),
    };
    assert_eq!(response.outcome, DispatchResponseOutcome::Accepted);
    assert_eq!(response.observed_at, at());
    assert_eq!(
        response.remote_receipt.as_ref().unwrap().remote_id,
        "<id@example.com>"
    );
    assert_eq!(
        end(step(
            operation,
            DispatchOutcome::Finalized(Ok(response.clone()))
        )),
        Ok(response)
    );
}

#[test]
fn without_credentials_nothing_is_submitted() {
    for (username, password) in [(false, true), (true, false), (false, false)] {
        let operation = next(step(
            DispatchOperation::ResolveCredentials { fence: 3 },
            DispatchOutcome::Credentials { username, password },
        ));
        match operation {
            DispatchOperation::Finalize { fence: 3, response } => {
                assert_eq!(response.outcome, DispatchResponseOutcome::TemporaryFailure);
                let failure = response.failure.unwrap();
                assert_eq!(failure.code, "smtp_credentials_unavailable");
                assert_eq!(failure.retry_after_ms, Some(60_000));
            }
            _ => panic!("the effect ends here"),
        }
    }
}

#[test]
fn ambiguous_submissions_are_recorded_as_unknown() {
    let operation = next(step(
        DispatchOperation::Submit { fence: 3 },
        DispatchOutcome::Submitted(SendOutcome::TimedOut),
    ));
    match operation {
        DispatchOperation::Finalize { fence: 3, response } => {
            assert_eq!(response.outcome, DispatchResponseOutcome::DeliveryUnknown)
        }
        _ => panic!("the submission is recorded next"),
    }
}

#[test]
fn the_first_visit_decides() {
    let stored = unknown_response("smtp", "stored");
    assert_eq!(
        end(step(
            dispatch(),
            DispatchOutcome::Begun(Ok(BeginDispatch::Replay(stored.clone())))
        )),
        Ok(stored)
    );
    assert!(matches!(
        next(step(
            dispatch(),
            DispatchOutcome::Begun(Ok(BeginDispatch::InFlight { remaining_ms: 10 }))
        )),
        DispatchOperation::ReadStatus
    ));
    assert_eq!(
        end(step(
            dispatch(),
            DispatchOutcome::Begun(Err(StorageError::Conflict))
        )),
        Err(DispatchFailure::Domain(DispatchError::InvalidDispatch))
    );
    assert_eq!(
        end(step(
            dispatch(),
            DispatchOutcome::Begun(Err(runtime("lock a dispatch fence", "gone")))
        )),
        Err(plugin_failure(
            "SMTP effect storage failed to lock a dispatch fence: gone"
        ))
    );
}

#[test]
fn waiting_callers_look_again_soon() {
    for (remaining, sleep) in [(1, 1), (49, 49), (50, 50), (51, 50), (i64::MAX, 50)] {
        let operation = next(wait_for_inflight(Ok(EffectStatus::InFlight {
            remaining_ms: remaining,
        })));
        match operation {
            DispatchOperation::Sleep { milliseconds } => assert_eq!(milliseconds, sleep),
            _ => panic!("the effect is still in flight"),
        }
    }
    for remaining_ms in [0, -1, i64::MIN] {
        assert!(matches!(
            next(wait_for_inflight(Ok(EffectStatus::InFlight { remaining_ms }))),
            DispatchOperation::BeginAgain
        ));
    }
    let stored = unknown_response("smtp", "stored");
    assert_eq!(
        end(wait_for_inflight(Ok(EffectStatus::Final(stored.clone())))),
        Ok(stored)
    );
    assert_eq!(
        end(wait_for_inflight(Err(runtime("read a dispatch fence", "gone")))),
        Err(plugin_failure(
            "SMTP effect storage failed to read a dispatch fence: gone"
        ))
    );
    assert!(matches!(
        next(step(
            DispatchOperation::Sleep { milliseconds: 50 },
            DispatchOutcome::Slept
        )),
        DispatchOperation::ReadStatus
    ));
}

#[test]
fn waiting_callers_never_send() {
    let stored = unknown_response("smtp", "stored");
    assert_eq!(
        end(step(
            DispatchOperation::BeginAgain,
            DispatchOutcome::Begun(Ok(BeginDispatch::Replay(stored.clone())))
        )),
        Ok(stored)
    );
    assert!(matches!(
        next(begin_again_step(Ok(BeginDispatch::InFlight {
            remaining_ms: 0
        }))),
        DispatchOperation::ReadStatus
    ));
    assert_eq!(
        end(begin_again_step(Ok(BeginDispatch::Send { fence: 2 }))),
        Err(plugin_failure("SMTP dispatch fence unexpectedly reopened"))
    );
    assert_eq!(
        end(begin_again_step(Err(StorageError::Conflict))),
        Err(plugin_failure(
            "SMTP dispatch identity conflict escaped domain mapping"
        ))
    );
}

#[test]
fn a_failed_record_is_a_failure_of_the_plugin() {
    let operation = DispatchOperation::Finalize {
        fence: 1,
        response: unknown_response("smtp", "lost"),
    };
    assert_eq!(
        end(step(
            operation,
            DispatchOutcome::Finalized(Err(runtime("finalize a dispatch fence", "gone")))
        )),
        Err(plugin_failure(
            "SMTP effect storage failed to finalize a dispatch fence: gone"
        ))
    );
}

#[test]
fn steps_observe_new_responses_now() {
    let step = dispatch_step(
        DispatchOperation::Submit { fence: 1 },
        "smtp",
        "<id@example.com>",
        DispatchOutcome::Submitted(SendOutcome::RelayUnusable),
    );
    match next(step) {
        DispatchOperation::Finalize { response, .. } => {
            assert_eq!(response.observed_at.len(), 24);
            assert_eq!(response.outcome, DispatchResponseOutcome::PermanentFailure);
        }
        _ => panic!("the submission is recorded next"),
    }
}

#[test]
fn outcomes_suit_their_operations() {
    assert!(!suits(
        &DispatchOperation::Begin,
        &DispatchOutcome::Slept
    ));
    assert!(!suits(
        &DispatchOperation::Submit { fence: 1 },
        &DispatchOutcome::Credentials {
            username: true,
            password: true
        }
    ));
    assert!(suits(
        &DispatchOperation::BeginAgain,
        &DispatchOutcome::Begun(Err(StorageError::Conflict))
    ));
}

#[test]
fn rejected_secrets_are_failures_of_the_plugin() {
    assert_eq!(
        DispatchFailure::Runtime(credential_rejected()),
        plugin_failure("required SMTP credential was rejected")
    );
    assert_eq!(
        DispatchFailure::Runtime(database_secret_rejected()),
        plugin_failure("required SMTP database secret was rejected")
    );
}
