use lenso_email_smtp_plugin::config::{SmtpConfig, TlsMode};
use lenso_email_smtp_plugin::digest::digest_text;
use lenso_email_smtp_plugin::dispatch::{
    dispatch, dispatch_step, open_dispatch, suits, DispatchOperation, DispatchOutcome,
    DispatchStep,
};
use lenso_email_smtp_plugin::email::{
    DispatchRequest, DispatchRequestMessage, DispatchRequestRecipient, DispatchResponse,
    DispatchResponseFailure, DispatchResponseOutcome,
};
use lenso_email_smtp_plugin::failure::RuntimeFailure;
use lenso_email_smtp_plugin::response::{SendOutcome, SmtpReply};
use lenso_email_smtp_plugin::storage::{
    begin_dispatch, begin_step, effect_status, finalize_dispatch, finalize_step, fits,
    parse_state, runtime, storage_runtime, BeginDispatch, BeginOperation, BeginOutcome, BeginStep,
    DispatchIdentity, EffectState, EffectStatus, FenceRow, FinalizeOperation, FinalizeOutcome,
    FinalizeStep, StatusRow, StorageError, StoredResponse, CLAIM_EFFECT, CLOSE_EXPIRED_EFFECT,
    FINALIZE_EFFECT, FIND_ATTEMPT, INSERT_EFFECT, LOCK_EFFECT, READ_EFFECT,
};
use lenso_email_smtp_plugin::transport::content_digest;

/// One row of a table that is kept in memory.
#[derive(Clone, Debug)]
struct Row {
    identity: DispatchIdentity,
    state: String,
    fence: i64,
    lease_expires_at: Option<i64>,
    response: Option<DispatchResponse>,
}

/// A table that is kept in memory, with a clock that is set by hand.
#[derive(Clone, Default)]
struct Table {
    rows: Vec<Row>,
    now: i64,
}

impl Table {
    fn find(&mut self, key: &str) -> Option<&mut Row> {
        self.rows
            .iter_mut()
            .find(|row| row.identity.idempotency_key_hash == key)
    }

    fn has_attempt(&self, identity: &DispatchIdentity) -> bool {
        self.rows.iter().any(|row| {
            row.identity.delivery_id_hash == identity.delivery_id_hash
                && row.identity.attempt_id_hash == identity.attempt_id_hash
        })
    }

    fn perform(
        &mut self,
        operation: &BeginOperation,
        identity: &DispatchIdentity,
        lease_ms: i64,
        expired: &DispatchResponse,
    ) -> BeginOutcome {
        let key = identity.idempotency_key_hash.clone();
        let now = self.now;
        match operation {
            BeginOperation::Insert => {
                if self.find(&key).is_none() && !self.has_attempt(identity) {
                    self.rows.push(Row {
                        identity: identity.clone(),
                        state: "prepared".into(),
                        fence: 0,
                        lease_expires_at: None,
                        response: None,
                    });
                }
                BeginOutcome::Done
            }
            BeginOperation::Lock => BeginOutcome::Row(self.find(&key).map(|row| FenceRow {
                request_fingerprint: Ok(row.identity.request_fingerprint.clone()),
                content_digest: Ok(row.identity.content_digest.clone()),
                state: Ok(row.state.clone()),
                fence: Ok(row.fence),
                lease_expires_at: row.lease_expires_at.ok_or("null".into()),
                response: stored(&row.response),
                database_now: Ok(now),
            })),
            BeginOperation::FindAttempt => BeginOutcome::Collides(self.has_attempt(identity)),
            BeginOperation::Claim { fence, next_fence } => {
                let row = self.find(&key).unwrap();
                if row.state != "prepared" || row.fence != *fence {
                    return BeginOutcome::Affected(0);
                }
                row.state = "sending".into();
                row.fence = *next_fence;
                row.lease_expires_at = Some(now + lease_ms * 1000);
                BeginOutcome::Affected(1)
            }
            BeginOperation::CloseExpired => {
                let row = self.find(&key).unwrap();
                if row.state != "sending" || row.lease_expires_at.unwrap() > now {
                    return BeginOutcome::Affected(0);
                }
                row.state = "delivery_unknown".into();
                row.response = Some(expired.clone());
                row.lease_expires_at = None;
                BeginOutcome::Affected(1)
            }
            _ => BeginOutcome::Done,
        }
    }

    fn begin(
        &mut self,
        identity: &DispatchIdentity,
        lease_ms: i64,
        expired: &DispatchResponse,
    ) -> Result<BeginDispatch, StorageError> {
        let mut working = self.clone();
        let mut operation = begin_dispatch();
        loop {
            let commits = matches!(operation, BeginOperation::Commit(_));
            let outcome = working.perform(&operation, identity, lease_ms, expired);
            assert!(fits(&operation, &outcome));
            match begin_step(operation, identity, expired, outcome) {
                BeginStep::Perform(next) => operation = next,
                BeginStep::Finish(result) => {
                    if commits {
                        *self = working;
                    }
                    return result;
                }
            }
        }
    }

    fn status(&mut self, key: &str) -> Result<EffectStatus, StorageError> {
        let now = self.now;
        effect_status(Ok(self.find(key).map(|row| StatusRow {
            state: Ok(row.state.clone()),
            response: stored(&row.response),
            remaining_ms: Ok(row
                .lease_expires_at
                .map_or(0, |expiry| ((expiry - now) / 1000).max(0))),
        })))
    }

    fn finalize(
        &mut self,
        key: &str,
        fence: i64,
        response: &DispatchResponse,
    ) -> Result<DispatchResponse, StorageError> {
        let mut operation = finalize_dispatch(response);
        loop {
            let outcome = match operation {
                FinalizeOperation::Record { state } => {
                    FinalizeOutcome::Affected(match self.find(key) {
                        Some(row) if row.state == "sending" && row.fence == fence => {
                            row.state = state.into();
                            row.response = Some(response.clone());
                            row.lease_expires_at = None;
                            1
                        }
                        _ => 0,
                    })
                }
                FinalizeOperation::ReadBack => FinalizeOutcome::Status(self.status(key)),
            };
            match finalize_step(response, outcome) {
                FinalizeStep::Perform(next) => operation = next,
                FinalizeStep::Finish(result) => return result,
            }
        }
    }
}

fn stored(response: &Option<DispatchResponse>) -> StoredResponse {
    match response {
        Some(response) => StoredResponse::Response(response.clone()),
        None => StoredResponse::Unreadable("null".into()),
    }
}

fn identity(suffix: &str) -> DispatchIdentity {
    DispatchIdentity {
        idempotency_key_hash: digest_text(&format!("idem-{suffix}")),
        delivery_id_hash: digest_text(&format!("delivery-{suffix}")),
        attempt_id_hash: digest_text(&format!("attempt-{suffix}")),
        request_fingerprint: digest_text(&format!("request-{suffix}")),
        content_digest: digest_text(&format!("content-{suffix}")),
    }
}

fn response(outcome: DispatchResponseOutcome, code: &str) -> DispatchResponse {
    let (classification, retry_after_ms) = match outcome {
        DispatchResponseOutcome::TemporaryFailure => (Some("temporary_failure"), Some(1_000)),
        DispatchResponseOutcome::PermanentFailure => (Some("permanent_failure"), None),
        DispatchResponseOutcome::DeliveryUnknown => (Some("delivery_unknown"), None),
        DispatchResponseOutcome::Accepted => (None, None),
    };
    DispatchResponse {
        failure: classification.map(|classification| DispatchResponseFailure {
            classification: classification.to_owned(),
            code: code.to_owned(),
            retry_after_ms,
        }),
        observed_at: "2026-08-30T00:00:00Z".to_owned(),
        outcome,
        provider: "smtp-test".to_owned(),
        remote_receipt: None,
    }
}

fn unknown() -> DispatchResponse {
    response(DispatchResponseOutcome::DeliveryUnknown, "lease_expired")
}

fn failure(task: &str, error: &str) -> StorageError {
    StorageError::Runtime(RuntimeFailure::PluginFailure {
        detail: format!("SMTP effect storage failed to {task}: {error}"),
    })
}

fn finish(step: BeginStep) -> Result<BeginDispatch, StorageError> {
    match step {
        BeginStep::Finish(result) => result,
        BeginStep::Perform(_) => panic!("another operation is asked for"),
    }
}

fn own_row(identity: &DispatchIdentity, state: &str) -> FenceRow {
    FenceRow {
        request_fingerprint: Ok(identity.request_fingerprint.clone()),
        content_digest: Ok(identity.content_digest.clone()),
        state: Ok(state.into()),
        fence: Ok(0),
        lease_expires_at: Ok(1_000_000),
        response: StoredResponse::Response(unknown()),
        database_now: Ok(0),
    }
}

fn after_row(row: FenceRow) -> BeginStep {
    begin_step(
        BeginOperation::Lock,
        &identity("row"),
        &unknown(),
        BeginOutcome::Row(Some(row)),
    )
}

#[test]
fn storage_debug_contains_only_hashes() {
    let identity = DispatchIdentity {
        idempotency_key_hash: format!("sha256:{}", "a".repeat(64)),
        delivery_id_hash: format!("sha256:{}", "b".repeat(64)),
        attempt_id_hash: format!("sha256:{}", "c".repeat(64)),
        request_fingerprint: format!("sha256:{}", "d".repeat(64)),
        content_digest: format!("sha256:{}", "e".repeat(64)),
    };
    let debug = format!("{identity:?}");
    assert!(!debug.contains('@'));
    assert!(!debug.contains("secret"));
}

#[test]
fn restart_concurrency_conflict_fencing_and_sensitive_data_absence() {
    let mut table = Table::default();
    let unknown = response(DispatchResponseOutcome::DeliveryUnknown, "lease_expired");

    let concurrent = identity("concurrent");
    let claims: Vec<_> = (0..8)
        .map(|_| table.begin(&concurrent, 30_000, &unknown))
        .collect();
    assert_eq!(
        claims
            .iter()
            .filter(|claim| matches!(claim, Ok(BeginDispatch::Send { .. })))
            .count(),
        1
    );
    assert_eq!(
        claims
            .iter()
            .filter(|claim| matches!(claim, Ok(BeginDispatch::InFlight { .. })))
            .count(),
        7,
        "claims: {claims:?}"
    );
    let fence = claims
        .into_iter()
        .find_map(|claim| match claim.unwrap() {
            BeginDispatch::Send { fence } => Some(fence),
            _ => None,
        })
        .unwrap();
    let accepted = response(DispatchResponseOutcome::Accepted, "accepted");
    table
        .finalize(&concurrent.idempotency_key_hash, fence, &accepted)
        .unwrap();
    assert_eq!(
        table.begin(&concurrent, 30_000, &unknown).unwrap(),
        BeginDispatch::Replay(accepted.clone())
    );

    let mut conflicting = concurrent.clone();
    conflicting.request_fingerprint = digest_text("different-sensitive-request");
    assert!(matches!(
        table.begin(&conflicting, 30_000, &unknown),
        Err(StorageError::Conflict)
    ));
    let mut colliding_attempt = concurrent.clone();
    colliding_attempt.idempotency_key_hash = digest_text("other-idempotency-key");
    assert!(matches!(
        table.begin(&colliding_attempt, 30_000, &unknown),
        Err(StorageError::Conflict)
    ));

    let restart = identity("restart");
    let stale_fence = match table.begin(&restart, 5, &unknown).unwrap() {
        BeginDispatch::Send { fence } => fence,
        other => panic!("unexpected initial restart claim: {other:?}"),
    };
    let mut restarted = table.clone();
    restarted.now += 20_000;
    assert_eq!(
        restarted.begin(&restart, 5_000, &unknown).unwrap(),
        BeginDispatch::Replay(unknown.clone())
    );
    assert_eq!(
        restarted
            .finalize(&restart.idempotency_key_hash, stale_fence, &accepted)
            .unwrap(),
        unknown
    );

    let persisted = format!("{:?}", restarted.rows);
    for sensitive in [
        "person@example.com",
        "different-sensitive-request",
        "secret-password",
        "<p>private body</p>",
    ] {
        assert!(!persisted.contains(sensitive));
    }
}

#[test]
fn fences_start_at_one_and_leases_count_down() {
    let mut table = Table::default();
    let first = identity("first");
    assert_eq!(
        table.begin(&first, 30_000, &unknown()),
        Ok(BeginDispatch::Send { fence: 1 })
    );
    table.now = 1_500;
    assert_eq!(
        table.begin(&first, 30_000, &unknown()),
        Ok(BeginDispatch::InFlight {
            remaining_ms: 29_998
        })
    );
    assert_eq!(
        table.status(&first.idempotency_key_hash),
        Ok(EffectStatus::InFlight {
            remaining_ms: 29_998
        })
    );
    table.now = 30_000_000;
    assert_eq!(
        table.status(&first.idempotency_key_hash),
        Ok(EffectStatus::InFlight { remaining_ms: 0 })
    );
    assert_eq!(
        table.begin(&first, 30_000, &unknown()),
        Ok(BeginDispatch::Replay(unknown()))
    );
    assert_eq!(
        table.status(&first.idempotency_key_hash),
        Ok(EffectStatus::Final(unknown()))
    );
}

#[test]
fn every_end_is_replayed() {
    for outcome in [
        DispatchResponseOutcome::Accepted,
        DispatchResponseOutcome::TemporaryFailure,
        DispatchResponseOutcome::PermanentFailure,
        DispatchResponseOutcome::DeliveryUnknown,
    ] {
        let mut table = Table::default();
        let identity = identity("end");
        let end = response(outcome, "end");
        assert_eq!(
            table.begin(&identity, 30_000, &unknown()),
            Ok(BeginDispatch::Send { fence: 1 })
        );
        assert_eq!(
            table.finalize(&identity.idempotency_key_hash, 1, &end),
            Ok(end.clone())
        );
        assert_eq!(
            table.begin(&identity, 30_000, &unknown()),
            Ok(BeginDispatch::Replay(end.clone()))
        );
        assert_eq!(
            table.finalize(&identity.idempotency_key_hash, 1, &unknown()),
            Ok(end.clone())
        );
        assert_eq!(
            table.status(&identity.idempotency_key_hash),
            Ok(EffectStatus::Final(end))
        );
    }
}

#[test]
fn a_wrong_fence_finalizes_nothing() {
    let mut table = Table::default();
    let identity = identity("fence");
    table.begin(&identity, 30_000, &unknown()).unwrap();
    let accepted = response(DispatchResponseOutcome::Accepted, "accepted");
    assert_eq!(
        table.finalize(&identity.idempotency_key_hash, 2, &accepted),
        Err(failure(
            "finalize a dispatch fence",
            "fence was lost while the effect remains active"
        ))
    );
    assert_eq!(table.rows[0].state, "sending");
    assert_eq!(
        table.finalize("absent", 1, &accepted),
        Err(failure("read a dispatch fence", "row is absent"))
    );
}

#[test]
fn other_content_under_one_key_conflicts() {
    let mut table = Table::default();
    let identity = identity("content");
    table.begin(&identity, 30_000, &unknown()).unwrap();
    let mut other = identity.clone();
    other.content_digest = digest_text("other");
    assert_eq!(
        table.begin(&other, 30_000, &unknown()),
        Err(StorageError::Conflict)
    );
    assert_eq!(table.rows.len(), 1);
    assert_eq!(table.rows[0].state, "sending");
}

#[test]
fn failed_operations_name_their_task() {
    let tasks: Vec<(BeginOperation, &str)> = vec![
        (BeginOperation::Open, "begin a dispatch fence transaction"),
        (BeginOperation::Insert, "insert a dispatch fence"),
        (BeginOperation::Lock, "lock a dispatch fence"),
        (
            BeginOperation::FindAttempt,
            "resolve an attempt identity collision",
        ),
        (
            BeginOperation::RollBackCollision { collides: true },
            "roll back an identity collision",
        ),
        (
            BeginOperation::RollBackConflict,
            "roll back a conflicting dispatch",
        ),
        (
            BeginOperation::Claim {
                fence: 0,
                next_fence: 1,
            },
            "claim a dispatch fence",
        ),
        (BeginOperation::CloseExpired, "close an expired dispatch"),
        (
            BeginOperation::Commit(BeginDispatch::Send { fence: 1 }),
            "commit a dispatch fence",
        ),
    ];
    for (operation, task) in tasks {
        let step = begin_step(
            operation,
            &identity("failure"),
            &unknown(),
            BeginOutcome::Failed("connection lost".into()),
        );
        assert_eq!(finish(step), Err(failure(task, "connection lost")));
    }
    let step = begin_step(
        BeginOperation::CloseExpired,
        &identity("failure"),
        &unknown(),
        BeginOutcome::EncodeFailed("not a value".into()),
    );
    assert_eq!(
        finish(step),
        Err(failure("encode an expired response", "not a value"))
    );
}

#[test]
fn lost_compare_and_sets_are_failures() {
    for rows in [0, 2] {
        let claim = begin_step(
            BeginOperation::Claim {
                fence: 0,
                next_fence: 1,
            },
            &identity("cas"),
            &unknown(),
            BeginOutcome::Affected(rows),
        );
        assert_eq!(
            finish(claim),
            Err(failure("claim a dispatch fence", "compare-and-set failed"))
        );
        let close = begin_step(
            BeginOperation::CloseExpired,
            &identity("cas"),
            &unknown(),
            BeginOutcome::Affected(rows),
        );
        assert_eq!(
            finish(close),
            Err(failure(
                "close an expired dispatch",
                "lease compare-and-set failed"
            ))
        );
    }
}

#[test]
fn an_absent_row_is_a_collision_or_a_failure() {
    let absent = begin_step(
        BeginOperation::Lock,
        &identity("absent"),
        &unknown(),
        BeginOutcome::Row(None),
    );
    assert!(matches!(
        absent,
        BeginStep::Perform(BeginOperation::FindAttempt)
    ));
    for collides in [true, false] {
        let found = begin_step(
            BeginOperation::FindAttempt,
            &identity("absent"),
            &unknown(),
            BeginOutcome::Collides(collides),
        );
        let operation = match found {
            BeginStep::Perform(operation) => operation,
            BeginStep::Finish(_) => panic!("the transaction is still open"),
        };
        let rolled_back = begin_step(
            operation,
            &identity("absent"),
            &unknown(),
            BeginOutcome::Done,
        );
        let expected = if collides {
            StorageError::Conflict
        } else {
            failure("resolve a dispatch fence", "inserted row is absent")
        };
        assert_eq!(finish(rolled_back), Err(expected));
    }
}

#[test]
fn unreadable_columns_are_named() {
    let identity = identity("row");
    let error = || "mismatched type".to_string();
    let mut row = own_row(&identity, "prepared");
    row.request_fingerprint = Err(error());
    row.content_digest = Err("hidden".into());
    assert_eq!(
        finish(after_row(row)),
        Err(failure("decode a request fingerprint", "mismatched type"))
    );
    let mut row = own_row(&identity, "prepared");
    row.content_digest = Err(error());
    assert_eq!(
        finish(after_row(row)),
        Err(failure("decode a content digest", "mismatched type"))
    );
    let mut row = own_row(&identity, "prepared");
    row.state = Err(error());
    assert_eq!(
        finish(after_row(row)),
        Err(failure("decode a dispatch state", "mismatched type"))
    );
    let mut row = own_row(&identity, "prepared");
    row.fence = Err(error());
    assert_eq!(
        finish(after_row(row)),
        Err(failure("decode a dispatch fence", "mismatched type"))
    );
    let mut row = own_row(&identity, "sending");
    row.lease_expires_at = Err(error());
    row.database_now = Err("hidden".into());
    assert_eq!(
        finish(after_row(row)),
        Err(failure("decode a dispatch lease", "mismatched type"))
    );
    let mut row = own_row(&identity, "sending");
    row.database_now = Err(error());
    assert_eq!(
        finish(after_row(row)),
        Err(failure("decode the database clock", "mismatched type"))
    );
    let mut row = own_row(&identity, "accepted");
    row.response = StoredResponse::Unreadable(error());
    assert_eq!(
        finish(after_row(row)),
        Err(failure("decode a final response", "mismatched type"))
    );
    let mut row = own_row(&identity, "accepted");
    row.response = StoredResponse::Undecodable("missing field".into());
    assert_eq!(
        finish(after_row(row)),
        Err(failure("decode a stored response", "missing field"))
    );
    assert_eq!(
        finish(after_row(own_row(&identity, "lost"))),
        Err(failure("decode a dispatch state", "unknown state"))
    );
}

#[test]
fn fences_do_not_run_over() {
    let identity = identity("row");
    let mut row = own_row(&identity, "prepared");
    row.fence = Ok(i64::MAX);
    assert_eq!(
        finish(after_row(row)),
        Err(failure("advance a dispatch fence", "fence exhausted"))
    );
    let mut row = own_row(&identity, "prepared");
    row.fence = Ok(i64::MAX - 1);
    assert!(matches!(
        after_row(row),
        BeginStep::Perform(BeginOperation::Claim {
            fence,
            next_fence: i64::MAX
        }) if fence == i64::MAX - 1
    ));
}

#[test]
fn leases_of_any_length_are_counted() {
    let identity = identity("row");
    let mut row = own_row(&identity, "sending");
    row.lease_expires_at = Ok(i64::MAX);
    row.database_now = Ok(i64::MIN);
    match after_row(row) {
        BeginStep::Perform(BeginOperation::Commit(BeginDispatch::InFlight { remaining_ms })) => {
            assert_eq!(remaining_ms, 18_446_744_073_709_551)
        }
        _ => panic!("the effect is in flight"),
    }
    let mut row = own_row(&identity, "sending");
    row.lease_expires_at = Ok(5);
    row.database_now = Ok(5);
    assert!(matches!(
        after_row(row),
        BeginStep::Perform(BeginOperation::CloseExpired)
    ));
}

#[test]
fn outcomes_belong_to_their_operations() {
    assert!(fits(&BeginOperation::Open, &BeginOutcome::Done));
    assert!(fits(&BeginOperation::Lock, &BeginOutcome::Row(None)));
    assert!(!fits(&BeginOperation::Lock, &BeginOutcome::Done));
    assert!(!fits(&BeginOperation::Open, &BeginOutcome::Affected(1)));
    assert!(!fits(
        &BeginOperation::Insert,
        &BeginOutcome::EncodeFailed(String::new())
    ));
    assert!(fits(
        &BeginOperation::Insert,
        &BeginOutcome::Failed(String::new())
    ));
}

#[test]
fn a_status_needs_a_readable_row() {
    assert_eq!(
        effect_status(Err("connection lost".into())),
        Err(failure("read a dispatch fence", "connection lost"))
    );
    assert_eq!(
        effect_status(Ok(None)),
        Err(failure("read a dispatch fence", "row is absent"))
    );
    let row = |state: Result<String, String>, response: StoredResponse| StatusRow {
        state,
        response,
        remaining_ms: Err("null".into()),
    };
    assert_eq!(
        effect_status(Ok(Some(row(
            Err("bad".into()),
            StoredResponse::Response(unknown())
        )))),
        Err(failure("decode a dispatch state", "bad"))
    );
    assert_eq!(
        effect_status(Ok(Some(row(
            Ok("sending".into()),
            StoredResponse::Response(unknown())
        )))),
        Err(failure("decode a dispatch lease", "null"))
    );
    assert_eq!(
        effect_status(Ok(Some(row(
            Ok("prepared".into()),
            StoredResponse::Unreadable("null".into())
        )))),
        Err(failure("decode a final response", "null"))
    );
    assert_eq!(
        effect_status(Ok(Some(row(
            Ok("accepted".into()),
            StoredResponse::Undecodable("bad".into())
        )))),
        Err(failure("decode a stored response", "bad"))
    );
    assert_eq!(
        effect_status(Ok(Some(row(
            Ok("accepted".into()),
            StoredResponse::Response(unknown())
        )))),
        Ok(EffectStatus::Final(unknown()))
    );
}

#[test]
fn finalization_reports_what_failed() {
    let accepted = response(DispatchResponseOutcome::Accepted, "accepted");
    let end = |outcome: FinalizeOutcome| match finalize_step(&accepted, outcome) {
        FinalizeStep::Finish(result) => result,
        FinalizeStep::Perform(_) => panic!("another operation is asked for"),
    };
    assert_eq!(
        end(FinalizeOutcome::EncodeFailed("bad".into())),
        Err(failure("encode a final response", "bad"))
    );
    assert_eq!(
        end(FinalizeOutcome::Failed("connection lost".into())),
        Err(failure("finalize a dispatch fence", "connection lost"))
    );
    assert_eq!(
        end(FinalizeOutcome::Status(Err(StorageError::Conflict))),
        Err(StorageError::Conflict)
    );
    match finalize_dispatch(&accepted) {
        FinalizeOperation::Record { state } => assert_eq!(state, "accepted"),
        FinalizeOperation::ReadBack => panic!("nothing was recorded yet"),
    }
}

#[test]
fn states_are_read_as_they_are_written() {
    assert_eq!(parse_state("prepared"), Some(EffectState::Prepared));
    assert_eq!(parse_state("sending"), Some(EffectState::Sending));
    assert_eq!(
        parse_state("accepted"),
        Some(EffectState::Ended(DispatchResponseOutcome::Accepted))
    );
    assert_eq!(
        parse_state("temporary_failure"),
        Some(EffectState::Ended(DispatchResponseOutcome::TemporaryFailure))
    );
    assert_eq!(
        parse_state("permanent_failure"),
        Some(EffectState::Ended(DispatchResponseOutcome::PermanentFailure))
    );
    assert_eq!(
        parse_state("delivery_unknown"),
        Some(EffectState::Ended(DispatchResponseOutcome::DeliveryUnknown))
    );
    assert_eq!(parse_state("Accepted"), None);
    assert_eq!(parse_state(""), None);
}

#[test]
fn storage_errors_become_failures_of_the_plugin() {
    assert_eq!(
        runtime("lock a dispatch fence", "gone"),
        failure("lock a dispatch fence", "gone")
    );
    assert_eq!(
        storage_runtime(StorageError::Conflict),
        RuntimeFailure::PluginFailure {
            detail: "SMTP dispatch identity conflict escaped domain mapping".into()
        }
    );
    assert_eq!(
        StorageError::Runtime(storage_runtime(runtime("a", "b"))),
        failure("a", "b")
    );
}

#[test]
fn statements_name_the_effect_table_only() {
    for statement in [
        INSERT_EFFECT,
        LOCK_EFFECT,
        FIND_ATTEMPT,
        CLAIM_EFFECT,
        CLOSE_EXPIRED_EFFECT,
        READ_EFFECT,
        FINALIZE_EFFECT,
    ] {
        assert!(statement.contains("smtp_dispatch_effects"));
        for forbidden in ["recipient", "subject", "html", "password"] {
            assert!(!statement.contains(forbidden));
        }
    }
}

fn config() -> SmtpConfig {
    SmtpConfig {
        schema: "smtp".into(),
        database_url_secret: "secret://postgres".into(),
        provider: "smtp-primary".into(),
        smtp_host: "smtp.example.com".into(),
        smtp_port: 465,
        tls_mode: TlsMode::ImplicitTls,
        username_secret_ref: "secret://smtp/user".into(),
        password_secret_ref: "secret://smtp/pass".into(),
        from_address: "hello@example.com".into(),
        from_name: None,
        message_id_domain: "mail.example.com".into(),
        command_timeout_ms: 10_000,
        effect_lease_ms: 11_500,
        max_message_bytes: 900_000,
        allowed_callers: vec!["notification".into()],
    }
}

fn request(key: &str, attempt: &str, recipient: &str) -> DispatchRequest {
    let mut message = DispatchRequestMessage {
        content_digest: String::new(),
        html: "<p>private body</p>".into(),
        locale: "en-US".into(),
        subject: "Hello".into(),
        template_id: "welcome".into(),
        template_version: "v1".into(),
        text: "private body".into(),
    };
    message.content_digest = content_digest(&message);
    DispatchRequest {
        attempt_id: attempt.into(),
        correlation_id: "story_1".into(),
        delivery_id: "delivery_1".into(),
        idempotency_key: key.into(),
        message,
        recipient: DispatchRequestRecipient {
            address: recipient.into(),
        },
        run_id: "run_1".into(),
    }
}

fn admitted(request: &DispatchRequest) -> DispatchIdentity {
    open_dispatch(&config(), Some("notification"), request, true)
        .ok()
        .unwrap()
        .identity
}

#[test]
fn a_sender_keeps_its_fence_as_long_as_it_may_submit() {
    let config = config();
    assert_eq!(config.validate(), Ok(()));
    let mut table = Table::default();
    let identity = identity("in-time");
    table.begin(&identity, config.lease_ms(), &unknown()).unwrap();
    table.now = (config.send_timeout_ms() as i64 + 500) * 1000 - 1;
    assert_eq!(
        table.begin(&identity, config.lease_ms(), &unknown()),
        Ok(BeginDispatch::InFlight { remaining_ms: 0 })
    );
    table.now += 1;
    assert_eq!(
        table.begin(&identity, config.lease_ms(), &unknown()),
        Ok(BeginDispatch::Replay(unknown()))
    );
}

#[test]
fn a_key_is_kept_by_the_request_that_came_first() {
    let mut table = Table::default();
    let first = admitted(&request("key_1", "attempt_1", "person@example.com"));
    assert_eq!(
        table.begin(&first, 30_000, &unknown()),
        Ok(BeginDispatch::Send { fence: 1 })
    );
    let other = admitted(&request("key_1", "attempt_1", "somebody@example.com"));
    assert_eq!(
        table.begin(&other, 30_000, &unknown()),
        Err(StorageError::Conflict)
    );
    let reopened = admitted(&request("key_2", "attempt_1", "person@example.com"));
    assert_eq!(
        table.begin(&reopened, 30_000, &unknown()),
        Err(StorageError::Conflict)
    );
    let next = admitted(&request("key_2", "attempt_2", "person@example.com"));
    assert_eq!(
        table.begin(&next, 30_000, &unknown()),
        Ok(BeginDispatch::Send { fence: 1 })
    );
    assert_eq!(table.rows.len(), 2);
    let kept = format!("{:?}", table.rows);
    for sensitive in ["person@example.com", "private body", "key_1", "attempt_1"] {
        assert!(!kept.contains(sensitive));
    }
}

#[test]
fn a_failed_visit_leaves_no_row() {
    let mut table = Table::default();
    let identity = identity("failure");
    let mut working = table.clone();
    let inserted = working.perform(&BeginOperation::Insert, &identity, 30_000, &unknown());
    assert!(matches!(inserted, BeginOutcome::Done));
    let step = begin_step(
        BeginOperation::Lock,
        &identity,
        &unknown(),
        BeginOutcome::Failed("connection lost".into()),
    );
    assert_eq!(
        finish(step),
        Err(failure("lock a dispatch fence", "connection lost"))
    );
    assert!(table.rows.is_empty());
    assert_eq!(
        table.begin(&identity, 30_000, &unknown()),
        Ok(BeginDispatch::Send { fence: 1 })
    );
}

/// A caller in the middle of its dispatch.
struct Caller {
    identity: DispatchIdentity,
    operation: Option<DispatchOperation>,
    submissions: u32,
    answer: Option<DispatchResponse>,
}

impl Caller {
    fn new(identity: &DispatchIdentity) -> Self {
        Self {
            identity: identity.clone(),
            operation: Some(dispatch()),
            submissions: 0,
            answer: None,
        }
    }

    fn advance(&mut self, table: &mut Table) {
        let Some(operation) = self.operation.take() else {
            return;
        };
        let key = &self.identity.idempotency_key_hash;
        let outcome = match &operation {
            DispatchOperation::Begin | DispatchOperation::BeginAgain => {
                DispatchOutcome::Begun(table.begin(&self.identity, 30_000, &unknown()))
            }
            DispatchOperation::ReadStatus => DispatchOutcome::Status(table.status(key)),
            DispatchOperation::Sleep { milliseconds } => {
                table.now += *milliseconds as i64 * 1000;
                DispatchOutcome::Slept
            }
            DispatchOperation::ResolveCredentials { .. } => DispatchOutcome::Credentials {
                username: true,
                password: true,
            },
            DispatchOperation::Submit { .. } => {
                self.submissions += 1;
                DispatchOutcome::Submitted(SendOutcome::Completed(SmtpReply {
                    positive: true,
                    code: "250".into(),
                    lines: vec!["queued".into()],
                }))
            }
            DispatchOperation::Finalize { fence, response } => {
                DispatchOutcome::Finalized(table.finalize(key, *fence, response))
            }
        };
        assert!(suits(&operation, &outcome));
        match dispatch_step(operation, "smtp-test", "<id@example.com>", outcome) {
            DispatchStep::Perform(next) => self.operation = Some(next),
            DispatchStep::Finish(result) => self.answer = Some(result.unwrap()),
        }
    }
}

#[test]
fn all_callers_of_a_key_are_answered_alike() {
    let mut table = Table::default();
    let identity = identity("alike");
    let mut callers: Vec<Caller> = (0..3).map(|_| Caller::new(&identity)).collect();
    for _ in 0..12 {
        for caller in callers.iter_mut() {
            caller.advance(&mut table);
        }
    }
    let mut late = Caller::new(&identity);
    late.advance(&mut table);
    callers.push(late);
    let stored = table.rows[0].response.clone();
    assert_eq!(
        stored.as_ref().unwrap().outcome,
        DispatchResponseOutcome::Accepted
    );
    for caller in &callers {
        assert_eq!(caller.answer, stored);
    }
    let submissions: u32 = callers.iter().map(|caller| caller.submissions).sum();
    assert_eq!(submissions, 1);
}

#[test]
fn a_lost_sender_is_answered_like_the_rest() {
    let mut table = Table::default();
    let identity = identity("lost");
    let mut sender = Caller::new(&identity);
    for _ in 0..3 {
        sender.advance(&mut table);
    }
    assert!(matches!(
        sender.operation,
        Some(DispatchOperation::Finalize { .. })
    ));
    table.now += 30_000_000;
    let mut other = Caller::new(&identity);
    other.advance(&mut table);
    assert_eq!(other.answer, Some(unknown()));
    sender.advance(&mut table);
    assert_eq!(sender.answer, Some(unknown()));
    assert_eq!(sender.submissions, 1);
    assert_eq!(other.submissions, 0);
}
