//! One dispatch, from the caller's request to the response.
//!
//! A driver performs the operation that it is asked for, reports the outcome, and is told what to
//! do next.
use vstd::prelude::*;
use vstd::string::*;

use crate::config::{is_allowed_caller, lease_of, SmtpConfig};
use crate::digest::{
    digest_of, equal_identities_mean_equal_identifiers_or_a_collision, framable,
    identity_digest_of, is_collision, is_identity_collision,
};
use crate::effects::{
    a_key_is_sent_at_most_once, a_read_tells_the_state, a_smooth_visit_does_what_the_row_calls_for,
    an_attempt_is_sent_at_most_once, attempt_is_taken, begin, closes_as_unknown,
    everyone_is_told_the_same, finalize_result, finalized, has_none_prepared, holds_content_of,
    is_ended_with, is_finalization_answer, is_replayed, is_smooth, is_sound, is_told, lease_fits,
    other_content_is_a_conflict, read_answer, sends_at, shows_digests, status_at, table_after,
    what_is_told_is_the_end, Circumstances, EffectTable, FinalizeCircumstances, StorageEvent,
};
use crate::email::{
    DispatchError, DispatchRequest, DispatchResponse, DispatchResponseOutcome,
    DispatchResponseView,
};
use crate::failure::{RuntimeFailure, RuntimeFailureView};
use crate::response::{
    is_timestamp, observed_at, send_response_at, send_view, temporary_response_at, temporary_view,
    unknown_response_at, unknown_view, SendOutcome,
};
use crate::storage::{
    status_of, storage_runtime, storage_runtime_view, BeginDispatch, BeginDispatchView,
    DispatchIdentity, DispatchIdentityView, EffectState, EffectStatus, EffectStatusView,
    StorageError, StorageErrorView,
};
use crate::text::has_line_break;
use crate::transport::{
    carries_identities, is_message_of, mail_of, prepare_dispatch, prepare_verdict, request_parts,
    same_request, the_fingerprint_covers_every_field, PrepareError, PreparedDispatch,
};

verus! {

/// Why a dispatch gave no response.
#[derive(Debug, PartialEq, Eq)]
pub enum DispatchFailure {
    /// The request was refused before any effect.
    Domain(DispatchError),
    /// The plugin could not do its work.
    Runtime(RuntimeFailure),
}

#[verifier::ext_equal]
pub enum DispatchFailureView {
    Domain(DispatchError),
    Runtime(RuntimeFailureView),
}

impl View for DispatchFailure {
    type V = DispatchFailureView;

    open spec fn view(&self) -> DispatchFailureView {
        match self {
            DispatchFailure::Domain(error) => DispatchFailureView::Domain(*error),
            DispatchFailure::Runtime(failure) => DispatchFailureView::Runtime(failure@),
        }
    }
}

/// A dispatch that was admitted: its message, the identity and the lease of its fence, and the
/// response with which an expired effect is closed.
pub struct OpenDispatch {
    pub prepared: PreparedDispatch,
    pub identity: DispatchIdentity,
    pub lease_ms: i64,
    pub expired_response: DispatchResponse,
}

/// The identity of a prepared request at the fence.
pub open spec fn prepared_identity(
    prepared: PreparedDispatch,
    request: DispatchRequest,
) -> DispatchIdentityView {
    DispatchIdentityView {
        idempotency_key_hash: prepared.idempotency_key_hash@,
        delivery_id_hash: prepared.delivery_id_hash@,
        attempt_id_hash: prepared.attempt_id_hash@,
        request_fingerprint: prepared.request_fingerprint@,
        content_digest: request.message.content_digest@,
    }
}

/// The identity of a request at the fence.
pub open spec fn identity_of(request: DispatchRequest) -> DispatchIdentityView {
    DispatchIdentityView {
        idempotency_key_hash: identity_digest_of(request.idempotency_key@),
        delivery_id_hash: identity_digest_of(request.delivery_id@),
        attempt_id_hash: identity_digest_of(request.attempt_id@),
        request_fingerprint: digest_of(request_parts(request)),
        content_digest: request.message.content_digest@,
    }
}

/// The response with which an effect is closed whose lease has run out.
pub open spec fn expired_view(config: SmtpConfig, observed_at: Seq<char>) -> DispatchResponseView {
    unknown_view(config.provider@, "smtp_effect_lease_expired"@, observed_at)
}

/// The error that the caller is told of a request that was not prepared.
pub open spec fn domain_error(error: PrepareError) -> DispatchError {
    match error {
        PrepareError::Invalid => DispatchError::InvalidDispatch,
        PrepareError::Unsupported => DispatchError::UnsupportedMessage,
    }
}

/// The refusal of a request, if it is refused, given whether the caller is allowed, the verdict on
/// the request, and whether the plugin is active.
pub open spec fn refusal(
    allowed: bool,
    verdict: Result<(), PrepareError>,
    active: bool,
) -> Option<DispatchFailureView> {
    if !allowed {
        Some(DispatchFailureView::Domain(DispatchError::InvalidDispatch))
    } else {
        match verdict {
            Err(error) => Some(DispatchFailureView::Domain(domain_error(error))),
            Ok(()) => if !active {
                Some(
                    DispatchFailureView::Runtime(
                        RuntimeFailureView::PluginFailure {
                            detail: "SMTP Plugin is not active"@,
                        },
                    ),
                )
            } else {
                None
            },
        }
    }
}

pub open spec fn caller_view(caller: Option<&str>) -> Option<Seq<char>> {
    match caller {
        Some(caller) => Some(caller@),
        None => None,
    }
}

pub open spec fn preparation(prepared: Result<PreparedDispatch, PrepareError>) -> Result<
    (),
    PrepareError,
> {
    match prepared {
        Ok(_) => Ok(()),
        Err(error) => Err(error),
    }
}

/// Admits a request that was prepared, or refuses it.
pub fn admit_prepared(
    config: &SmtpConfig,
    request: &DispatchRequest,
    prepared: Result<PreparedDispatch, PrepareError>,
    active: bool,
    observed_at: String,
) -> (admitted: Result<OpenDispatch, DispatchFailure>)
    ensures
        match (admitted, prepared) {
            (Ok(open), Ok(message)) => {
                &&& active
                &&& open.prepared == message
                &&& open.identity@ == prepared_identity(message, *request)
                &&& open.lease_ms == lease_of(*config)
                &&& open.expired_response@ == expired_view(*config, observed_at@)
            },
            (Ok(_), Err(_)) => false,
            (Err(failure), _) => refusal(true, preparation(prepared), active) == Some(failure@),
        },
{
    match prepared {
        Err(PrepareError::Invalid) => Err(DispatchFailure::Domain(DispatchError::InvalidDispatch)),
        Err(PrepareError::Unsupported) => Err(
            DispatchFailure::Domain(DispatchError::UnsupportedMessage),
        ),
        Ok(prepared) => {
            if !active {
                return Err(
                    DispatchFailure::Runtime(
                        RuntimeFailure::PluginFailure {
                            detail: String::from_str("SMTP Plugin is not active"),
                        },
                    ),
                );
            }
            let identity = DispatchIdentity {
                idempotency_key_hash: prepared.idempotency_key_hash.clone(),
                delivery_id_hash: prepared.delivery_id_hash.clone(),
                attempt_id_hash: prepared.attempt_id_hash.clone(),
                request_fingerprint: prepared.request_fingerprint.clone(),
                content_digest: request.message.content_digest.clone(),
            };
            let expired_response = unknown_response_at(
                config.provider.as_str(),
                "smtp_effect_lease_expired",
                observed_at,
            );
            Ok(OpenDispatch { prepared, identity, lease_ms: config.lease_ms(), expired_response })
        },
    }
}

/// Checks the caller and the request before any effect.
pub fn open_dispatch(
    config: &SmtpConfig,
    caller: Option<&str>,
    request: &DispatchRequest,
    active: bool,
) -> (admitted: Result<OpenDispatch, DispatchFailure>)
    requires
        config.from_name matches Some(name) ==> !has_line_break(name@),
    ensures
        ({
            let refused = refusal(
                is_allowed_caller(*config, caller_view(caller)),
                prepare_verdict(*config, *request),
                active,
            );
            match admitted {
                Ok(open) => {
                    &&& refused is None
                    &&& is_message_of(open.prepared.message, mail_of(*config, *request))
                    &&& carries_identities(open.prepared, *config, *request)
                    &&& open.identity@ == identity_of(*request)
                    &&& shows_digests(open.identity@)
                    &&& open.lease_ms == lease_of(*config)
                    &&& open.expired_response@ == expired_view(
                        *config,
                        open.expired_response.observed_at@,
                    )
                    &&& is_timestamp(open.expired_response.observed_at@)
                },
                Err(failure) => refused == Some(failure@),
            }
        }),
{
    if !config.allowed(caller) {
        return Err(DispatchFailure::Domain(DispatchError::InvalidDispatch));
    }
    admit_prepared(config, request, prepare_dispatch(config, request), active, observed_at())
}

/// The operation that a dispatch asks for next.
pub enum DispatchOperation {
    /// Visit the fence.
    Begin,
    /// Read how far the effect has come that another caller has started.
    ReadStatus,
    /// Wait this many milliseconds.
    Sleep { milliseconds: u64 },
    /// Visit the fence again, since the lease of the other caller has run out.
    BeginAgain,
    /// Fetch the relay's user name and password.
    ResolveCredentials { fence: i64 },
    /// Submit the message to the relay.
    Submit { fence: i64 },
    /// Record the response under the fence.
    Finalize { fence: i64, response: DispatchResponse },
}

#[verifier::ext_equal]
pub enum DispatchOperationView {
    Begin,
    ReadStatus,
    Sleep { milliseconds: u64 },
    BeginAgain,
    ResolveCredentials { fence: i64 },
    Submit { fence: i64 },
    Finalize { fence: i64, response: DispatchResponseView },
}

impl View for DispatchOperation {
    type V = DispatchOperationView;

    open spec fn view(&self) -> DispatchOperationView {
        match self {
            DispatchOperation::Begin => DispatchOperationView::Begin,
            DispatchOperation::ReadStatus => DispatchOperationView::ReadStatus,
            DispatchOperation::Sleep { milliseconds } => DispatchOperationView::Sleep {
                milliseconds: *milliseconds,
            },
            DispatchOperation::BeginAgain => DispatchOperationView::BeginAgain,
            DispatchOperation::ResolveCredentials {
                fence,
            } => DispatchOperationView::ResolveCredentials { fence: *fence },
            DispatchOperation::Submit { fence } => DispatchOperationView::Submit { fence: *fence },
            DispatchOperation::Finalize { fence, response } => DispatchOperationView::Finalize {
                fence: *fence,
                response: response@,
            },
        }
    }
}

/// What came of an operation.
pub enum DispatchOutcome {
    Begun(Result<BeginDispatch, StorageError>),
    Status(Result<EffectStatus, StorageError>),
    Slept,
    /// Whether the user name and the password could be had.
    Credentials { username: bool, password: bool },
    Submitted(SendOutcome),
    Finalized(Result<DispatchResponse, StorageError>),
}

#[verifier::ext_equal]
pub enum DispatchOutcomeView {
    Begun(Result<BeginDispatchView, StorageErrorView>),
    Status(Result<EffectStatusView, StorageErrorView>),
    Slept,
    Credentials { username: bool, password: bool },
    Submitted(SendOutcome),
    Finalized(Result<DispatchResponseView, StorageErrorView>),
}

impl View for DispatchOutcome {
    type V = DispatchOutcomeView;

    open spec fn view(&self) -> DispatchOutcomeView {
        match self {
            DispatchOutcome::Begun(Ok(begun)) => DispatchOutcomeView::Begun(Ok(begun@)),
            DispatchOutcome::Begun(Err(error)) => DispatchOutcomeView::Begun(Err(error@)),
            DispatchOutcome::Status(Ok(status)) => DispatchOutcomeView::Status(Ok(status@)),
            DispatchOutcome::Status(Err(error)) => DispatchOutcomeView::Status(Err(error@)),
            DispatchOutcome::Slept => DispatchOutcomeView::Slept,
            DispatchOutcome::Credentials { username, password } => {
                DispatchOutcomeView::Credentials { username: *username, password: *password }
            },
            DispatchOutcome::Submitted(outcome) => DispatchOutcomeView::Submitted(*outcome),
            DispatchOutcome::Finalized(Ok(response)) => DispatchOutcomeView::Finalized(
                Ok(response@),
            ),
            DispatchOutcome::Finalized(Err(error)) => DispatchOutcomeView::Finalized(Err(error@)),
        }
    }
}

/// What follows an operation.
pub enum DispatchStep {
    Perform(DispatchOperation),
    Finish(Result<DispatchResponse, DispatchFailure>),
}

#[verifier::ext_equal]
pub enum DispatchStepView {
    Perform(DispatchOperationView),
    Finish(Result<DispatchResponseView, DispatchFailureView>),
}

impl View for DispatchStep {
    type V = DispatchStepView;

    open spec fn view(&self) -> DispatchStepView {
        match self {
            DispatchStep::Perform(operation) => DispatchStepView::Perform(operation@),
            DispatchStep::Finish(Ok(response)) => DispatchStepView::Finish(Ok(response@)),
            DispatchStep::Finish(Err(failure)) => DispatchStepView::Finish(Err(failure@)),
        }
    }
}

/// The outcomes that an operation can have.
pub open spec fn outcome_suits(
    operation: DispatchOperationView,
    outcome: DispatchOutcomeView,
) -> bool {
    match outcome {
        DispatchOutcomeView::Begun(_) => operation is Begin || operation is BeginAgain,
        DispatchOutcomeView::Status(_) => operation is ReadStatus,
        DispatchOutcomeView::Slept => operation is Sleep,
        DispatchOutcomeView::Credentials { .. } => operation is ResolveCredentials,
        DispatchOutcomeView::Submitted(_) => operation is Submit,
        DispatchOutcomeView::Finalized(_) => operation is Finalize,
    }
}

/// Whether the operation can have the outcome.
pub fn suits(operation: &DispatchOperation, outcome: &DispatchOutcome) -> (suit: bool)
    ensures
        suit == outcome_suits(operation@, outcome@),
{
    match (operation, outcome) {
        (DispatchOperation::Begin, DispatchOutcome::Begun(_)) => true,
        (DispatchOperation::BeginAgain, DispatchOutcome::Begun(_)) => true,
        (DispatchOperation::ReadStatus, DispatchOutcome::Status(_)) => true,
        (DispatchOperation::Sleep { .. }, DispatchOutcome::Slept) => true,
        (DispatchOperation::ResolveCredentials { .. }, DispatchOutcome::Credentials { .. }) => true,
        (DispatchOperation::Submit { .. }, DispatchOutcome::Submitted(_)) => true,
        (DispatchOperation::Finalize { .. }, DispatchOutcome::Finalized(_)) => true,
        _ => false,
    }
}

pub open spec fn runtime_end(failure: RuntimeFailureView) -> DispatchStepView {
    DispatchStepView::Finish(Err(DispatchFailureView::Runtime(failure)))
}

/// What follows the first visit to the fence.
pub open spec fn after_begin(
    begun: Result<BeginDispatchView, StorageErrorView>,
) -> DispatchStepView {
    match begun {
        Ok(BeginDispatchView::Replay(response)) => DispatchStepView::Finish(Ok(response)),
        Ok(BeginDispatchView::InFlight { .. }) => DispatchStepView::Perform(
            DispatchOperationView::ReadStatus,
        ),
        Ok(BeginDispatchView::Send { fence }) => DispatchStepView::Perform(
            DispatchOperationView::ResolveCredentials { fence },
        ),
        Err(StorageErrorView::Conflict) => DispatchStepView::Finish(
            Err(DispatchFailureView::Domain(DispatchError::InvalidDispatch)),
        ),
        Err(StorageErrorView::Runtime(failure)) => runtime_end(failure),
    }
}

/// What follows a later visit to the fence.
pub open spec fn after_begin_again(
    begun: Result<BeginDispatchView, StorageErrorView>,
) -> DispatchStepView {
    match begun {
        Ok(BeginDispatchView::Replay(response)) => DispatchStepView::Finish(Ok(response)),
        Ok(BeginDispatchView::InFlight { .. }) => DispatchStepView::Perform(
            DispatchOperationView::ReadStatus,
        ),
        Ok(BeginDispatchView::Send { .. }) => runtime_end(
            RuntimeFailureView::PluginFailure {
                detail: "SMTP dispatch fence unexpectedly reopened"@,
            },
        ),
        Err(error) => runtime_end(storage_runtime_view(error)),
    }
}

/// What follows a look at the effect of another caller: its response, a short wait, or, when its
/// lease has run out, another visit to the fence.
pub open spec fn after_status(
    status: Result<EffectStatusView, StorageErrorView>,
) -> DispatchStepView {
    match status {
        Ok(EffectStatusView::Final(response)) => DispatchStepView::Finish(Ok(response)),
        Ok(EffectStatusView::InFlight { remaining_ms }) => if remaining_ms <= 0 {
            DispatchStepView::Perform(DispatchOperationView::BeginAgain)
        } else {
            DispatchStepView::Perform(
                DispatchOperationView::Sleep {
                    milliseconds: if remaining_ms < 50 {
                        remaining_ms as u64
                    } else {
                        50
                    },
                },
            )
        },
        Err(error) => runtime_end(storage_runtime_view(error)),
    }
}

/// What follows an operation and its outcome, for a message with this identifier. A response that
/// is made now is observed at `observed_at`.
pub open spec fn dispatch_next(
    operation: DispatchOperationView,
    provider: Seq<char>,
    message_id: Seq<char>,
    outcome: DispatchOutcomeView,
    observed_at: Seq<char>,
) -> DispatchStepView
    recommends
        outcome_suits(operation, outcome),
{
    match outcome {
        DispatchOutcomeView::Begun(begun) => if operation is Begin {
            after_begin(begun)
        } else {
            after_begin_again(begun)
        },
        DispatchOutcomeView::Status(status) => after_status(status),
        DispatchOutcomeView::Slept => DispatchStepView::Perform(DispatchOperationView::ReadStatus),
        DispatchOutcomeView::Credentials { username, password } => {
            let fence = operation->ResolveCredentials_fence;
            if username && password {
                DispatchStepView::Perform(DispatchOperationView::Submit { fence })
            } else {
                DispatchStepView::Perform(
                    DispatchOperationView::Finalize {
                        fence,
                        response: temporary_view(
                            provider,
                            "smtp_credentials_unavailable"@,
                            60_000,
                            observed_at,
                        ),
                    },
                )
            }
        },
        DispatchOutcomeView::Submitted(outcome) => DispatchStepView::Perform(
            DispatchOperationView::Finalize {
                fence: operation->Submit_fence,
                response: send_view(provider, message_id, outcome, observed_at),
            },
        ),
        DispatchOutcomeView::Finalized(Ok(response)) => DispatchStepView::Finish(Ok(response)),
        DispatchOutcomeView::Finalized(Err(error)) => runtime_end(storage_runtime_view(error)),
    }
}

fn begin_step_of_dispatch(begun: Result<BeginDispatch, StorageError>) -> (step: DispatchStep)
    ensures
        step@ == after_begin(
            match begun {
                Ok(begun) => Ok(begun@),
                Err(error) => Err(error@),
            },
        ),
{
    match begun {
        Ok(BeginDispatch::Replay(response)) => DispatchStep::Finish(Ok(response)),
        Ok(BeginDispatch::InFlight { .. }) => DispatchStep::Perform(DispatchOperation::ReadStatus),
        Ok(BeginDispatch::Send { fence }) => DispatchStep::Perform(
            DispatchOperation::ResolveCredentials { fence },
        ),
        Err(StorageError::Conflict) => DispatchStep::Finish(
            Err(DispatchFailure::Domain(DispatchError::InvalidDispatch)),
        ),
        Err(StorageError::Runtime(failure)) => DispatchStep::Finish(
            Err(DispatchFailure::Runtime(failure)),
        ),
    }
}

fn runtime_step(error: StorageError) -> (step: DispatchStep)
    ensures
        step@ == runtime_end(storage_runtime_view(error@)),
{
    DispatchStep::Finish(Err(DispatchFailure::Runtime(storage_runtime(error))))
}

/// Decides what a caller does that waits for the effect of another, after it has visited the
/// fence again.
pub fn begin_again_step(begun: Result<BeginDispatch, StorageError>) -> (step: DispatchStep)
    ensures
        step@ == after_begin_again(
            match begun {
                Ok(begun) => Ok(begun@),
                Err(error) => Err(error@),
            },
        ),
{
    match begun {
        Ok(BeginDispatch::Replay(response)) => DispatchStep::Finish(Ok(response)),
        Ok(BeginDispatch::InFlight { .. }) => DispatchStep::Perform(DispatchOperation::ReadStatus),
        Ok(BeginDispatch::Send { .. }) => DispatchStep::Finish(
            Err(
                DispatchFailure::Runtime(
                    RuntimeFailure::PluginFailure {
                        detail: String::from_str("SMTP dispatch fence unexpectedly reopened"),
                    },
                ),
            ),
        ),
        Err(error) => runtime_step(error),
    }
}

/// Decides what a caller does that waits for the effect of another.
pub fn wait_for_inflight(status: Result<EffectStatus, StorageError>) -> (step: DispatchStep)
    ensures
        step@ == after_status(
            match status {
                Ok(status) => Ok(status@),
                Err(error) => Err(error@),
            },
        ),
{
    match status {
        Ok(EffectStatus::Final(response)) => DispatchStep::Finish(Ok(response)),
        Ok(EffectStatus::InFlight { remaining_ms }) => if remaining_ms <= 0 {
            DispatchStep::Perform(DispatchOperation::BeginAgain)
        } else {
            let milliseconds: u64 = if remaining_ms < 50 {
                remaining_ms as u64
            } else {
                50
            };
            DispatchStep::Perform(DispatchOperation::Sleep { milliseconds })
        },
        Err(error) => runtime_step(error),
    }
}

/// The first operation of an admitted dispatch.
pub fn dispatch() -> (operation: DispatchOperation)
    ensures
        operation@ == DispatchOperationView::Begin,
{
    DispatchOperation::Begin
}

/// Decides what follows an operation, with the time at which a new response is observed.
pub fn dispatch_step_at(
    operation: DispatchOperation,
    provider: &str,
    message_id: &str,
    outcome: DispatchOutcome,
    observed_at: String,
) -> (step: DispatchStep)
    requires
        outcome_suits(operation@, outcome@),
    ensures
        step@ == dispatch_next(operation@, provider@, message_id@, outcome@, observed_at@),
{
    match (operation, outcome) {
        (DispatchOperation::Begin, DispatchOutcome::Begun(begun)) => begin_step_of_dispatch(begun),
        (_, DispatchOutcome::Begun(begun)) => begin_again_step(begun),
        (_, DispatchOutcome::Status(status)) => wait_for_inflight(status),
        (_, DispatchOutcome::Slept) => DispatchStep::Perform(DispatchOperation::ReadStatus),
        (
            DispatchOperation::ResolveCredentials { fence },
            DispatchOutcome::Credentials { username, password },
        ) => if username && password {
            DispatchStep::Perform(DispatchOperation::Submit { fence })
        } else {
            let response = temporary_response_at(
                provider,
                "smtp_credentials_unavailable",
                60_000,
                observed_at,
            );
            DispatchStep::Perform(DispatchOperation::Finalize { fence, response })
        },
        (DispatchOperation::Submit { fence }, DispatchOutcome::Submitted(outcome)) => {
            let response = send_response_at(provider, message_id, &outcome, observed_at);
            DispatchStep::Perform(DispatchOperation::Finalize { fence, response })
        },
        (_, DispatchOutcome::Finalized(Ok(response))) => DispatchStep::Finish(Ok(response)),
        (_, DispatchOutcome::Finalized(Err(error))) => runtime_step(error),
        (operation, outcome) => {
            assert(false);
            DispatchStep::Perform(operation)
        },
    }
}

/// Decides what follows an operation. A new response is observed now.
pub fn dispatch_step(
    operation: DispatchOperation,
    provider: &str,
    message_id: &str,
    outcome: DispatchOutcome,
) -> (step: DispatchStep)
    requires
        outcome_suits(operation@, outcome@),
    ensures
        exists|observed_at: Seq<char>|
            is_timestamp(observed_at) && step@ == #[trigger] dispatch_next(
                operation@,
                provider@,
                message_id@,
                outcome@,
                observed_at,
            ),
{
    let observed = observed_at();
    assert(is_timestamp(observed@));
    dispatch_step_at(operation, provider, message_id, outcome, observed)
}

/// One operation of a dispatch, with what came of it and when.
#[verifier::ext_equal]
pub struct DispatchMove {
    pub operation: DispatchOperationView,
    pub outcome: DispatchOutcomeView,
    pub observed_at: Seq<char>,
}

/// The moves of one dispatch: it starts at the fence, and each operation is the one that follows
/// the move before.
pub open spec fn is_course(
    moves: Seq<DispatchMove>,
    provider: Seq<char>,
    message_id: Seq<char>,
) -> bool {
    &&& moves.len() > 0 ==> moves[0].operation == DispatchOperationView::Begin
    &&& forall|i: int|
        0 <= i < moves.len() ==> outcome_suits((#[trigger] moves[i]).operation, moves[i].outcome)
    &&& forall|i: int|
        0 < i < moves.len() ==> DispatchStepView::Perform((#[trigger] moves[i]).operation)
            == dispatch_next(
            moves[i - 1].operation,
            provider,
            message_id,
            moves[i - 1].outcome,
            moves[i - 1].observed_at,
        )
}

/// The dispatch hands its message to the relay.
pub open spec fn submits(moves: Seq<DispatchMove>) -> bool {
    exists|i: int| 0 <= i < moves.len() && (#[trigger] moves[i]).operation is Submit
}

/// Where in its course a dispatch can be.
spec fn is_at(moves: Seq<DispatchMove>, index: int) -> bool {
    let operation = moves[index].operation;
    match operation {
        DispatchOperationView::Begin => index == 0,
        DispatchOperationView::ResolveCredentials { fence } => index == 1 && moves[0].outcome
            == DispatchOutcomeView::Begun(Ok(BeginDispatchView::Send { fence })),
        DispatchOperationView::Submit { fence } => index == 2 && moves[1].operation == (
        DispatchOperationView::ResolveCredentials { fence }) && moves[1].outcome == (
        DispatchOutcomeView::Credentials { username: true, password: true }) && moves[0].outcome
            == DispatchOutcomeView::Begun(Ok(BeginDispatchView::Send { fence })),
        DispatchOperationView::Finalize { .. } => index == 2 || index == 3,
        _ => index > 0 && !(moves[0].outcome matches DispatchOutcomeView::Begun(
            Ok(BeginDispatchView::Send { .. }),
        )),
    }
}

proof fn a_course_is_at(
    moves: Seq<DispatchMove>,
    provider: Seq<char>,
    message_id: Seq<char>,
    index: int,
)
    requires
        is_course(moves, provider, message_id),
        0 <= index < moves.len(),
    ensures
        is_at(moves, index),
    decreases index,
{
    if index > 0 {
        a_course_is_at(moves, provider, message_id, index - 1);
        assert(outcome_suits(moves[index - 1].operation, moves[index - 1].outcome));
        assert(DispatchStepView::Perform(moves[index].operation) == dispatch_next(
            moves[index - 1].operation,
            provider,
            message_id,
            moves[index - 1].outcome,
            moves[index - 1].observed_at,
        ));
    }
}

/// A message is submitted only by a caller that was told to send at the fence and has both
/// credentials, as its third operation, under the fence that it was given; so a dispatch submits
/// its message at most once.
pub proof fn a_submission_follows_the_fence_and_the_credentials(
    moves: Seq<DispatchMove>,
    provider: Seq<char>,
    message_id: Seq<char>,
    index: int,
)
    requires
        is_course(moves, provider, message_id),
        0 <= index < moves.len(),
        moves[index].operation is Submit,
    ensures
        index == 2,
        moves[0].outcome == DispatchOutcomeView::Begun(
            Ok(BeginDispatchView::Send { fence: moves[index].operation->Submit_fence }),
        ),
        moves[1].outcome == (DispatchOutcomeView::Credentials { username: true, password: true }),
{
    a_course_is_at(moves, provider, message_id, index);
}

/// A caller that is not told to send at its first visit to the fence never submits, however long
/// it waits and whatever it meets.
pub proof fn a_waiting_caller_never_submits(
    moves: Seq<DispatchMove>,
    provider: Seq<char>,
    message_id: Seq<char>,
)
    requires
        is_course(moves, provider, message_id),
        moves.len() > 0,
        !(moves[0].outcome matches DispatchOutcomeView::Begun(
            Ok(BeginDispatchView::Send { .. }),
        )),
    ensures
        !submits(moves),
{
    if submits(moves) {
        let index = choose|i: int|
            0 <= i < moves.len() && (#[trigger] moves[i]).operation is Submit;
        a_course_is_at(moves, provider, message_id, index);
    }
}

/// Without both credentials nothing is submitted: the effect ends as a temporary failure.
pub proof fn missing_credentials_start_no_submission(
    moves: Seq<DispatchMove>,
    provider: Seq<char>,
    message_id: Seq<char>,
    username: bool,
    password: bool,
)
    requires
        is_course(moves, provider, message_id),
        moves.len() > 1,
        moves[1].outcome == (DispatchOutcomeView::Credentials { username, password }),
        !(username && password),
    ensures
        !submits(moves),
        moves.len() > 2 ==> (moves[2].operation matches DispatchOperationView::Finalize {
            response,
            ..
        } && response.outcome == DispatchResponseOutcome::TemporaryFailure),
{
    if submits(moves) {
        let index = choose|i: int|
            0 <= i < moves.len() && (#[trigger] moves[i]).operation is Submit;
        a_course_is_at(moves, provider, message_id, index);
    }
    assert(outcome_suits(moves[1].operation, moves[1].outcome));
    if moves.len() > 2 {
        assert(DispatchStepView::Perform(moves[2].operation) == dispatch_next(
            moves[1].operation,
            provider,
            message_id,
            moves[1].outcome,
            moves[1].observed_at,
        ));
    }
}

/// Only the first visit to the fence can end a dispatch with a domain error: once an effect has
/// begun, a dispatch ends with a response or with a failure of the plugin.
pub proof fn a_domain_error_comes_before_any_effect(
    operation: DispatchOperationView,
    provider: Seq<char>,
    message_id: Seq<char>,
    outcome: DispatchOutcomeView,
    observed_at: Seq<char>,
)
    requires
        outcome_suits(operation, outcome),
    ensures
        dispatch_next(operation, provider, message_id, outcome, observed_at)
            matches DispatchStepView::Finish(Err(DispatchFailureView::Domain(error))) ==> operation
            == DispatchOperationView::Begin && error == DispatchError::InvalidDispatch && outcome
            == DispatchOutcomeView::Begun(Err(StorageErrorView::Conflict)),
{
}

/// A submission is always followed by finalization under the same fence, with the response that
/// its outcome calls for.
pub proof fn a_submission_is_finalized(
    fence: i64,
    provider: Seq<char>,
    message_id: Seq<char>,
    outcome: SendOutcome,
    observed_at: Seq<char>,
)
    ensures
        dispatch_next(
            DispatchOperationView::Submit { fence },
            provider,
            message_id,
            DispatchOutcomeView::Submitted(outcome),
            observed_at,
        ) == DispatchStepView::Perform(
            DispatchOperationView::Finalize {
                fence,
                response: send_view(provider, message_id, outcome, observed_at),
            },
        ),
{
}

/// A waiting caller looks again after at least one and at most fifty milliseconds.
pub proof fn a_wait_is_short(
    operation: DispatchOperationView,
    provider: Seq<char>,
    message_id: Seq<char>,
    outcome: DispatchOutcomeView,
    observed_at: Seq<char>,
)
    requires
        outcome_suits(operation, outcome),
    ensures
        dispatch_next(operation, provider, message_id, outcome, observed_at)
            matches DispatchStepView::Perform(
            DispatchOperationView::Sleep { milliseconds },
        ) ==> 1 <= milliseconds <= 50,
{
}

/// A waiting caller that finds the lease run out visits the fence again, and one that finds half a
/// millisecond or more of it left waits.
pub proof fn a_waiting_caller_follows_the_lease(
    table: EffectTable,
    key: Seq<char>,
    now: i64,
    missing: Seq<char>,
    provider: Seq<char>,
    message_id: Seq<char>,
    observed_at: Seq<char>,
)
    requires
        is_sound(table),
        table.dom().contains(key),
        table[key].state == EffectState::Sending,
    ensures
        ({
            let expiry = table[key].lease_expires_at->0;
            let next = dispatch_next(
                DispatchOperationView::ReadStatus,
                provider,
                message_id,
                DispatchOutcomeView::Status(status_at(table, key, now, missing)),
                observed_at,
            );
            &&& expiry <= now ==> next == DispatchStepView::Perform(
                DispatchOperationView::BeginAgain,
            )
            &&& expiry >= now + 500 ==> (next matches DispatchStepView::Perform(
                DispatchOperationView::Sleep { .. },
            ))
        }),
{
    a_read_tells_the_state(table, key, now, missing);
}

/// The first visit of the dispatch is the `index`-th event of the history, for this identity.
pub open spec fn visits_first(
    moves: Seq<DispatchMove>,
    table: EffectTable,
    history: Seq<StorageEvent>,
    index: int,
    identity: DispatchIdentityView,
) -> bool {
    &&& moves.len() > 0
    &&& 0 <= index < history.len()
    &&& history[index] matches StorageEvent::Begin {
        identity: visitor,
        lease_ms,
        expired,
        circumstances,
    } && visitor == identity && moves[0].outcome == DispatchOutcomeView::Begun(
        begin(
            table_after(table, history.take(index)),
            identity,
            lease_ms,
            expired,
            circumstances,
        ).result,
    )
}

proof fn a_submitter_was_told_to_send(
    moves: Seq<DispatchMove>,
    provider: Seq<char>,
    message_id: Seq<char>,
    table: EffectTable,
    history: Seq<StorageEvent>,
    index: int,
    identity: DispatchIdentityView,
)
    requires
        is_course(moves, provider, message_id),
        visits_first(moves, table, history, index, identity),
        submits(moves),
    ensures
        sends_at(table, history, index, identity),
{
    let at = choose|i: int| 0 <= i < moves.len() && (#[trigger] moves[i]).operation is Submit;
    a_submission_follows_the_fence_and_the_credentials(moves, provider, message_id, at);
}

/// One message for one idempotency key: of all the dispatches that ever visit the fence with a
/// key, whatever they ask for and whatever happens in between, at most one submits a message.
pub proof fn a_key_is_submitted_at_most_once(
    table: EffectTable,
    history: Seq<StorageEvent>,
    first: Seq<DispatchMove>,
    first_visit: int,
    first_identity: DispatchIdentityView,
    first_provider: Seq<char>,
    first_message_id: Seq<char>,
    second: Seq<DispatchMove>,
    second_visit: int,
    second_identity: DispatchIdentityView,
    second_provider: Seq<char>,
    second_message_id: Seq<char>,
)
    requires
        is_course(first, first_provider, first_message_id),
        is_course(second, second_provider, second_message_id),
        visits_first(first, table, history, first_visit, first_identity),
        visits_first(second, table, history, second_visit, second_identity),
        first_visit != second_visit,
        first_identity.idempotency_key_hash == second_identity.idempotency_key_hash,
    ensures
        !(submits(first) && submits(second)),
{
    if submits(first) && submits(second) {
        a_submitter_was_told_to_send(
            first,
            first_provider,
            first_message_id,
            table,
            history,
            first_visit,
            first_identity,
        );
        a_submitter_was_told_to_send(
            second,
            second_provider,
            second_message_id,
            table,
            history,
            second_visit,
            second_identity,
        );
        if first_visit < second_visit {
            a_key_is_sent_at_most_once(
                table,
                history,
                first_visit,
                first_identity,
                second_visit,
                second_identity,
            );
        } else {
            a_key_is_sent_at_most_once(
                table,
                history,
                second_visit,
                second_identity,
                first_visit,
                first_identity,
            );
        }
    }
}

/// One message for one attempt: of all the dispatches that ever visit the fence for a delivery and
/// attempt, whatever their keys, at most one submits a message. The history starts with a table
/// that has no prepared row, such as the empty one.
pub proof fn an_attempt_is_submitted_at_most_once(
    table: EffectTable,
    history: Seq<StorageEvent>,
    first: Seq<DispatchMove>,
    first_visit: int,
    first_identity: DispatchIdentityView,
    first_provider: Seq<char>,
    first_message_id: Seq<char>,
    second: Seq<DispatchMove>,
    second_visit: int,
    second_identity: DispatchIdentityView,
    second_provider: Seq<char>,
    second_message_id: Seq<char>,
)
    requires
        has_none_prepared(table),
        is_course(first, first_provider, first_message_id),
        is_course(second, second_provider, second_message_id),
        visits_first(first, table, history, first_visit, first_identity),
        visits_first(second, table, history, second_visit, second_identity),
        first_visit != second_visit,
        first_identity.delivery_id_hash == second_identity.delivery_id_hash,
        first_identity.attempt_id_hash == second_identity.attempt_id_hash,
    ensures
        !(submits(first) && submits(second)),
{
    if submits(first) && submits(second) {
        a_submitter_was_told_to_send(
            first,
            first_provider,
            first_message_id,
            table,
            history,
            first_visit,
            first_identity,
        );
        a_submitter_was_told_to_send(
            second,
            second_provider,
            second_message_id,
            table,
            history,
            second_visit,
            second_identity,
        );
        if first_visit < second_visit {
            an_attempt_is_sent_at_most_once(
                table,
                history,
                first_visit,
                first_identity,
                second_visit,
                second_identity,
            );
        } else {
            an_attempt_is_sent_at_most_once(
                table,
                history,
                second_visit,
                second_identity,
                first_visit,
                first_identity,
            );
        }
    }
}

/// A key stands for one request: where the fence holds the row of `first`, a request known by the
/// same hash of its key that differs from it in any field is refused at the fence, when nothing
/// fails, and changes nothing, unless the two requests are a SHA-256 collision. The two keys are
/// themselves the same, unless their bytes are a collision.
pub proof fn a_key_stands_for_one_request(
    table: EffectTable,
    first: DispatchRequest,
    second: DispatchRequest,
    lease_ms: i64,
    expired: DispatchResponseView,
    circumstances: Circumstances,
    provider: Seq<char>,
    message_id: Seq<char>,
    observed_at: Seq<char>,
)
    requires
        is_sound(table),
        table.dom().contains(identity_of(first).idempotency_key_hash),
        holds_content_of(
            table[identity_of(first).idempotency_key_hash],
            identity_of(first),
        ),
        identity_of(first).idempotency_key_hash == identity_of(second).idempotency_key_hash,
        !same_request(first, second),
        framable(request_parts(first)),
        framable(request_parts(second)),
        is_smooth(circumstances),
    ensures
        ({
            let end = begin(table, identity_of(second), lease_ms, expired, circumstances);
            ||| is_collision(request_parts(first), request_parts(second))
            ||| {
                &&& end.table == table
                &&& dispatch_next(
                    DispatchOperationView::Begin,
                    provider,
                    message_id,
                    DispatchOutcomeView::Begun(end.result),
                    observed_at,
                ) == DispatchStepView::Finish(
                    Err(DispatchFailureView::Domain(DispatchError::InvalidDispatch)),
                )
            }
        }),
        first.idempotency_key@ == second.idempotency_key@ || is_identity_collision(
            first.idempotency_key@,
            second.idempotency_key@,
        ),
{
    equal_identities_mean_equal_identifiers_or_a_collision(
        first.idempotency_key@,
        second.idempotency_key@,
    );
    if digest_of(request_parts(first)) == digest_of(request_parts(second)) {
        the_fingerprint_covers_every_field(first, second);
    } else {
        other_content_is_a_conflict(
            table,
            Seq::empty(),
            identity_of(second),
            lease_ms,
            expired,
            circumstances,
        );
    }
}

/// The `index`-th event of the history is this finalization, and it gives `result`, where the row
/// is read back, if it is, after `point` events.
pub open spec fn finalizes_at(
    table: EffectTable,
    history: Seq<StorageEvent>,
    index: int,
    point: int,
    key: Seq<char>,
    fence: i64,
    response: DispatchResponseView,
    result: Result<DispatchResponseView, StorageErrorView>,
) -> bool {
    &&& 0 <= index < point
    &&& history[index] matches StorageEvent::Finalize {
        key: finalized_key,
        fence: held,
        response: offered,
        circumstances,
    } && finalized_key == key && held == fence && offered == response && result == finalize_result(
        table_after(table, history.take(index)),
        table_after(table, history.take(point)),
        key,
        fence,
        response,
        circumstances,
    )
}

/// What the move has from the storage is what the storage gives: its outcome is known after
/// `point` events of the history. Moves that do not go to the storage have any outcome.
pub open spec fn is_move_of_history(
    step: DispatchMove,
    table: EffectTable,
    history: Seq<StorageEvent>,
    point: int,
    identity: DispatchIdentityView,
) -> bool {
    let key = identity.idempotency_key_hash;
    &&& 0 <= point <= history.len()
    &&& match step.outcome {
        DispatchOutcomeView::Begun(result) => {
            &&& 0 < point
            &&& history[point - 1] matches StorageEvent::Begin {
                identity: visitor,
                lease_ms,
                expired,
                circumstances,
            } && visitor == identity && result == begin(
                table_after(table, history.take(point - 1)),
                identity,
                lease_ms,
                expired,
                circumstances,
            ).result
        },
        DispatchOutcomeView::Status(status) => exists|
            failure: Option<Seq<char>>,
            now: i64,
            missing: Seq<char>,
        |
            status == status_of(
                #[trigger] read_answer(
                    table_after(table, history.take(point)),
                    key,
                    failure,
                    now,
                    missing,
                ),
            ),
        DispatchOutcomeView::Finalized(result) => exists|index: int| #[trigger]
            finalizes_at(
                table,
                history,
                index,
                point,
                key,
                step.operation->Finalize_fence,
                step.operation->Finalize_response,
                result,
            ),
        _ => true,
    }
}

/// The dispatch of `identity` is part of the history: it starts with a visit to the fence, and all
/// that it has from the storage, the storage gave. The outcome of its `i`-th move is known after
/// `points[i]` events.
pub open spec fn takes_part(
    moves: Seq<DispatchMove>,
    points: Seq<int>,
    table: EffectTable,
    history: Seq<StorageEvent>,
    identity: DispatchIdentityView,
) -> bool {
    &&& moves.len() == points.len()
    &&& moves.len() > 0
    &&& visits_first(moves, table, history, points[0] - 1, identity)
    &&& forall|i: int|
        0 <= i < moves.len() ==> is_move_of_history(
            #[trigger] moves[i],
            table,
            history,
            points[i],
            identity,
        )
}

/// The last move of the dispatch ends it with this response.
pub open spec fn answers(
    moves: Seq<DispatchMove>,
    provider: Seq<char>,
    message_id: Seq<char>,
    response: DispatchResponseView,
) -> bool {
    &&& moves.len() > 0
    &&& dispatch_next(
        moves.last().operation,
        provider,
        message_id,
        moves.last().outcome,
        moves.last().observed_at,
    ) == DispatchStepView::Finish(Ok(response))
}

proof fn a_good_answer_is_told_by_the_storage(
    table: EffectTable,
    history: Seq<StorageEvent>,
    moves: Seq<DispatchMove>,
    points: Seq<int>,
    identity: DispatchIdentityView,
    provider: Seq<char>,
    message_id: Seq<char>,
    response: DispatchResponseView,
)
    requires
        is_course(moves, provider, message_id),
        takes_part(moves, points, table, history, identity),
        answers(moves, provider, message_id, response),
    ensures
        is_told(table, history, points.last(), identity.idempotency_key_hash, response),
{
    let key = identity.idempotency_key_hash;
    let last = moves[moves.len() - 1];
    let point = points[points.len() - 1];
    let reached = table_after(table, history.take(point));
    assert(outcome_suits(last.operation, last.outcome));
    assert(is_move_of_history(last, table, history, point, identity));
    match last.outcome {
        DispatchOutcomeView::Begun(_) => {
            assert(is_replayed(table, history, point, key, response));
        },
        DispatchOutcomeView::Status(status) => {
            let (failure, now, missing) = choose|
                failure: Option<Seq<char>>,
                now: i64,
                missing: Seq<char>,
            |
                status == status_of(#[trigger] read_answer(reached, key, failure, now, missing));
            assert(failure is None);
            assert(status_at(reached, key, now, missing) == status);
        },
        DispatchOutcomeView::Finalized(result) => {
            let index = choose|index: int| #[trigger]
                finalizes_at(
                    table,
                    history,
                    index,
                    point,
                    key,
                    last.operation->Finalize_fence,
                    last.operation->Finalize_response,
                    result,
                );
            assert(is_finalization_answer(table, history, index, point, key, response));
        },
        _ => {},
    }
}

/// A good answer is the stored end: the response with which a dispatch ends, whether it has sent
/// the message, has waited or only asked again, is how the table has its effect ended by then.
pub proof fn a_good_answer_is_the_stored_end(
    table: EffectTable,
    history: Seq<StorageEvent>,
    moves: Seq<DispatchMove>,
    points: Seq<int>,
    identity: DispatchIdentityView,
    provider: Seq<char>,
    message_id: Seq<char>,
    response: DispatchResponseView,
)
    requires
        is_sound(table),
        forall|i: int| 0 <= i < history.len() ==> closes_as_unknown(#[trigger] history[i]),
        is_course(moves, provider, message_id),
        takes_part(moves, points, table, history, identity),
        answers(moves, provider, message_id, response),
    ensures
        is_ended_with(
            table_after(table, history.take(points.last())),
            identity.idempotency_key_hash,
            response,
        ),
{
    a_good_answer_is_told_by_the_storage(
        table,
        history,
        moves,
        points,
        identity,
        provider,
        message_id,
        response,
    );
    what_is_told_is_the_end(
        table,
        history,
        points.last(),
        identity.idempotency_key_hash,
        response,
    );
}

/// All good answers for a key agree: of all the dispatches that ever come with one key, whatever
/// happens between them, those that end with a response end with the same one, and it is the one
/// that the table holds.
pub proof fn all_good_answers_for_a_key_agree(
    table: EffectTable,
    history: Seq<StorageEvent>,
    first: Seq<DispatchMove>,
    first_points: Seq<int>,
    first_identity: DispatchIdentityView,
    first_provider: Seq<char>,
    first_message_id: Seq<char>,
    first_response: DispatchResponseView,
    second: Seq<DispatchMove>,
    second_points: Seq<int>,
    second_identity: DispatchIdentityView,
    second_provider: Seq<char>,
    second_message_id: Seq<char>,
    second_response: DispatchResponseView,
)
    requires
        is_sound(table),
        forall|i: int| 0 <= i < history.len() ==> closes_as_unknown(#[trigger] history[i]),
        is_course(first, first_provider, first_message_id),
        is_course(second, second_provider, second_message_id),
        takes_part(first, first_points, table, history, first_identity),
        takes_part(second, second_points, table, history, second_identity),
        first_identity.idempotency_key_hash == second_identity.idempotency_key_hash,
        answers(first, first_provider, first_message_id, first_response),
        answers(second, second_provider, second_message_id, second_response),
    ensures
        is_ended_with(
            table_after(table, history.take(first_points.last())),
            first_identity.idempotency_key_hash,
            first_response,
        ),
        is_ended_with(
            table_after(table, history.take(second_points.last())),
            second_identity.idempotency_key_hash,
            second_response,
        ),
        first_response == second_response,
{
    let key = first_identity.idempotency_key_hash;
    a_good_answer_is_told_by_the_storage(
        table,
        history,
        first,
        first_points,
        first_identity,
        first_provider,
        first_message_id,
        first_response,
    );
    a_good_answer_is_told_by_the_storage(
        table,
        history,
        second,
        second_points,
        second_identity,
        second_provider,
        second_message_id,
        second_response,
    );
    what_is_told_is_the_end(table, history, first_points.last(), key, first_response);
    what_is_told_is_the_end(table, history, second_points.last(), key, second_response);
    if first_points.last() <= second_points.last() {
        everyone_is_told_the_same(
            table,
            history,
            key,
            first_points.last(),
            first_response,
            second_points.last(),
            second_response,
        );
    } else {
        everyone_is_told_the_same(
            table,
            history,
            key,
            second_points.last(),
            second_response,
            first_points.last(),
            first_response,
        );
    }
}

/// Every end is told as it is: a response that the storage gives, by a replay, as the end that a
/// waiting caller reads or as the answer to a finalization, ends the dispatch with that response,
/// whatever its outcome and whatever was offered.
pub proof fn every_end_is_told_as_it_is(
    response: DispatchResponseView,
    offered: DispatchResponseView,
    fence: i64,
    provider: Seq<char>,
    message_id: Seq<char>,
    observed_at: Seq<char>,
)
    ensures
        ({
            let ends = |operation: DispatchOperationView, outcome: DispatchOutcomeView|
                dispatch_next(operation, provider, message_id, outcome, observed_at)
                    == DispatchStepView::Finish(Ok(response));
            &&& ends(
                DispatchOperationView::Finalize { fence, response: offered },
                DispatchOutcomeView::Finalized(Ok(response)),
            )
            &&& ends(
                DispatchOperationView::Begin,
                DispatchOutcomeView::Begun(Ok(BeginDispatchView::Replay(response))),
            )
            &&& ends(
                DispatchOperationView::BeginAgain,
                DispatchOutcomeView::Begun(Ok(BeginDispatchView::Replay(response))),
            )
            &&& ends(
                DispatchOperationView::ReadStatus,
                DispatchOutcomeView::Status(Ok(EffectStatusView::Final(response))),
            )
        }),
{
}

/// A dispatch ends with a response only when the storage has given that response: no other outcome
/// of any operation ends it so.
pub proof fn a_dispatch_answers_only_what_the_storage_gave(
    operation: DispatchOperationView,
    outcome: DispatchOutcomeView,
    response: DispatchResponseView,
    provider: Seq<char>,
    message_id: Seq<char>,
    observed_at: Seq<char>,
)
    requires
        outcome_suits(operation, outcome),
        dispatch_next(operation, provider, message_id, outcome, observed_at)
            == DispatchStepView::Finish(Ok(response)),
    ensures
        outcome == DispatchOutcomeView::Finalized(Ok(response)) || outcome
            == DispatchOutcomeView::Begun(Ok(BeginDispatchView::Replay(response))) || outcome
            == DispatchOutcomeView::Status(Ok(EffectStatusView::Final(response))),
{
}

/// A failure of the plugin ends the dispatch with that failure, whichever operation it comes from.
pub proof fn every_failure_is_told_as_it_is(
    failure: RuntimeFailureView,
    offered: DispatchResponseView,
    fence: i64,
    provider: Seq<char>,
    message_id: Seq<char>,
    observed_at: Seq<char>,
)
    ensures
        ({
            let error = StorageErrorView::Runtime(failure);
            let ends = |operation: DispatchOperationView, outcome: DispatchOutcomeView|
                dispatch_next(operation, provider, message_id, outcome, observed_at)
                    == DispatchStepView::Finish(Err(DispatchFailureView::Runtime(failure)));
            &&& ends(DispatchOperationView::Begin, DispatchOutcomeView::Begun(Err(error)))
            &&& ends(DispatchOperationView::BeginAgain, DispatchOutcomeView::Begun(Err(error)))
            &&& ends(DispatchOperationView::ReadStatus, DispatchOutcomeView::Status(Err(error)))
            &&& ends(
                DispatchOperationView::Finalize { fence, response: offered },
                DispatchOutcomeView::Finalized(Err(error)),
            )
        }),
{
}

/// A conflict refuses the dispatch at its first visit to the fence. After that visit it cannot be
/// the caller's fault any more, and is a failure of the plugin.
pub proof fn a_conflict_refuses_the_first_visit_alone(
    offered: DispatchResponseView,
    fence: i64,
    provider: Seq<char>,
    message_id: Seq<char>,
    observed_at: Seq<char>,
)
    ensures
        ({
            let next = |operation: DispatchOperationView, outcome: DispatchOutcomeView|
                dispatch_next(operation, provider, message_id, outcome, observed_at);
            let conflict = StorageErrorView::Conflict;
            let escaped = DispatchStepView::Finish(
                Err(
                    DispatchFailureView::Runtime(
                        RuntimeFailureView::PluginFailure {
                            detail: "SMTP dispatch identity conflict escaped domain mapping"@,
                        },
                    ),
                ),
            );
            &&& next(DispatchOperationView::Begin, DispatchOutcomeView::Begun(Err(conflict)))
                == DispatchStepView::Finish(
                Err(DispatchFailureView::Domain(DispatchError::InvalidDispatch)),
            )
            &&& next(DispatchOperationView::BeginAgain, DispatchOutcomeView::Begun(Err(conflict)))
                == escaped
            &&& next(DispatchOperationView::ReadStatus, DispatchOutcomeView::Status(Err(conflict)))
                == escaped
            &&& next(
                DispatchOperationView::Finalize { fence, response: offered },
                DispatchOutcomeView::Finalized(Err(conflict)),
            ) == escaped
        }),
{
}

/// The sender keeps its fence all the way: it is told to send under a fence, fetches its
/// credentials, submits and finalizes under that fence, and under no other.
pub proof fn a_sender_keeps_its_fence(
    fence: i64,
    username: bool,
    password: bool,
    outcome: SendOutcome,
    provider: Seq<char>,
    message_id: Seq<char>,
    observed_at: Seq<char>,
)
    ensures
        ({
            let next = |operation: DispatchOperationView, outcome: DispatchOutcomeView|
                dispatch_next(operation, provider, message_id, outcome, observed_at);
            &&& next(
                DispatchOperationView::Begin,
                DispatchOutcomeView::Begun(Ok(BeginDispatchView::Send { fence })),
            ) == DispatchStepView::Perform(DispatchOperationView::ResolveCredentials { fence })
            &&& next(
                DispatchOperationView::ResolveCredentials { fence },
                DispatchOutcomeView::Credentials { username: true, password: true },
            ) == DispatchStepView::Perform(DispatchOperationView::Submit { fence })
            &&& !username || !password ==> (next(
                DispatchOperationView::ResolveCredentials { fence },
                DispatchOutcomeView::Credentials { username, password },
            ) matches DispatchStepView::Perform(
                DispatchOperationView::Finalize { fence: kept, response },
            ) && kept == fence)
            &&& next(
                DispatchOperationView::Submit { fence },
                DispatchOutcomeView::Submitted(outcome),
            ) matches DispatchStepView::Perform(
                DispatchOperationView::Finalize { fence: kept, response },
            ) && kept == fence && response.provider == provider && response.observed_at
                == observed_at
        }),
{
}

/// Without both credentials the effect ends as a temporary failure that may be tried again after a
/// minute, whichever is missing.
pub proof fn missing_credentials_may_be_tried_again_after_a_minute(
    fence: i64,
    username: bool,
    password: bool,
    provider: Seq<char>,
    message_id: Seq<char>,
    observed_at: Seq<char>,
)
    requires
        !username || !password,
    ensures
        dispatch_next(
            DispatchOperationView::ResolveCredentials { fence },
            provider,
            message_id,
            DispatchOutcomeView::Credentials { username, password },
            observed_at,
        ) matches DispatchStepView::Perform(
            DispatchOperationView::Finalize { fence: kept, response },
        ) && kept == fence && response.outcome == DispatchResponseOutcome::TemporaryFailure
            && response.provider == provider && response.observed_at == observed_at
            && response.remote_receipt is None && (response.failure matches Some(failure)
            && failure.classification == "temporary_failure"@ && failure.code
            == "smtp_credentials_unavailable"@ && failure.retry_after_ms == Some(60_000i64)),
{
}

/// A waiting caller looks at the effect, again after each wait; while the lease has time left it
/// waits for what is left of it, but never more than fifty milliseconds, and once it has none it
/// visits the fence again.
pub proof fn a_waiting_caller_waits_for_the_lease(
    remaining_ms: i64,
    milliseconds: u64,
    provider: Seq<char>,
    message_id: Seq<char>,
    observed_at: Seq<char>,
)
    ensures
        ({
            let next = |operation: DispatchOperationView, outcome: DispatchOutcomeView|
                dispatch_next(operation, provider, message_id, outcome, observed_at);
            let in_flight = DispatchOutcomeView::Begun(
                Ok(BeginDispatchView::InFlight { remaining_ms }),
            );
            let look = DispatchStepView::Perform(DispatchOperationView::ReadStatus);
            let after_look = next(
                DispatchOperationView::ReadStatus,
                DispatchOutcomeView::Status(Ok(EffectStatusView::InFlight { remaining_ms })),
            );
            &&& next(DispatchOperationView::Begin, in_flight) == look
            &&& next(DispatchOperationView::BeginAgain, in_flight) == look
            &&& next(DispatchOperationView::Sleep { milliseconds }, DispatchOutcomeView::Slept)
                == look
            &&& remaining_ms <= 0 ==> after_look == DispatchStepView::Perform(
                DispatchOperationView::BeginAgain,
            )
            &&& remaining_ms > 0 ==> (after_look matches DispatchStepView::Perform(
                DispatchOperationView::Sleep { milliseconds: wait },
            ) && wait <= remaining_ms && wait <= 50 && (wait == remaining_ms || wait == 50))
        }),
{
}

/// A caller that has waited never sends: a fence that opens for it again is a failure of the
/// plugin.
pub proof fn a_reopened_fence_is_a_failure(
    fence: i64,
    provider: Seq<char>,
    message_id: Seq<char>,
    observed_at: Seq<char>,
)
    ensures
        dispatch_next(
            DispatchOperationView::BeginAgain,
            provider,
            message_id,
            DispatchOutcomeView::Begun(Ok(BeginDispatchView::Send { fence })),
            observed_at,
        ) == DispatchStepView::Finish(
            Err(
                DispatchFailureView::Runtime(
                    RuntimeFailureView::PluginFailure {
                        detail: "SMTP dispatch fence unexpectedly reopened"@,
                    },
                ),
            ),
        ),
{
}

/// The time matters for new responses alone: two steps that differ in the time only, and that do
/// not make a response, are the same, and so are two that differ in the message only, unless the
/// submission has ended.
pub proof fn only_new_responses_depend_on_the_time(
    operation: DispatchOperationView,
    outcome: DispatchOutcomeView,
    provider: Seq<char>,
    left_id: Seq<char>,
    left_time: Seq<char>,
    right_id: Seq<char>,
    right_time: Seq<char>,
)
    requires
        outcome_suits(operation, outcome),
        !(operation is Submit),
        left_time == right_time || !(operation is ResolveCredentials),
    ensures
        dispatch_next(operation, provider, left_id, outcome, left_time) == dispatch_next(
            operation,
            provider,
            right_id,
            outcome,
            right_time,
        ),
{
}

/// Each operation has the outcomes of its own kind, and no others.
pub proof fn each_operation_has_its_own_outcomes(
    operation: DispatchOperationView,
    outcome: DispatchOutcomeView,
)
    ensures
        outcome_suits(operation, outcome) <==> match operation {
            DispatchOperationView::Begin => outcome is Begun,
            DispatchOperationView::BeginAgain => outcome is Begun,
            DispatchOperationView::ReadStatus => outcome is Status,
            DispatchOperationView::Sleep { .. } => outcome is Slept,
            DispatchOperationView::ResolveCredentials { .. } => outcome is Credentials,
            DispatchOperationView::Submit { .. } => outcome is Submitted,
            DispatchOperationView::Finalize { .. } => outcome is Finalized,
        },
{
}

/// A request is let through exactly when the caller is allowed, the request is in order and the
/// plugin is active. A caller that is not allowed learns nothing of the request or the plugin, and
/// a request that is not in order is refused for that, whether the plugin is active or not.
pub proof fn a_request_is_refused_for_the_first_reason(
    allowed: bool,
    verdict: Result<(), PrepareError>,
    active: bool,
)
    ensures
        refusal(allowed, verdict, active) is None <==> allowed && verdict is Ok && active,
        !allowed || verdict == Err::<(), PrepareError>(PrepareError::Invalid) ==> refusal(
            allowed,
            verdict,
            active,
        ) == Some(DispatchFailureView::Domain(DispatchError::InvalidDispatch)),
        allowed && verdict == Err::<(), PrepareError>(PrepareError::Unsupported) ==> refusal(
            allowed,
            verdict,
            active,
        ) == Some(DispatchFailureView::Domain(DispatchError::UnsupportedMessage)),
        allowed && verdict is Ok && !active ==> refusal(allowed, verdict, active) == Some(
            DispatchFailureView::Runtime(
                RuntimeFailureView::PluginFailure { detail: "SMTP Plugin is not active"@ },
            ),
        ),
{
}

/// The fence knows a request by the hashes of its key, its delivery and its attempt, each in its
/// own place, by the digest of all its fields, and by its content digest as it is; and a prepared
/// request by the hashes that came with it.
pub proof fn a_request_is_known_by_its_own_hashes(
    request: DispatchRequest,
    prepared: PreparedDispatch,
)
    ensures
        ({
            let identity = identity_of(request);
            &&& identity.idempotency_key_hash == identity_digest_of(request.idempotency_key@)
            &&& identity.delivery_id_hash == identity_digest_of(request.delivery_id@)
            &&& identity.attempt_id_hash == identity_digest_of(request.attempt_id@)
            &&& identity.request_fingerprint == digest_of(request_parts(request))
            &&& identity.content_digest == request.message.content_digest@
        }),
        ({
            let identity = prepared_identity(prepared, request);
            &&& identity.idempotency_key_hash == prepared.idempotency_key_hash@
            &&& identity.delivery_id_hash == prepared.delivery_id_hash@
            &&& identity.attempt_id_hash == prepared.attempt_id_hash@
            &&& identity.request_fingerprint == prepared.request_fingerprint@
            &&& identity.content_digest == request.message.content_digest@
        }),
{
}

/// What is stated of a dispatch is stated of its operations as they are, of what came of them, and
/// of what follows.
pub proof fn a_dispatch_shows_everything(
    operation: DispatchOperation,
    outcome: DispatchOutcome,
    step: DispatchStep,
    failure: DispatchFailure,
)
    ensures
        operation@ == match operation {
            DispatchOperation::Begin => DispatchOperationView::Begin,
            DispatchOperation::ReadStatus => DispatchOperationView::ReadStatus,
            DispatchOperation::Sleep { milliseconds } => (DispatchOperationView::Sleep {
                milliseconds,
            }),
            DispatchOperation::BeginAgain => DispatchOperationView::BeginAgain,
            DispatchOperation::ResolveCredentials { fence } => (
            DispatchOperationView::ResolveCredentials { fence }),
            DispatchOperation::Submit { fence } => (DispatchOperationView::Submit { fence }),
            DispatchOperation::Finalize { fence, response } => (DispatchOperationView::Finalize {
                fence,
                response: response@,
            }),
        },
        outcome@ == match outcome {
            DispatchOutcome::Begun(Ok(begun)) => DispatchOutcomeView::Begun(Ok(begun@)),
            DispatchOutcome::Begun(Err(error)) => DispatchOutcomeView::Begun(Err(error@)),
            DispatchOutcome::Status(Ok(status)) => DispatchOutcomeView::Status(Ok(status@)),
            DispatchOutcome::Status(Err(error)) => DispatchOutcomeView::Status(Err(error@)),
            DispatchOutcome::Slept => DispatchOutcomeView::Slept,
            DispatchOutcome::Credentials { username, password } => (
            DispatchOutcomeView::Credentials { username, password }),
            DispatchOutcome::Submitted(outcome) => DispatchOutcomeView::Submitted(outcome),
            DispatchOutcome::Finalized(Ok(response)) => DispatchOutcomeView::Finalized(
                Ok(response@),
            ),
            DispatchOutcome::Finalized(Err(error)) => DispatchOutcomeView::Finalized(Err(error@)),
        },
        step@ == match step {
            DispatchStep::Perform(operation) => DispatchStepView::Perform(operation@),
            DispatchStep::Finish(Ok(response)) => DispatchStepView::Finish(Ok(response@)),
            DispatchStep::Finish(Err(failure)) => DispatchStepView::Finish(Err(failure@)),
        },
        failure@ == match failure {
            DispatchFailure::Domain(error) => DispatchFailureView::Domain(error),
            DispatchFailure::Runtime(failure) => DispatchFailureView::Runtime(failure@),
        },
{
}

/// A sender that nobody disturbs is answered with what it saw: on a new attempt, with both
/// credentials and without failures of the storage, its message is submitted once, and the dispatch
/// ends with the response that what came of the submission calls for, which the table then holds.
pub proof fn an_undisturbed_sender_is_answered_with_what_it_saw(
    table: EffectTable,
    identity: DispatchIdentityView,
    lease_ms: i64,
    expired: DispatchResponseView,
    circumstances: Circumstances,
    finalize_circumstances: FinalizeCircumstances,
    seen: EffectTable,
    outcome: SendOutcome,
    provider: Seq<char>,
    message_id: Seq<char>,
    observed_at: Seq<char>,
)
    requires
        is_sound(table),
        !table.dom().contains(identity.idempotency_key_hash),
        !attempt_is_taken(table, identity.delivery_id_hash, identity.attempt_id_hash),
        is_smooth(circumstances),
        lease_fits(circumstances, lease_ms, 0),
        finalize_circumstances.encode_failure is None,
        finalize_circumstances.failure is None,
    ensures
        ({
            let key = identity.idempotency_key_hash;
            let end = begin(table, identity, lease_ms, expired, circumstances);
            let next = |operation: DispatchOperationView, outcome: DispatchOutcomeView|
                dispatch_next(operation, provider, message_id, outcome, observed_at);
            let begun = next(DispatchOperationView::Begin, DispatchOutcomeView::Begun(end.result));
            let resolved = next(
                begun->Perform_0,
                DispatchOutcomeView::Credentials { username: true, password: true },
            );
            let submitted = next(resolved->Perform_0, DispatchOutcomeView::Submitted(outcome));
            let fence = submitted->Perform_0->Finalize_fence;
            let response = submitted->Perform_0->Finalize_response;
            let given = finalize_result(
                end.table,
                seen,
                key,
                fence,
                response,
                finalize_circumstances,
            );
            let closed = finalized(end.table, key, fence, response, finalize_circumstances);
            &&& begun matches DispatchStepView::Perform(
                DispatchOperationView::ResolveCredentials { .. },
            )
            &&& resolved matches DispatchStepView::Perform(DispatchOperationView::Submit { .. })
            &&& submitted matches DispatchStepView::Perform(
                DispatchOperationView::Finalize { .. },
            )
            &&& response == send_view(provider, message_id, outcome, observed_at)
            &&& next(submitted->Perform_0, DispatchOutcomeView::Finalized(given))
                == DispatchStepView::Finish(Ok(response))
            &&& is_ended_with(closed, key, response)
        }),
{
    a_smooth_visit_does_what_the_row_calls_for(
        table,
        identity,
        lease_ms,
        expired,
        circumstances,
    );
}

/// An effect whose lease has run out is closed as unknown, and never invites a retry, whatever the
/// configuration.
pub proof fn an_expired_effect_is_reported_as_unknown(config: SmtpConfig, observed_at: Seq<char>)
    ensures
        ({
            let response = expired_view(config, observed_at);
            &&& response.outcome == DispatchResponseOutcome::DeliveryUnknown
            &&& response.provider == config.provider@
            &&& response.observed_at == observed_at
            &&& response.remote_receipt is None
            &&& response.failure matches Some(failure) && failure.classification
                == "delivery_unknown"@ && failure.code == "smtp_effect_lease_expired"@
                && failure.retry_after_ms is None
        }),
{
}

/// The caller is known by its name as it is, or by none, and a request that was not prepared is
/// refused for the reason for which it was not.
pub proof fn callers_and_errors_are_taken_as_they_are(
    caller: &str,
    prepared: PreparedDispatch,
    error: PrepareError,
)
    ensures
        caller_view(Some(caller)) == Some(caller@),
        caller_view(None) is None,
        preparation(Ok(prepared)) is Ok,
        preparation(Err(error)) == Err::<(), PrepareError>(error),
{
}

} // verus!
