//! The effect fence: who may submit a message, and what everyone else is told.
//!
//! The decisions are made here, one database operation at a time. A driver performs the operation
//! that it is asked for, reports the outcome, and is told what to do next.
use vstd::prelude::*;
use vstd::string::*;

use crate::email::{DispatchResponse, DispatchResponseOutcome, DispatchResponseView};
use crate::failure::{RuntimeFailure, RuntimeFailureView};
use crate::response::{classification_of, outcome_name};
use crate::text::same_text;

verus! {

/// Creates the row of a dispatch, unless its key or its attempt has one: `$1` to `$5` are the five
/// digests of the identity.
pub const INSERT_EFFECT: &'static str =
    "INSERT INTO smtp_dispatch_effects(idempotency_key_hash,delivery_id_hash,attempt_id_hash,request_fingerprint,content_digest,state) VALUES($1,$2,$3,$4,$5,'prepared') ON CONFLICT DO NOTHING";

/// Reads and locks the row of the key `$1`.
pub const LOCK_EFFECT: &'static str =
    "SELECT request_fingerprint,content_digest,state,fence,lease_expires_at,response,clock_timestamp() AS database_now FROM smtp_dispatch_effects WHERE idempotency_key_hash=$1 FOR UPDATE";

/// Asks whether the attempt `$2` of the delivery `$1` has a row.
pub const FIND_ATTEMPT: &'static str =
    "SELECT EXISTS(SELECT 1 FROM smtp_dispatch_effects WHERE delivery_id_hash=$1 AND attempt_id_hash=$2)";

/// Moves the row of the key `$1` from `prepared` and the fence `$4` to `sending` and the fence
/// `$2`, with a lease of `$3` milliseconds.
pub const CLAIM_EFFECT: &'static str =
    "UPDATE smtp_dispatch_effects SET state='sending',fence=$2,effect_started_at=clock_timestamp(),lease_expires_at=clock_timestamp()+($3 * interval '1 millisecond'),updated_at=clock_timestamp() WHERE idempotency_key_hash=$1 AND state='prepared' AND fence=$4";

/// Closes the row of the key `$1`, whose lease has run out, with the response `$2`.
pub const CLOSE_EXPIRED_EFFECT: &'static str =
    "UPDATE smtp_dispatch_effects SET state='delivery_unknown',response=$2,lease_expires_at=NULL,updated_at=clock_timestamp() WHERE idempotency_key_hash=$1 AND state='sending' AND lease_expires_at<=clock_timestamp()";

/// Reads the row of the key `$1`, with the milliseconds that its lease still has.
pub const READ_EFFECT: &'static str =
    "SELECT state,response,GREATEST(0,(EXTRACT(EPOCH FROM (lease_expires_at-clock_timestamp()))*1000)::bigint) AS remaining_ms FROM smtp_dispatch_effects WHERE idempotency_key_hash=$1";

/// Closes the row of the key `$1` with the state `$3` and the response `$4`, where it is still
/// `sending` with the fence `$2`.
pub const FINALIZE_EFFECT: &'static str =
    "UPDATE smtp_dispatch_effects SET state=$3,response=$4,lease_expires_at=NULL,updated_at=transaction_timestamp() WHERE idempotency_key_hash=$1 AND state='sending' AND fence=$2";

/// The digests by which a dispatch is known.
#[derive(Clone, Debug)]
pub struct DispatchIdentity {
    pub idempotency_key_hash: String,
    pub delivery_id_hash: String,
    pub attempt_id_hash: String,
    pub request_fingerprint: String,
    pub content_digest: String,
}

#[verifier::ext_equal]
pub struct DispatchIdentityView {
    pub idempotency_key_hash: Seq<char>,
    pub delivery_id_hash: Seq<char>,
    pub attempt_id_hash: Seq<char>,
    pub request_fingerprint: Seq<char>,
    pub content_digest: Seq<char>,
}

impl View for DispatchIdentity {
    type V = DispatchIdentityView;

    open spec fn view(&self) -> DispatchIdentityView {
        DispatchIdentityView {
            idempotency_key_hash: self.idempotency_key_hash@,
            delivery_id_hash: self.delivery_id_hash@,
            attempt_id_hash: self.attempt_id_hash@,
            request_fingerprint: self.request_fingerprint@,
            content_digest: self.content_digest@,
        }
    }
}

/// What a caller gets at the fence.
#[derive(Clone, Debug, PartialEq, Eq)]
pub enum BeginDispatch {
    /// The caller, and nobody else, submits the message and finalizes with this fence.
    Send { fence: i64 },
    /// The dispatch has ended with this response.
    Replay(DispatchResponse),
    /// Another caller is submitting the message.
    InFlight { remaining_ms: i64 },
}

#[verifier::ext_equal]
pub enum BeginDispatchView {
    Send { fence: i64 },
    Replay(DispatchResponseView),
    InFlight { remaining_ms: i64 },
}

impl View for BeginDispatch {
    type V = BeginDispatchView;

    open spec fn view(&self) -> BeginDispatchView {
        match self {
            BeginDispatch::Send { fence } => BeginDispatchView::Send { fence: *fence },
            BeginDispatch::Replay(response) => BeginDispatchView::Replay(response@),
            BeginDispatch::InFlight { remaining_ms } => BeginDispatchView::InFlight {
                remaining_ms: *remaining_ms,
            },
        }
    }
}

/// How far an effect has come.
#[derive(Clone, Debug, PartialEq, Eq)]
pub enum EffectStatus {
    Final(DispatchResponse),
    InFlight { remaining_ms: i64 },
}

#[verifier::ext_equal]
pub enum EffectStatusView {
    Final(DispatchResponseView),
    InFlight { remaining_ms: i64 },
}

impl View for EffectStatus {
    type V = EffectStatusView;

    open spec fn view(&self) -> EffectStatusView {
        match self {
            EffectStatus::Final(response) => EffectStatusView::Final(response@),
            EffectStatus::InFlight { remaining_ms } => EffectStatusView::InFlight {
                remaining_ms: *remaining_ms,
            },
        }
    }
}

#[derive(Debug, PartialEq, Eq)]
pub enum StorageError {
    /// The identity conflicts with that of an existing effect fence.
    Conflict,
    Runtime(RuntimeFailure),
}

#[verifier::ext_equal]
pub enum StorageErrorView {
    Conflict,
    Runtime(RuntimeFailureView),
}

impl View for StorageError {
    type V = StorageErrorView;

    open spec fn view(&self) -> StorageErrorView {
        match self {
            StorageError::Conflict => StorageErrorView::Conflict,
            StorageError::Runtime(failure) => StorageErrorView::Runtime(failure@),
        }
    }
}

/// The storage could not do `task`, because of `error`.
pub open spec fn storage_failure(task: Seq<char>, error: Seq<char>) -> StorageErrorView {
    StorageErrorView::Runtime(
        RuntimeFailureView::PluginFailure {
            detail: "SMTP effect storage failed to "@ + task + ": "@ + error,
        },
    )
}

/// The failure to do `task`, because of `error`.
pub fn runtime(task: &str, error: &str) -> (failure: StorageError)
    ensures
        failure@ == storage_failure(task@, error@),
{
    let mut detail = String::from_str("SMTP effect storage failed to ");
    detail.append(task);
    detail.append(": ");
    detail.append(error);
    StorageError::Runtime(RuntimeFailure::PluginFailure { detail })
}

/// A storage error as the kernel is told of it.
pub open spec fn storage_runtime_view(error: StorageErrorView) -> RuntimeFailureView {
    match error {
        StorageErrorView::Conflict => RuntimeFailureView::PluginFailure {
            detail: "SMTP dispatch identity conflict escaped domain mapping"@,
        },
        StorageErrorView::Runtime(failure) => failure,
    }
}

/// Turns a storage error into a failure of the plugin.
pub fn storage_runtime(error: StorageError) -> (failure: RuntimeFailure)
    ensures
        failure@ == storage_runtime_view(error@),
{
    match error {
        StorageError::Conflict => RuntimeFailure::PluginFailure {
            detail: String::from_str("SMTP dispatch identity conflict escaped domain mapping"),
        },
        StorageError::Runtime(failure) => failure,
    }
}

/// The state of an effect.
#[derive(Clone, Copy, Debug, PartialEq, Eq, Structural)]
pub enum EffectState {
    /// The row exists, and nobody submits the message yet.
    Prepared,
    /// One caller submits the message.
    Sending,
    /// The effect has ended, and will not be tried again.
    Ended(DispatchResponseOutcome),
}

/// How the table writes a state.
pub open spec fn state_text(state: EffectState) -> Seq<char> {
    match state {
        EffectState::Prepared => "prepared"@,
        EffectState::Sending => "sending"@,
        EffectState::Ended(outcome) => classification_of(outcome),
    }
}

/// The state that `text` stands for.
pub open spec fn state_of(text: Seq<char>) -> Option<EffectState> {
    if text == "prepared"@ {
        Some(EffectState::Prepared)
    } else if text == "sending"@ {
        Some(EffectState::Sending)
    } else if text == "accepted"@ {
        Some(EffectState::Ended(DispatchResponseOutcome::Accepted))
    } else if text == "temporary_failure"@ {
        Some(EffectState::Ended(DispatchResponseOutcome::TemporaryFailure))
    } else if text == "permanent_failure"@ {
        Some(EffectState::Ended(DispatchResponseOutcome::PermanentFailure))
    } else if text == "delivery_unknown"@ {
        Some(EffectState::Ended(DispatchResponseOutcome::DeliveryUnknown))
    } else {
        None
    }
}

/// Reads a state as the table writes it.
pub fn parse_state(text: &str) -> (state: Option<EffectState>)
    ensures
        state == state_of(text@),
{
    if same_text(text, "prepared") {
        Some(EffectState::Prepared)
    } else if same_text(text, "sending") {
        Some(EffectState::Sending)
    } else if same_text(text, "accepted") {
        Some(EffectState::Ended(DispatchResponseOutcome::Accepted))
    } else if same_text(text, "temporary_failure") {
        Some(EffectState::Ended(DispatchResponseOutcome::TemporaryFailure))
    } else if same_text(text, "permanent_failure") {
        Some(EffectState::Ended(DispatchResponseOutcome::PermanentFailure))
    } else if same_text(text, "delivery_unknown") {
        Some(EffectState::Ended(DispatchResponseOutcome::DeliveryUnknown))
    } else {
        None
    }
}

/// A state is read back as it was written.
pub proof fn states_are_read_back(state: EffectState)
    ensures
        state_of(state_text(state)) == Some(state),
{
    reveal_strlit("prepared");
    reveal_strlit("sending");
    reveal_strlit("accepted");
    reveal_strlit("temporary_failure");
    reveal_strlit("permanent_failure");
    reveal_strlit("delivery_unknown");
    let prepared = "prepared"@;
    let sending = "sending"@;
    let accepted = "accepted"@;
    let temporary = "temporary_failure"@;
    let permanent = "permanent_failure"@;
    let unknown = "delivery_unknown"@;
    assert(prepared.len() == 8 && sending.len() == 7 && accepted.len() == 8);
    assert(temporary.len() == 17 && permanent.len() == 17 && unknown.len() == 16);
    assert(prepared[0] != accepted[0]);
    assert(temporary[0] != permanent[0]);
    match state {
        EffectState::Ended(outcome) => match outcome {
            DispatchResponseOutcome::Accepted => {},
            DispatchResponseOutcome::TemporaryFailure => {},
            DispatchResponseOutcome::PermanentFailure => {},
            DispatchResponseOutcome::DeliveryUnknown => {},
        },
        _ => {},
    }
}

/// What a stored response was read as.
pub enum StoredResponse {
    /// The column could not be read.
    Unreadable(String),
    /// The column was read, and does not hold a response.
    Undecodable(String),
    Response(DispatchResponse),
}

#[verifier::ext_equal]
pub enum StoredResponseView {
    Unreadable(Seq<char>),
    Undecodable(Seq<char>),
    Response(DispatchResponseView),
}

impl View for StoredResponse {
    type V = StoredResponseView;

    open spec fn view(&self) -> StoredResponseView {
        match self {
            StoredResponse::Unreadable(error) => StoredResponseView::Unreadable(error@),
            StoredResponse::Undecodable(error) => StoredResponseView::Undecodable(error@),
            StoredResponse::Response(response) => StoredResponseView::Response(response@),
        }
    }
}

pub open spec fn text_result(result: Result<String, String>) -> Result<Seq<char>, Seq<char>> {
    match result {
        Ok(text) => Ok(text@),
        Err(error) => Err(error@),
    }
}

pub open spec fn number_result(result: Result<i64, String>) -> Result<i64, Seq<char>> {
    match result {
        Ok(number) => Ok(number),
        Err(error) => Err(error@),
    }
}

/// A locked row, each column as it was read. Times are microseconds since 1970.
pub struct FenceRow {
    pub request_fingerprint: Result<String, String>,
    pub content_digest: Result<String, String>,
    pub state: Result<String, String>,
    pub fence: Result<i64, String>,
    pub lease_expires_at: Result<i64, String>,
    pub response: StoredResponse,
    pub database_now: Result<i64, String>,
}

#[verifier::ext_equal]
pub struct FenceRowView {
    pub request_fingerprint: Result<Seq<char>, Seq<char>>,
    pub content_digest: Result<Seq<char>, Seq<char>>,
    pub state: Result<Seq<char>, Seq<char>>,
    pub fence: Result<i64, Seq<char>>,
    pub lease_expires_at: Result<i64, Seq<char>>,
    pub response: StoredResponseView,
    pub database_now: Result<i64, Seq<char>>,
}

impl View for FenceRow {
    type V = FenceRowView;

    open spec fn view(&self) -> FenceRowView {
        FenceRowView {
            request_fingerprint: text_result(self.request_fingerprint),
            content_digest: text_result(self.content_digest),
            state: text_result(self.state),
            fence: number_result(self.fence),
            lease_expires_at: number_result(self.lease_expires_at),
            response: self.response@,
            database_now: number_result(self.database_now),
        }
    }
}

/// The database operation that a fence asks for next.
pub enum BeginOperation {
    /// Open a transaction.
    Open,
    /// `INSERT_EFFECT`.
    Insert,
    /// `LOCK_EFFECT`.
    Lock,
    /// `FIND_ATTEMPT`.
    FindAttempt,
    /// Roll back: the key has no row, and the attempt has one or not.
    RollBackCollision { collides: bool },
    /// Roll back: the row belongs to other content.
    RollBackConflict,
    /// `CLAIM_EFFECT`.
    Claim { fence: i64, next_fence: i64 },
    /// `CLOSE_EXPIRED_EFFECT`.
    CloseExpired,
    /// Commit, and answer this.
    Commit(BeginDispatch),
}

#[verifier::ext_equal]
pub enum BeginOperationView {
    Open,
    Insert,
    Lock,
    FindAttempt,
    RollBackCollision { collides: bool },
    RollBackConflict,
    Claim { fence: i64, next_fence: i64 },
    CloseExpired,
    Commit(BeginDispatchView),
}

impl View for BeginOperation {
    type V = BeginOperationView;

    open spec fn view(&self) -> BeginOperationView {
        match self {
            BeginOperation::Open => BeginOperationView::Open,
            BeginOperation::Insert => BeginOperationView::Insert,
            BeginOperation::Lock => BeginOperationView::Lock,
            BeginOperation::FindAttempt => BeginOperationView::FindAttempt,
            BeginOperation::RollBackCollision {
                collides,
            } => BeginOperationView::RollBackCollision { collides: *collides },
            BeginOperation::RollBackConflict => BeginOperationView::RollBackConflict,
            BeginOperation::Claim { fence, next_fence } => BeginOperationView::Claim {
                fence: *fence,
                next_fence: *next_fence,
            },
            BeginOperation::CloseExpired => BeginOperationView::CloseExpired,
            BeginOperation::Commit(answer) => BeginOperationView::Commit(answer@),
        }
    }
}

/// What came of an operation.
pub enum BeginOutcome {
    Done,
    Row(Option<FenceRow>),
    Collides(bool),
    /// The number of rows that were changed.
    Affected(u64),
    /// The response to be stored could not be encoded.
    EncodeFailed(String),
    Failed(String),
}

#[verifier::ext_equal]
pub enum BeginOutcomeView {
    Done,
    Row(Option<FenceRowView>),
    Collides(bool),
    Affected(u64),
    EncodeFailed(Seq<char>),
    Failed(Seq<char>),
}

impl View for BeginOutcome {
    type V = BeginOutcomeView;

    open spec fn view(&self) -> BeginOutcomeView {
        match self {
            BeginOutcome::Done => BeginOutcomeView::Done,
            BeginOutcome::Row(Some(row)) => BeginOutcomeView::Row(Some(row@)),
            BeginOutcome::Row(None) => BeginOutcomeView::Row(None),
            BeginOutcome::Collides(collides) => BeginOutcomeView::Collides(*collides),
            BeginOutcome::Affected(rows) => BeginOutcomeView::Affected(*rows),
            BeginOutcome::EncodeFailed(error) => BeginOutcomeView::EncodeFailed(error@),
            BeginOutcome::Failed(error) => BeginOutcomeView::Failed(error@),
        }
    }
}

/// What follows an operation.
pub enum BeginStep {
    Perform(BeginOperation),
    Finish(Result<BeginDispatch, StorageError>),
}

#[verifier::ext_equal]
pub enum BeginStepView {
    Perform(BeginOperationView),
    Finish(Result<BeginDispatchView, StorageErrorView>),
}

impl View for BeginStep {
    type V = BeginStepView;

    open spec fn view(&self) -> BeginStepView {
        match self {
            BeginStep::Perform(operation) => BeginStepView::Perform(operation@),
            BeginStep::Finish(Ok(answer)) => BeginStepView::Finish(Ok(answer@)),
            BeginStep::Finish(Err(error)) => BeginStepView::Finish(Err(error@)),
        }
    }
}

/// The outcomes that an operation can have.
pub open spec fn outcome_fits(operation: BeginOperationView, outcome: BeginOutcomeView) -> bool {
    match outcome {
        BeginOutcomeView::Failed(_) => true,
        BeginOutcomeView::Row(_) => operation is Lock,
        BeginOutcomeView::Collides(_) => operation is FindAttempt,
        BeginOutcomeView::Affected(_) => operation is Claim || operation is CloseExpired,
        BeginOutcomeView::EncodeFailed(_) => operation is CloseExpired,
        BeginOutcomeView::Done => operation is Open || operation is Insert || operation
            is RollBackCollision || operation is RollBackConflict || operation is Commit,
    }
}

/// Whether the operation can have the outcome.
pub fn fits(operation: &BeginOperation, outcome: &BeginOutcome) -> (fit: bool)
    ensures
        fit == outcome_fits(operation@, outcome@),
{
    match (operation, outcome) {
        (_, BeginOutcome::Failed(_)) => true,
        (BeginOperation::Lock, BeginOutcome::Row(_)) => true,
        (BeginOperation::FindAttempt, BeginOutcome::Collides(_)) => true,
        (BeginOperation::Claim { .. }, BeginOutcome::Affected(_)) => true,
        (BeginOperation::CloseExpired, BeginOutcome::Affected(_)) => true,
        (BeginOperation::CloseExpired, BeginOutcome::EncodeFailed(_)) => true,
        (BeginOperation::Open, BeginOutcome::Done) => true,
        (BeginOperation::Insert, BeginOutcome::Done) => true,
        (BeginOperation::RollBackCollision { .. }, BeginOutcome::Done) => true,
        (BeginOperation::RollBackConflict, BeginOutcome::Done) => true,
        (BeginOperation::Commit(_), BeginOutcome::Done) => true,
        _ => false,
    }
}

/// What an operation is for.
pub open spec fn task_of(operation: BeginOperationView) -> Seq<char> {
    match operation {
        BeginOperationView::Open => "begin a dispatch fence transaction"@,
        BeginOperationView::Insert => "insert a dispatch fence"@,
        BeginOperationView::Lock => "lock a dispatch fence"@,
        BeginOperationView::FindAttempt => "resolve an attempt identity collision"@,
        BeginOperationView::RollBackCollision { .. } => "roll back an identity collision"@,
        BeginOperationView::RollBackConflict => "roll back a conflicting dispatch"@,
        BeginOperationView::Claim { .. } => "claim a dispatch fence"@,
        BeginOperationView::CloseExpired => "close an expired dispatch"@,
        BeginOperationView::Commit(_) => "commit a dispatch fence"@,
    }
}

fn task(operation: &BeginOperation) -> (task: &'static str)
    ensures
        task@ == task_of(operation@),
{
    match operation {
        BeginOperation::Open => "begin a dispatch fence transaction",
        BeginOperation::Insert => "insert a dispatch fence",
        BeginOperation::Lock => "lock a dispatch fence",
        BeginOperation::FindAttempt => "resolve an attempt identity collision",
        BeginOperation::RollBackCollision { .. } => "roll back an identity collision",
        BeginOperation::RollBackConflict => "roll back a conflicting dispatch",
        BeginOperation::Claim { .. } => "claim a dispatch fence",
        BeginOperation::CloseExpired => "close an expired dispatch",
        BeginOperation::Commit(_) => "commit a dispatch fence",
    }
}

pub open spec fn fails(task: Seq<char>, error: Seq<char>) -> BeginStepView {
    BeginStepView::Finish(Err(storage_failure(task, error)))
}

/// The whole milliseconds from `now` to a later `expiry`, both in microseconds.
pub open spec fn milliseconds_until(expiry: i64, now: i64) -> int {
    (expiry - now) / 1000
}

/// What follows a row that holds the content of the identity.
pub open spec fn own_row_next(row: FenceRowView, state: EffectState) -> BeginStepView {
    match state {
        EffectState::Prepared => match row.fence {
            Err(error) => fails("decode a dispatch fence"@, error),
            Ok(fence) => if fence == i64::MAX {
                fails("advance a dispatch fence"@, "fence exhausted"@)
            } else {
                BeginStepView::Perform(
                    BeginOperationView::Claim { fence, next_fence: (fence + 1) as i64 },
                )
            },
        },
        EffectState::Sending => match (row.lease_expires_at, row.database_now) {
            (Err(error), _) => fails("decode a dispatch lease"@, error),
            (_, Err(error)) => fails("decode the database clock"@, error),
            (Ok(expiry), Ok(now)) => if expiry <= now {
                BeginStepView::Perform(BeginOperationView::CloseExpired)
            } else {
                BeginStepView::Perform(
                    BeginOperationView::Commit(
                        BeginDispatchView::InFlight {
                            remaining_ms: milliseconds_until(expiry, now) as i64,
                        },
                    ),
                )
            },
        },
        EffectState::Ended(_) => match row.response {
            StoredResponseView::Unreadable(error) => fails("decode a final response"@, error),
            StoredResponseView::Undecodable(error) => fails("decode a stored response"@, error),
            StoredResponseView::Response(response) => BeginStepView::Perform(
                BeginOperationView::Commit(BeginDispatchView::Replay(response)),
            ),
        },
    }
}

/// What follows a locked row.
pub open spec fn row_next(row: FenceRowView, identity: DispatchIdentityView) -> BeginStepView {
    match (row.request_fingerprint, row.content_digest) {
        (Err(error), _) => fails("decode a request fingerprint"@, error),
        (_, Err(error)) => fails("decode a content digest"@, error),
        (Ok(fingerprint), Ok(digest)) => if fingerprint != identity.request_fingerprint || digest
            != identity.content_digest {
            BeginStepView::Perform(BeginOperationView::RollBackConflict)
        } else {
            match row.state {
                Err(error) => fails("decode a dispatch state"@, error),
                Ok(text) => match state_of(text) {
                    None => fails("decode a dispatch state"@, "unknown state"@),
                    Some(state) => own_row_next(row, state),
                },
            }
        },
    }
}

/// What follows an operation and its outcome, for the dispatch of `identity`. An effect whose
/// lease has run out is closed with `expired`.
pub open spec fn begin_next(
    operation: BeginOperationView,
    identity: DispatchIdentityView,
    expired: DispatchResponseView,
    outcome: BeginOutcomeView,
) -> BeginStepView
    recommends
        outcome_fits(operation, outcome),
{
    match outcome {
        BeginOutcomeView::Failed(error) => fails(task_of(operation), error),
        BeginOutcomeView::EncodeFailed(error) => fails("encode an expired response"@, error),
        BeginOutcomeView::Row(Some(row)) => row_next(row, identity),
        BeginOutcomeView::Row(None) => BeginStepView::Perform(BeginOperationView::FindAttempt),
        BeginOutcomeView::Collides(collides) => BeginStepView::Perform(
            BeginOperationView::RollBackCollision { collides },
        ),
        BeginOutcomeView::Affected(rows) => match operation {
            BeginOperationView::Claim { fence, next_fence } => if rows == 1 {
                BeginStepView::Perform(
                    BeginOperationView::Commit(BeginDispatchView::Send { fence: next_fence }),
                )
            } else {
                fails("claim a dispatch fence"@, "compare-and-set failed"@)
            },
            _ => if rows == 1 {
                BeginStepView::Perform(
                    BeginOperationView::Commit(BeginDispatchView::Replay(expired)),
                )
            } else {
                fails("close an expired dispatch"@, "lease compare-and-set failed"@)
            },
        },
        BeginOutcomeView::Done => match operation {
            BeginOperationView::Open => BeginStepView::Perform(BeginOperationView::Insert),
            BeginOperationView::Insert => BeginStepView::Perform(BeginOperationView::Lock),
            BeginOperationView::RollBackCollision { collides: false } => fails(
                "resolve a dispatch fence"@,
                "inserted row is absent"@,
            ),
            BeginOperationView::Commit(answer) => BeginStepView::Finish(Ok(answer)),
            _ => BeginStepView::Finish(Err(StorageErrorView::Conflict)),
        },
    }
}

fn failed(task: &str, error: &str) -> (step: BeginStep)
    ensures
        step@ == fails(task@, error@),
{
    BeginStep::Finish(Err(runtime(task, error)))
}

fn own_row_step(row: FenceRow, state: EffectState) -> (step: BeginStep)
    ensures
        step@ == own_row_next(row@, state),
{
    match state {
        EffectState::Prepared => match row.fence {
            Err(error) => failed("decode a dispatch fence", error.as_str()),
            Ok(fence) => match fence.checked_add(1) {
                None => failed("advance a dispatch fence", "fence exhausted"),
                Some(next_fence) => BeginStep::Perform(BeginOperation::Claim { fence, next_fence }),
            },
        },
        EffectState::Sending => {
            let expiry: i64 = match row.lease_expires_at {
                Err(error) => {
                    return failed("decode a dispatch lease", error.as_str());
                },
                Ok(expiry) => expiry,
            };
            let now: i64 = match row.database_now {
                Err(error) => {
                    return failed("decode the database clock", error.as_str());
                },
                Ok(now) => now,
            };
            if expiry <= now {
                BeginStep::Perform(BeginOperation::CloseExpired)
            } else {
                let remaining_ms: i64 = ((expiry as i128 - now as i128) / 1000) as i64;
                BeginStep::Perform(
                    BeginOperation::Commit(BeginDispatch::InFlight { remaining_ms }),
                )
            }
        },
        EffectState::Ended(_) => match row.response {
            StoredResponse::Unreadable(error) => failed("decode a final response", error.as_str()),
            StoredResponse::Undecodable(error) => failed(
                "decode a stored response",
                error.as_str(),
            ),
            StoredResponse::Response(response) => BeginStep::Perform(
                BeginOperation::Commit(BeginDispatch::Replay(response)),
            ),
        },
    }
}

fn row_step(row: FenceRow, identity: &DispatchIdentity) -> (step: BeginStep)
    ensures
        step@ == row_next(row@, identity@),
{
    let conflicts: bool = match (&row.request_fingerprint, &row.content_digest) {
        (Err(error), _) => {
            return failed("decode a request fingerprint", error.as_str());
        },
        (_, Err(error)) => {
            return failed("decode a content digest", error.as_str());
        },
        (Ok(fingerprint), Ok(digest)) => !same_text(
            fingerprint.as_str(),
            identity.request_fingerprint.as_str(),
        ) || !same_text(digest.as_str(), identity.content_digest.as_str()),
    };
    if conflicts {
        return BeginStep::Perform(BeginOperation::RollBackConflict);
    }
    let state: Option<EffectState> = match &row.state {
        Err(error) => {
            return failed("decode a dispatch state", error.as_str());
        },
        Ok(text) => parse_state(text.as_str()),
    };
    match state {
        None => failed("decode a dispatch state", "unknown state"),
        Some(state) => own_row_step(row, state),
    }
}

/// The first operation at the fence.
pub fn begin_dispatch() -> (operation: BeginOperation)
    ensures
        operation@ == BeginOperationView::Open,
{
    BeginOperation::Open
}

/// Decides what follows an operation at the fence.
pub fn begin_step(
    operation: BeginOperation,
    identity: &DispatchIdentity,
    expired_response: &DispatchResponse,
    outcome: BeginOutcome,
) -> (step: BeginStep)
    requires
        outcome_fits(operation@, outcome@),
    ensures
        step@ == begin_next(operation@, identity@, expired_response@, outcome@),
{
    match outcome {
        BeginOutcome::Failed(error) => failed(task(&operation), error.as_str()),
        BeginOutcome::EncodeFailed(error) => failed("encode an expired response", error.as_str()),
        BeginOutcome::Row(Some(row)) => row_step(row, identity),
        BeginOutcome::Row(None) => BeginStep::Perform(BeginOperation::FindAttempt),
        BeginOutcome::Collides(collides) => BeginStep::Perform(
            BeginOperation::RollBackCollision { collides },
        ),
        BeginOutcome::Affected(rows) => match operation {
            BeginOperation::Claim { fence: _, next_fence } => if rows == 1 {
                BeginStep::Perform(
                    BeginOperation::Commit(BeginDispatch::Send { fence: next_fence }),
                )
            } else {
                failed("claim a dispatch fence", "compare-and-set failed")
            },
            _ => if rows == 1 {
                BeginStep::Perform(
                    BeginOperation::Commit(BeginDispatch::Replay(expired_response.clone())),
                )
            } else {
                failed("close an expired dispatch", "lease compare-and-set failed")
            },
        },
        BeginOutcome::Done => match operation {
            BeginOperation::Open => BeginStep::Perform(BeginOperation::Insert),
            BeginOperation::Insert => BeginStep::Perform(BeginOperation::Lock),
            BeginOperation::RollBackCollision { collides } => if collides {
                BeginStep::Finish(Err(StorageError::Conflict))
            } else {
                failed("resolve a dispatch fence", "inserted row is absent")
            },
            BeginOperation::Commit(answer) => BeginStep::Finish(Ok(answer)),
            _ => BeginStep::Finish(Err(StorageError::Conflict)),
        },
    }
}

/// An effect's row as it was read, each column by itself.
pub struct StatusRow {
    pub state: Result<String, String>,
    pub response: StoredResponse,
    pub remaining_ms: Result<i64, String>,
}

#[verifier::ext_equal]
pub struct StatusRowView {
    pub state: Result<Seq<char>, Seq<char>>,
    pub response: StoredResponseView,
    pub remaining_ms: Result<i64, Seq<char>>,
}

impl View for StatusRow {
    type V = StatusRowView;

    open spec fn view(&self) -> StatusRowView {
        StatusRowView {
            state: text_result(self.state),
            response: self.response@,
            remaining_ms: number_result(self.remaining_ms),
        }
    }
}

pub open spec fn read_view(read: Result<Option<StatusRow>, String>) -> Result<
    Option<StatusRowView>,
    Seq<char>,
> {
    match read {
        Ok(Some(row)) => Ok(Some(row@)),
        Ok(None) => Ok(None),
        Err(error) => Err(error@),
    }
}

pub open spec fn status_view(status: Result<EffectStatus, StorageError>) -> Result<
    EffectStatusView,
    StorageErrorView,
> {
    match status {
        Ok(status) => Ok(status@),
        Err(error) => Err(error@),
    }
}

/// The status that a read of the row tells. Every state but `sending` owes a final response.
pub open spec fn status_of(read: Result<Option<StatusRowView>, Seq<char>>) -> Result<
    EffectStatusView,
    StorageErrorView,
> {
    match read {
        Err(error) => Err(storage_failure("read a dispatch fence"@, error)),
        Ok(None) => Err(storage_failure("read a dispatch fence"@, "row is absent"@)),
        Ok(Some(row)) => match row.state {
            Err(error) => Err(storage_failure("decode a dispatch state"@, error)),
            Ok(state) => if state == "sending"@ {
                match row.remaining_ms {
                    Err(error) => Err(storage_failure("decode a dispatch lease"@, error)),
                    Ok(remaining_ms) => Ok(EffectStatusView::InFlight { remaining_ms }),
                }
            } else {
                match row.response {
                    StoredResponseView::Unreadable(error) => Err(
                        storage_failure("decode a final response"@, error),
                    ),
                    StoredResponseView::Undecodable(error) => Err(
                        storage_failure("decode a stored response"@, error),
                    ),
                    StoredResponseView::Response(response) => Ok(EffectStatusView::Final(response)),
                }
            },
        },
    }
}

/// Tells how far an effect has come, from what `READ_EFFECT` gave.
pub fn effect_status(read: Result<Option<StatusRow>, String>) -> (status: Result<
    EffectStatus,
    StorageError,
>)
    ensures
        status_view(status) == status_of(read_view(read)),
{
    let row = match read {
        Err(error) => {
            return Err(runtime("read a dispatch fence", error.as_str()));
        },
        Ok(None) => {
            return Err(runtime("read a dispatch fence", "row is absent"));
        },
        Ok(Some(row)) => row,
    };
    let sending: bool = match &row.state {
        Err(error) => {
            return Err(runtime("decode a dispatch state", error.as_str()));
        },
        Ok(state) => same_text(state.as_str(), "sending"),
    };
    if sending {
        match row.remaining_ms {
            Err(error) => Err(runtime("decode a dispatch lease", error.as_str())),
            Ok(remaining_ms) => Ok(EffectStatus::InFlight { remaining_ms }),
        }
    } else {
        match row.response {
            StoredResponse::Unreadable(error) => Err(
                runtime("decode a final response", error.as_str()),
            ),
            StoredResponse::Undecodable(error) => Err(
                runtime("decode a stored response", error.as_str()),
            ),
            StoredResponse::Response(response) => Ok(EffectStatus::Final(response)),
        }
    }
}

/// The database operation that finalization asks for next.
pub enum FinalizeOperation {
    /// `FINALIZE_EFFECT`, with this state.
    Record { state: &'static str },
    /// `READ_EFFECT`.
    ReadBack,
}

#[verifier::ext_equal]
pub enum FinalizeOperationView {
    Record { state: Seq<char> },
    ReadBack,
}

impl View for FinalizeOperation {
    type V = FinalizeOperationView;

    open spec fn view(&self) -> FinalizeOperationView {
        match self {
            FinalizeOperation::Record { state } => FinalizeOperationView::Record { state: state@ },
            FinalizeOperation::ReadBack => FinalizeOperationView::ReadBack,
        }
    }
}

/// What came of an operation of finalization.
pub enum FinalizeOutcome {
    /// The number of rows that were changed.
    Affected(u64),
    /// The response could not be encoded.
    EncodeFailed(String),
    Failed(String),
    /// What reading the row back gave.
    Status(Result<EffectStatus, StorageError>),
}

#[verifier::ext_equal]
pub enum FinalizeOutcomeView {
    Affected(u64),
    EncodeFailed(Seq<char>),
    Failed(Seq<char>),
    Status(Result<EffectStatusView, StorageErrorView>),
}

impl View for FinalizeOutcome {
    type V = FinalizeOutcomeView;

    open spec fn view(&self) -> FinalizeOutcomeView {
        match self {
            FinalizeOutcome::Affected(rows) => FinalizeOutcomeView::Affected(*rows),
            FinalizeOutcome::EncodeFailed(error) => FinalizeOutcomeView::EncodeFailed(error@),
            FinalizeOutcome::Failed(error) => FinalizeOutcomeView::Failed(error@),
            FinalizeOutcome::Status(status) => FinalizeOutcomeView::Status(status_view(*status)),
        }
    }
}

/// What follows an operation of finalization.
pub enum FinalizeStep {
    Perform(FinalizeOperation),
    Finish(Result<DispatchResponse, StorageError>),
}

#[verifier::ext_equal]
pub enum FinalizeStepView {
    Perform(FinalizeOperationView),
    Finish(Result<DispatchResponseView, StorageErrorView>),
}

impl View for FinalizeStep {
    type V = FinalizeStepView;

    open spec fn view(&self) -> FinalizeStepView {
        match self {
            FinalizeStep::Perform(operation) => FinalizeStepView::Perform(operation@),
            FinalizeStep::Finish(Ok(response)) => FinalizeStepView::Finish(Ok(response@)),
            FinalizeStep::Finish(Err(error)) => FinalizeStepView::Finish(Err(error@)),
        }
    }
}

/// The first operation of finalization: record the response under its outcome.
pub open spec fn finalize_first(response: DispatchResponseView) -> FinalizeOperationView {
    FinalizeOperationView::Record { state: state_text(EffectState::Ended(response.outcome)) }
}

/// What follows an outcome of finalization. When no row was changed, another caller has closed
/// the effect, and its response is the answer.
pub open spec fn finalize_next(
    response: DispatchResponseView,
    outcome: FinalizeOutcomeView,
) -> FinalizeStepView {
    match outcome {
        FinalizeOutcomeView::EncodeFailed(error) => FinalizeStepView::Finish(
            Err(storage_failure("encode a final response"@, error)),
        ),
        FinalizeOutcomeView::Failed(error) => FinalizeStepView::Finish(
            Err(storage_failure("finalize a dispatch fence"@, error)),
        ),
        FinalizeOutcomeView::Affected(rows) => if rows == 1 {
            FinalizeStepView::Finish(Ok(response))
        } else {
            FinalizeStepView::Perform(FinalizeOperationView::ReadBack)
        },
        FinalizeOutcomeView::Status(Err(error)) => FinalizeStepView::Finish(Err(error)),
        FinalizeOutcomeView::Status(Ok(EffectStatusView::Final(stored))) => {
            FinalizeStepView::Finish(Ok(stored))
        },
        FinalizeOutcomeView::Status(Ok(EffectStatusView::InFlight { .. })) => {
            FinalizeStepView::Finish(
                Err(
                    storage_failure(
                        "finalize a dispatch fence"@,
                        "fence was lost while the effect remains active"@,
                    ),
                ),
            )
        },
    }
}

/// The first operation that records `response` as the end of an effect.
pub fn finalize_dispatch(response: &DispatchResponse) -> (operation: FinalizeOperation)
    ensures
        operation@ == finalize_first(response@),
{
    FinalizeOperation::Record { state: outcome_name(response.outcome) }
}

/// Decides what follows an operation of finalization.
pub fn finalize_step(response: &DispatchResponse, outcome: FinalizeOutcome) -> (step: FinalizeStep)
    ensures
        step@ == finalize_next(response@, outcome@),
{
    match outcome {
        FinalizeOutcome::EncodeFailed(error) => FinalizeStep::Finish(
            Err(runtime("encode a final response", error.as_str())),
        ),
        FinalizeOutcome::Failed(error) => FinalizeStep::Finish(
            Err(runtime("finalize a dispatch fence", error.as_str())),
        ),
        FinalizeOutcome::Affected(rows) => if rows == 1 {
            FinalizeStep::Finish(Ok(response.clone()))
        } else {
            FinalizeStep::Perform(FinalizeOperation::ReadBack)
        },
        FinalizeOutcome::Status(Err(error)) => FinalizeStep::Finish(Err(error)),
        FinalizeOutcome::Status(Ok(EffectStatus::Final(stored))) => FinalizeStep::Finish(
            Ok(stored),
        ),
        FinalizeOutcome::Status(Ok(EffectStatus::InFlight { .. })) => FinalizeStep::Finish(
            Err(
                runtime(
                    "finalize a dispatch fence",
                    "fence was lost while the effect remains active",
                ),
            ),
        ),
    }
}

/// What the plugin reports of a failed task names the task and the error behind the same words.
pub proof fn a_failure_names_its_task_and_its_error(task: Seq<char>, error: Seq<char>)
    ensures
        storage_failure(task, error) matches StorageErrorView::Runtime(
            RuntimeFailureView::PluginFailure { detail },
        ) && detail == "SMTP effect storage failed to "@ + task + ": "@ + error,
{
}

/// A storage failure is passed on as it is; only a conflict, which has no failure of its own, is
/// put in words.
pub proof fn storage_failures_are_passed_on(failure: RuntimeFailureView)
    ensures
        storage_runtime_view(StorageErrorView::Runtime(failure)) == failure,
        storage_runtime_view(StorageErrorView::Conflict) == (RuntimeFailureView::PluginFailure {
            detail: "SMTP dispatch identity conflict escaped domain mapping"@,
        }),
{
}

/// An operation that fails ends the visit with its own task and the error, whoever visits.
pub proof fn a_failed_operation_ends_the_visit(
    operation: BeginOperationView,
    identity: DispatchIdentityView,
    expired: DispatchResponseView,
    error: Seq<char>,
)
    ensures
        ({
            let task = match operation {
                BeginOperationView::Open => "begin a dispatch fence transaction"@,
                BeginOperationView::Insert => "insert a dispatch fence"@,
                BeginOperationView::Lock => "lock a dispatch fence"@,
                BeginOperationView::FindAttempt => "resolve an attempt identity collision"@,
                BeginOperationView::RollBackCollision { .. } => "roll back an identity collision"@,
                BeginOperationView::RollBackConflict => "roll back a conflicting dispatch"@,
                BeginOperationView::Claim { .. } => "claim a dispatch fence"@,
                BeginOperationView::CloseExpired => "close an expired dispatch"@,
                BeginOperationView::Commit(_) => "commit a dispatch fence"@,
            };
            begin_next(operation, identity, expired, BeginOutcomeView::Failed(error))
                == BeginStepView::Finish(Err(storage_failure(task, error)))
        }),
        begin_next(
            BeginOperationView::CloseExpired,
            identity,
            expired,
            BeginOutcomeView::EncodeFailed(error),
        ) == BeginStepView::Finish(Err(storage_failure("encode an expired response"@, error))),
{
}

/// A visit first inserts its row and then locks the row of its key; where there is none, it looks
/// for the attempt and rolls back, with a conflict exactly if the attempt has a row.
pub proof fn a_visit_inserts_locks_and_looks_for_the_attempt(
    identity: DispatchIdentityView,
    expired: DispatchResponseView,
    collides: bool,
)
    ensures
        begin_next(BeginOperationView::Open, identity, expired, BeginOutcomeView::Done)
            == BeginStepView::Perform(BeginOperationView::Insert),
        begin_next(BeginOperationView::Insert, identity, expired, BeginOutcomeView::Done)
            == BeginStepView::Perform(BeginOperationView::Lock),
        begin_next(BeginOperationView::Lock, identity, expired, BeginOutcomeView::Row(None))
            == BeginStepView::Perform(BeginOperationView::FindAttempt),
        begin_next(
            BeginOperationView::FindAttempt,
            identity,
            expired,
            BeginOutcomeView::Collides(collides),
        ) == BeginStepView::Perform(BeginOperationView::RollBackCollision { collides }),
        begin_next(
            BeginOperationView::RollBackCollision { collides: true },
            identity,
            expired,
            BeginOutcomeView::Done,
        ) == BeginStepView::Finish(Err(StorageErrorView::Conflict)),
        begin_next(
            BeginOperationView::RollBackCollision { collides: false },
            identity,
            expired,
            BeginOutcomeView::Done,
        ) == BeginStepView::Finish(
            Err(storage_failure("resolve a dispatch fence"@, "inserted row is absent"@)),
        ),
        begin_next(BeginOperationView::RollBackConflict, identity, expired, BeginOutcomeView::Done)
            == BeginStepView::Finish(Err(StorageErrorView::Conflict)),
{
}

/// A claim that changes exactly its row is committed under its next fence, a closing that does so
/// with the response for expired effects, and any other number of rows is a failure. What is
/// committed is the answer.
pub proof fn only_a_change_of_one_row_is_committed(
    identity: DispatchIdentityView,
    expired: DispatchResponseView,
    fence: i64,
    next_fence: i64,
    rows: u64,
    answer: BeginDispatchView,
)
    ensures
        begin_next(
            BeginOperationView::Claim { fence, next_fence },
            identity,
            expired,
            BeginOutcomeView::Affected(rows),
        ) == (if rows == 1 {
            BeginStepView::Perform(
                BeginOperationView::Commit(BeginDispatchView::Send { fence: next_fence }),
            )
        } else {
            BeginStepView::Finish(
                Err(storage_failure("claim a dispatch fence"@, "compare-and-set failed"@)),
            )
        }),
        begin_next(
            BeginOperationView::CloseExpired,
            identity,
            expired,
            BeginOutcomeView::Affected(rows),
        ) == (if rows == 1 {
            BeginStepView::Perform(BeginOperationView::Commit(BeginDispatchView::Replay(expired)))
        } else {
            BeginStepView::Finish(
                Err(storage_failure("close an expired dispatch"@, "lease compare-and-set failed"@)),
            )
        }),
        begin_next(BeginOperationView::Commit(answer), identity, expired, BeginOutcomeView::Done)
            == BeginStepView::Finish(Ok(answer)),
{
}

/// A locked row with another fingerprint or another content digest is a conflict, whatever else it
/// holds; and what follows a row depends on nothing else of the visitor.
pub proof fn a_row_of_other_content_is_rolled_back(
    row: FenceRowView,
    identity: DispatchIdentityView,
    other: DispatchIdentityView,
    expired: DispatchResponseView,
    fingerprint: Seq<char>,
    digest: Seq<char>,
)
    requires
        row.request_fingerprint == Ok::<Seq<char>, Seq<char>>(fingerprint),
        row.content_digest == Ok::<Seq<char>, Seq<char>>(digest),
    ensures
        begin_next(BeginOperationView::Lock, identity, expired, BeginOutcomeView::Row(Some(row)))
            == BeginStepView::Perform(BeginOperationView::RollBackConflict) <==> (fingerprint
            != identity.request_fingerprint || digest != identity.content_digest),
        identity.request_fingerprint == other.request_fingerprint && identity.content_digest
            == other.content_digest ==> begin_next(
            BeginOperationView::Lock,
            identity,
            expired,
            BeginOutcomeView::Row(Some(row)),
        ) == begin_next(
            BeginOperationView::Lock,
            other,
            expired,
            BeginOutcomeView::Row(Some(row)),
        ),
{
}

/// The row is readable and belongs to the visitor.
pub open spec fn is_own_row(
    row: FenceRowView,
    identity: DispatchIdentityView,
    state: Seq<char>,
) -> bool {
    &&& row.request_fingerprint == Ok::<Seq<char>, Seq<char>>(identity.request_fingerprint)
    &&& row.content_digest == Ok::<Seq<char>, Seq<char>>(identity.content_digest)
    &&& row.state == Ok::<Seq<char>, Seq<char>>(state)
}

/// A prepared row is claimed under the fence after its own, as long as there is one.
pub proof fn a_prepared_row_is_claimed_under_the_next_fence(
    row: FenceRowView,
    identity: DispatchIdentityView,
    expired: DispatchResponseView,
    fence: i64,
)
    requires
        is_own_row(row, identity, "prepared"@),
        row.fence == Ok::<i64, Seq<char>>(fence),
    ensures
        ({
            let next = begin_next(
                BeginOperationView::Lock,
                identity,
                expired,
                BeginOutcomeView::Row(Some(row)),
            );
            &&& fence < i64::MAX ==> (next matches BeginStepView::Perform(
                BeginOperationView::Claim { fence: claimed, next_fence },
            ) && claimed == fence && next_fence == fence + 1)
            &&& fence == i64::MAX ==> next == BeginStepView::Finish(
                Err(storage_failure("advance a dispatch fence"@, "fence exhausted"@)),
            )
        }),
{
    states_are_read_back(EffectState::Prepared);
}

/// A row that is being sent is closed from the moment on at which its lease ends, and before that
/// is in flight with the whole milliseconds that are left.
pub proof fn a_sending_row_is_in_flight_until_its_lease_ends(
    row: FenceRowView,
    identity: DispatchIdentityView,
    expired: DispatchResponseView,
    expiry: i64,
    now: i64,
)
    requires
        is_own_row(row, identity, "sending"@),
        row.lease_expires_at == Ok::<i64, Seq<char>>(expiry),
        row.database_now == Ok::<i64, Seq<char>>(now),
    ensures
        ({
            let next = begin_next(
                BeginOperationView::Lock,
                identity,
                expired,
                BeginOutcomeView::Row(Some(row)),
            );
            &&& expiry <= now ==> next == BeginStepView::Perform(BeginOperationView::CloseExpired)
            &&& expiry > now ==> (next matches BeginStepView::Perform(
                BeginOperationView::Commit(BeginDispatchView::InFlight { remaining_ms }),
            ) && remaining_ms * 1_000 <= expiry - now < remaining_ms * 1_000 + 1_000)
        }),
{
    states_are_read_back(EffectState::Sending);
}

/// A row that has ended is answered with its response, however it has ended.
pub proof fn an_ended_row_is_answered_with_its_response(
    row: FenceRowView,
    identity: DispatchIdentityView,
    expired: DispatchResponseView,
    outcome: DispatchResponseOutcome,
    response: DispatchResponseView,
)
    requires
        is_own_row(row, identity, classification_of(outcome)),
        row.response == StoredResponseView::Response(response),
    ensures
        begin_next(BeginOperationView::Lock, identity, expired, BeginOutcomeView::Row(Some(row)))
            == BeginStepView::Perform(
            BeginOperationView::Commit(BeginDispatchView::Replay(response)),
        ),
{
    states_are_read_back(EffectState::Ended(outcome));
}

/// A column that cannot be read ends the visit where it is needed, and only there: first the
/// fingerprint, then the digest, then the state, and then what the state calls for.
pub proof fn an_unreadable_column_ends_the_visit_where_it_is_needed(
    row: FenceRowView,
    identity: DispatchIdentityView,
    expired: DispatchResponseView,
    error: Seq<char>,
    outcome: DispatchResponseOutcome,
)
    ensures
        ({
            let next = begin_next(
                BeginOperationView::Lock,
                identity,
                expired,
                BeginOutcomeView::Row(Some(row)),
            );
            let ends = |task: Seq<char>|
                next == BeginStepView::Finish(Err(storage_failure(task, error)));
            let unread = Err::<Seq<char>, Seq<char>>(error);
            &&& row.request_fingerprint == unread ==> ends("decode a request fingerprint"@)
            &&& row.request_fingerprint is Ok && row.content_digest == unread ==> ends(
                "decode a content digest"@,
            )
            &&& row.request_fingerprint == Ok::<Seq<char>, Seq<char>>(identity.request_fingerprint)
                && row.content_digest == Ok::<Seq<char>, Seq<char>>(identity.content_digest)
                && row.state == unread ==> ends("decode a dispatch state"@)
            &&& is_own_row(row, identity, "prepared"@) && row.fence == Err::<i64, Seq<char>>(error)
                ==> ends("decode a dispatch fence"@)
            &&& is_own_row(row, identity, "sending"@) && row.lease_expires_at == Err::<
                i64,
                Seq<char>,
            >(error) ==> ends("decode a dispatch lease"@)
            &&& is_own_row(row, identity, "sending"@) && row.lease_expires_at is Ok
                && row.database_now == Err::<i64, Seq<char>>(error) ==> ends(
                "decode the database clock"@,
            )
            &&& is_own_row(row, identity, classification_of(outcome)) && row.response
                == StoredResponseView::Unreadable(error) ==> ends("decode a final response"@)
            &&& is_own_row(row, identity, classification_of(outcome)) && row.response
                == StoredResponseView::Undecodable(error) ==> ends("decode a stored response"@)
        }),
{
    states_are_read_back(EffectState::Prepared);
    states_are_read_back(EffectState::Sending);
    states_are_read_back(EffectState::Ended(outcome));
}

/// There are six states, and a row in any other is a failure.
pub proof fn a_row_in_no_known_state_is_a_failure(
    row: FenceRowView,
    identity: DispatchIdentityView,
    expired: DispatchResponseView,
    state: Seq<char>,
)
    requires
        is_own_row(row, identity, state),
        state != "prepared"@,
        state != "sending"@,
        forall|outcome: DispatchResponseOutcome| state != #[trigger] classification_of(outcome),
    ensures
        begin_next(BeginOperationView::Lock, identity, expired, BeginOutcomeView::Row(Some(row)))
            == BeginStepView::Finish(
            Err(storage_failure("decode a dispatch state"@, "unknown state"@)),
        ),
{
    assert(state != classification_of(DispatchResponseOutcome::Accepted));
    assert(state != classification_of(DispatchResponseOutcome::TemporaryFailure));
    assert(state != classification_of(DispatchResponseOutcome::PermanentFailure));
    assert(state != classification_of(DispatchResponseOutcome::DeliveryUnknown));
}

/// A status is what the row says: the time left while it is being sent, its response in any other
/// state, and a failure that names what could not be read.
pub proof fn a_status_is_what_the_row_says(
    row: StatusRowView,
    state: Seq<char>,
    remaining_ms: i64,
    response: DispatchResponseView,
    error: Seq<char>,
)
    ensures
        ({
            let status = status_of(Ok(Some(row)));
            let fails_to = |task: Seq<char>|
                status == Err::<EffectStatusView, StorageErrorView>(storage_failure(task, error));
            let in_state = row.state == Ok::<Seq<char>, Seq<char>>(state);
            &&& in_state && state == "sending"@ && row.remaining_ms == Ok::<i64, Seq<char>>(
                remaining_ms,
            ) ==> status == Ok::<EffectStatusView, StorageErrorView>(
                EffectStatusView::InFlight { remaining_ms },
            )
            &&& in_state && state != "sending"@ && row.response == StoredResponseView::Response(
                response,
            ) ==> status == Ok::<EffectStatusView, StorageErrorView>(
                EffectStatusView::Final(response),
            )
            &&& row.state == Err::<Seq<char>, Seq<char>>(error) ==> fails_to(
                "decode a dispatch state"@,
            )
            &&& in_state && state == "sending"@ && row.remaining_ms == Err::<i64, Seq<char>>(error)
                ==> fails_to("decode a dispatch lease"@)
            &&& in_state && state != "sending"@ && row.response == StoredResponseView::Unreadable(
                error,
            ) ==> fails_to("decode a final response"@)
            &&& in_state && state != "sending"@ && row.response == StoredResponseView::Undecodable(
                error,
            ) ==> fails_to("decode a stored response"@)
        }),
        status_of(Err(error)) == Err::<EffectStatusView, StorageErrorView>(
            storage_failure("read a dispatch fence"@, error),
        ),
        status_of(Ok(None)) == Err::<EffectStatusView, StorageErrorView>(
            storage_failure("read a dispatch fence"@, "row is absent"@),
        ),
{
}

/// Finalization records a response under its own outcome, answers with it exactly when it has
/// changed one row, and otherwise with what the row says by then: its response as it is, whatever
/// the outcome, a failure as it is, and another failure where the effect is still being sent.
pub proof fn finalization_answers_with_the_recorded_end(
    response: DispatchResponseView,
    rows: u64,
    kept: DispatchResponseView,
    remaining_ms: i64,
    failure: StorageErrorView,
    error: Seq<char>,
)
    ensures
        finalize_first(response) == (FinalizeOperationView::Record {
            state: classification_of(response.outcome),
        }),
        finalize_next(response, FinalizeOutcomeView::Affected(rows)) == (if rows == 1 {
            FinalizeStepView::Finish(Ok(response))
        } else {
            FinalizeStepView::Perform(FinalizeOperationView::ReadBack)
        }),
        finalize_next(
            response,
            FinalizeOutcomeView::Status(Ok(EffectStatusView::Final(kept))),
        ) == FinalizeStepView::Finish(Ok(kept)),
        finalize_next(response, FinalizeOutcomeView::Status(Err(failure)))
            == FinalizeStepView::Finish(Err(failure)),
        finalize_next(
            response,
            FinalizeOutcomeView::Status(Ok(EffectStatusView::InFlight { remaining_ms })),
        ) == FinalizeStepView::Finish(
            Err(
                storage_failure(
                    "finalize a dispatch fence"@,
                    "fence was lost while the effect remains active"@,
                ),
            ),
        ),
        finalize_next(response, FinalizeOutcomeView::EncodeFailed(error))
            == FinalizeStepView::Finish(Err(storage_failure("encode a final response"@, error))),
        finalize_next(response, FinalizeOutcomeView::Failed(error)) == FinalizeStepView::Finish(
            Err(storage_failure("finalize a dispatch fence"@, error)),
        ),
{
}

/// What is stated of an identity is stated of every field of it.
pub proof fn an_identity_shows_every_field(identity: DispatchIdentity)
    ensures
        identity@ == (DispatchIdentityView {
            idempotency_key_hash: identity.idempotency_key_hash@,
            delivery_id_hash: identity.delivery_id_hash@,
            attempt_id_hash: identity.attempt_id_hash@,
            request_fingerprint: identity.request_fingerprint@,
            content_digest: identity.content_digest@,
        }),
{
}

/// What is stated of a row is stated of every column as it was read, or of the error with which it
/// could not be.
pub proof fn a_row_shows_every_column(
    row: FenceRow,
    status: StatusRow,
    text: String,
    number: i64,
    response: DispatchResponse,
)
    ensures
        row@ == (FenceRowView {
            request_fingerprint: text_result(row.request_fingerprint),
            content_digest: text_result(row.content_digest),
            state: text_result(row.state),
            fence: number_result(row.fence),
            lease_expires_at: number_result(row.lease_expires_at),
            response: row.response@,
            database_now: number_result(row.database_now),
        }),
        status@ == (StatusRowView {
            state: text_result(status.state),
            response: status.response@,
            remaining_ms: number_result(status.remaining_ms),
        }),
        text_result(Ok(text)) == Ok::<Seq<char>, Seq<char>>(text@),
        text_result(Err(text)) == Err::<Seq<char>, Seq<char>>(text@),
        number_result(Ok(number)) == Ok::<i64, Seq<char>>(number),
        number_result(Err(text)) == Err::<i64, Seq<char>>(text@),
        StoredResponse::Unreadable(text)@ == StoredResponseView::Unreadable(text@),
        StoredResponse::Undecodable(text)@ == StoredResponseView::Undecodable(text@),
        StoredResponse::Response(response)@ == StoredResponseView::Response(response@),
{
}

/// What is stated of an answer or a status is stated of its fence, its time or its response.
pub proof fn an_answer_shows_what_it_says(fence: i64, remaining_ms: i64, response: DispatchResponse)
    ensures
        (BeginDispatch::Send { fence })@ == (BeginDispatchView::Send { fence }),
        BeginDispatch::Replay(response)@ == BeginDispatchView::Replay(response@),
        (BeginDispatch::InFlight { remaining_ms })@ == (BeginDispatchView::InFlight {
            remaining_ms,
        }),
        EffectStatus::Final(response)@ == EffectStatusView::Final(response@),
        (EffectStatus::InFlight { remaining_ms })@ == (EffectStatusView::InFlight { remaining_ms }),
{
}

/// What is stated of a visit is stated of its operations as they are, of what came of them, and of
/// what follows.
pub proof fn a_visit_shows_everything(
    operation: BeginOperation,
    outcome: BeginOutcome,
    step: BeginStep,
)
    ensures
        operation@ == match operation {
            BeginOperation::Open => BeginOperationView::Open,
            BeginOperation::Insert => BeginOperationView::Insert,
            BeginOperation::Lock => BeginOperationView::Lock,
            BeginOperation::FindAttempt => BeginOperationView::FindAttempt,
            BeginOperation::RollBackCollision { collides } => (
            BeginOperationView::RollBackCollision { collides }),
            BeginOperation::RollBackConflict => BeginOperationView::RollBackConflict,
            BeginOperation::Claim { fence, next_fence } => (BeginOperationView::Claim {
                fence,
                next_fence,
            }),
            BeginOperation::CloseExpired => BeginOperationView::CloseExpired,
            BeginOperation::Commit(answer) => BeginOperationView::Commit(answer@),
        },
        outcome@ == match outcome {
            BeginOutcome::Done => BeginOutcomeView::Done,
            BeginOutcome::Row(Some(row)) => BeginOutcomeView::Row(Some(row@)),
            BeginOutcome::Row(None) => BeginOutcomeView::Row(None),
            BeginOutcome::Collides(collides) => BeginOutcomeView::Collides(collides),
            BeginOutcome::Affected(rows) => BeginOutcomeView::Affected(rows),
            BeginOutcome::EncodeFailed(error) => BeginOutcomeView::EncodeFailed(error@),
            BeginOutcome::Failed(error) => BeginOutcomeView::Failed(error@),
        },
        step@ == match step {
            BeginStep::Perform(operation) => BeginStepView::Perform(operation@),
            BeginStep::Finish(Ok(answer)) => BeginStepView::Finish(Ok(answer@)),
            BeginStep::Finish(Err(error)) => BeginStepView::Finish(Err(error@)),
        },
{
}

/// What is stated of a finalization or a read is stated of its operations as they are, of what came
/// of them, and of what follows.
pub proof fn a_finalization_shows_everything(
    operation: FinalizeOperation,
    outcome: FinalizeOutcome,
    step: FinalizeStep,
    read: Result<Option<StatusRow>, String>,
    status: Result<EffectStatus, StorageError>,
)
    ensures
        operation@ == match operation {
            FinalizeOperation::Record { state } => (FinalizeOperationView::Record {
                state: state@,
            }),
            FinalizeOperation::ReadBack => FinalizeOperationView::ReadBack,
        },
        outcome@ == match outcome {
            FinalizeOutcome::Affected(rows) => FinalizeOutcomeView::Affected(rows),
            FinalizeOutcome::EncodeFailed(error) => FinalizeOutcomeView::EncodeFailed(error@),
            FinalizeOutcome::Failed(error) => FinalizeOutcomeView::Failed(error@),
            FinalizeOutcome::Status(Ok(status)) => FinalizeOutcomeView::Status(Ok(status@)),
            FinalizeOutcome::Status(Err(error)) => FinalizeOutcomeView::Status(Err(error@)),
        },
        step@ == match step {
            FinalizeStep::Perform(operation) => FinalizeStepView::Perform(operation@),
            FinalizeStep::Finish(Ok(response)) => FinalizeStepView::Finish(Ok(response@)),
            FinalizeStep::Finish(Err(error)) => FinalizeStepView::Finish(Err(error@)),
        },
        read_view(read) == match read {
            Ok(Some(row)) => Ok::<Option<StatusRowView>, Seq<char>>(Some(row@)),
            Ok(None) => Ok::<Option<StatusRowView>, Seq<char>>(None),
            Err(error) => Err::<Option<StatusRowView>, Seq<char>>(error@),
        },
        status_view(status) == match status {
            Ok(status) => Ok::<EffectStatusView, StorageErrorView>(status@),
            Err(error) => Err::<EffectStatusView, StorageErrorView>(error@),
        },
{
}

/// What is stated of a storage error is stated of the failure behind it, and a conflict is none.
pub proof fn a_storage_error_shows_its_failure(failure: RuntimeFailure)
    ensures
        StorageError::Runtime(failure)@ == StorageErrorView::Runtime(failure@),
        StorageError::Conflict@ == StorageErrorView::Conflict,
{
}

/// Each state has one text: two of its own for a row that has not ended, and the name of the
/// outcome for one that has. No other text is a state.
pub proof fn each_state_has_its_text(text: Seq<char>, outcome: DispatchResponseOutcome)
    ensures
        state_of(text) == Some(EffectState::Prepared) <==> text == "prepared"@,
        state_of(text) == Some(EffectState::Sending) <==> text == "sending"@,
        state_of(text) == Some(EffectState::Ended(outcome)) <==> text == classification_of(outcome),
        state_text(EffectState::Prepared) == "prepared"@,
        state_text(EffectState::Sending) == "sending"@,
        state_text(EffectState::Ended(outcome)) == classification_of(outcome),
{
    states_are_read_back(EffectState::Prepared);
    states_are_read_back(EffectState::Sending);
    states_are_read_back(EffectState::Ended(outcome));
}

/// Each operation has the outcomes of its own kind, beside the failure that each can have.
pub proof fn each_operation_has_its_outcomes(
    operation: BeginOperationView,
    outcome: BeginOutcomeView,
)
    ensures
        outcome_fits(operation, outcome) <==> outcome is Failed || match operation {
            BeginOperationView::Open => outcome is Done,
            BeginOperationView::Insert => outcome is Done,
            BeginOperationView::Lock => outcome is Row,
            BeginOperationView::FindAttempt => outcome is Collides,
            BeginOperationView::RollBackCollision { .. } => outcome is Done,
            BeginOperationView::RollBackConflict => outcome is Done,
            BeginOperationView::Claim { .. } => outcome is Affected,
            BeginOperationView::CloseExpired => outcome is Affected || outcome is EncodeFailed,
            BeginOperationView::Commit(_) => outcome is Done,
        },
{
}

} // verus!
