//! The table of effects, and what holds of it whoever works on it.
//!
//! A table maps the hash of an idempotency key to the row of its dispatch. The statements of the
//! storage are modelled as functions on tables; a transaction works on a table of its own, which
//! replaces the shared one when it commits. Transactions on one row follow one another: the first
//! to insert or lock it makes the others wait, and those then see what it has committed.
use vstd::prelude::*;

use crate::config::{config_result, lease_of, send_timeout_of, SmtpConfig};
use crate::digest::is_digest;
use crate::email::{DispatchResponseOutcome, DispatchResponseView};
use crate::storage::{
    begin_next, finalize_next, milliseconds_until, outcome_fits, state_text, states_are_read_back,
    status_of, BeginDispatchView, BeginOperationView, BeginOutcomeView, BeginStepView,
    DispatchIdentityView, EffectState, EffectStatusView, FenceRowView, FinalizeOutcomeView,
    FinalizeStepView, StatusRowView, StorageErrorView, StoredResponseView, CLAIM_EFFECT,
    CLOSE_EXPIRED_EFFECT, FINALIZE_EFFECT, FIND_ATTEMPT, INSERT_EFFECT, LOCK_EFFECT, READ_EFFECT,
};

verus! {

/// One row. Times are microseconds since 1970.
#[verifier::ext_equal]
pub struct EffectRecord {
    pub delivery_id_hash: Seq<char>,
    pub attempt_id_hash: Seq<char>,
    pub request_fingerprint: Seq<char>,
    pub content_digest: Seq<char>,
    pub state: EffectState,
    pub fence: i64,
    pub lease_expires_at: Option<i64>,
    pub response: Option<DispatchResponseView>,
}

/// The rows by the hash of their idempotency key.
pub type EffectTable = Map<Seq<char>, EffectRecord>;

/// What a visit to the fence meets beside the table.
pub struct Circumstances {
    /// The database's clock at each operation.
    pub clock: spec_fn(BeginOperationView) -> i64,
    /// The error with which an operation fails, if it does.
    pub failure: spec_fn(BeginOperationView) -> Option<Seq<char>>,
    /// The error with which the response to be stored fails to encode, if it does.
    pub encode_failure: Option<Seq<char>>,
    /// Whether a commit that reports a failure has taken effect all the same.
    pub commit_takes_effect: bool,
    /// How a missing value is reported.
    pub missing: Seq<char>,
    /// How a time that cannot be stored is reported.
    pub out_of_range: Seq<char>,
}

/// The row belongs to this attempt.
pub open spec fn is_of_attempt(
    record: EffectRecord,
    delivery_id_hash: Seq<char>,
    attempt_id_hash: Seq<char>,
) -> bool {
    record.delivery_id_hash == delivery_id_hash && record.attempt_id_hash == attempt_id_hash
}

/// Some row belongs to this attempt.
pub open spec fn attempt_is_taken(
    table: EffectTable,
    delivery_id_hash: Seq<char>,
    attempt_id_hash: Seq<char>,
) -> bool {
    exists|key: Seq<char>| #[trigger]
        table.dom().contains(key) && is_of_attempt(table[key], delivery_id_hash, attempt_id_hash)
}

/// The row that an identity starts with.
pub open spec fn fresh_record(identity: DispatchIdentityView) -> EffectRecord {
    EffectRecord {
        delivery_id_hash: identity.delivery_id_hash,
        attempt_id_hash: identity.attempt_id_hash,
        request_fingerprint: identity.request_fingerprint,
        content_digest: identity.content_digest,
        state: EffectState::Prepared,
        fence: 0,
        lease_expires_at: None,
        response: None,
    }
}

/// The effect of `INSERT_EFFECT`.
pub open spec fn inserted(table: EffectTable, identity: DispatchIdentityView) -> EffectTable {
    if table.dom().contains(identity.idempotency_key_hash) || attempt_is_taken(
        table,
        identity.delivery_id_hash,
        identity.attempt_id_hash,
    ) {
        table
    } else {
        table.insert(identity.idempotency_key_hash, fresh_record(identity))
    }
}

/// What a read shows of the response column.
pub open spec fn stored(
    response: Option<DispatchResponseView>,
    missing: Seq<char>,
) -> StoredResponseView {
    match response {
        Some(response) => StoredResponseView::Response(response),
        None => StoredResponseView::Unreadable(missing),
    }
}

/// What `LOCK_EFFECT` shows of a row at the time `now`.
pub open spec fn locked_row(record: EffectRecord, now: i64, missing: Seq<char>) -> FenceRowView {
    FenceRowView {
        request_fingerprint: Ok(record.request_fingerprint),
        content_digest: Ok(record.content_digest),
        state: Ok(state_text(record.state)),
        fence: Ok(record.fence),
        lease_expires_at: match record.lease_expires_at {
            Some(expiry) => Ok(expiry),
            None => Err(missing),
        },
        response: stored(record.response, missing),
        database_now: Ok(now),
    }
}

/// The row after `CLAIM_EFFECT` with a lease that ends at `expiry`.
pub open spec fn claimed(record: EffectRecord, next_fence: i64, expiry: i64) -> EffectRecord {
    EffectRecord {
        state: EffectState::Sending,
        fence: next_fence,
        lease_expires_at: Some(expiry),
        ..record
    }
}

/// The row after it was closed with `response`, under `outcome`.
pub open spec fn ended(
    record: EffectRecord,
    outcome: DispatchResponseOutcome,
    response: DispatchResponseView,
) -> EffectRecord {
    EffectRecord {
        state: EffectState::Ended(outcome),
        lease_expires_at: None,
        response: Some(response),
        ..record
    }
}

/// `CLOSE_EXPIRED_EFFECT` finds the row: its lease has run out at the time `now`.
pub open spec fn has_expired(record: EffectRecord, now: i64) -> bool {
    record.state == EffectState::Sending && (record.lease_expires_at matches Some(expiry) && expiry
        <= now)
}

/// What the database answers to an operation inside a transaction that sees `table`, and what the
/// transaction sees afterwards.
pub open spec fn begin_answer(
    table: EffectTable,
    operation: BeginOperationView,
    identity: DispatchIdentityView,
    lease_ms: i64,
    expired: DispatchResponseView,
    circumstances: Circumstances,
) -> (BeginOutcomeView, EffectTable) {
    let key = identity.idempotency_key_hash;
    let now = (circumstances.clock)(operation);
    let expiry = now + lease_ms * 1000;
    match (circumstances.failure)(operation) {
        Some(error) => (BeginOutcomeView::Failed(error), table),
        None => match operation {
            BeginOperationView::Insert => (BeginOutcomeView::Done, inserted(table, identity)),
            BeginOperationView::Lock => if table.dom().contains(key) {
                let row = locked_row(table[key], now, circumstances.missing);
                (BeginOutcomeView::Row(Some(row)), table)
            } else {
                (BeginOutcomeView::Row(None), table)
            },
            BeginOperationView::FindAttempt => (
                BeginOutcomeView::Collides(
                    attempt_is_taken(table, identity.delivery_id_hash, identity.attempt_id_hash),
                ),
                table,
            ),
            BeginOperationView::Claim { fence, next_fence } => if !(i64::MIN <= expiry
                <= i64::MAX) {
                (BeginOutcomeView::Failed(circumstances.out_of_range), table)
            } else if table.dom().contains(key) && table[key].state == EffectState::Prepared
                && table[key].fence == fence {
                (
                    BeginOutcomeView::Affected(1),
                    table.insert(key, claimed(table[key], next_fence, expiry as i64)),
                )
            } else {
                (BeginOutcomeView::Affected(0), table)
            },
            BeginOperationView::CloseExpired => match circumstances.encode_failure {
                Some(error) => (BeginOutcomeView::EncodeFailed(error), table),
                None => if table.dom().contains(key) && has_expired(table[key], now) {
                    (
                        BeginOutcomeView::Affected(1),
                        table.insert(
                            key,
                            ended(table[key], DispatchResponseOutcome::DeliveryUnknown, expired),
                        ),
                    )
                } else {
                    (BeginOutcomeView::Affected(0), table)
                },
            },
            _ => (BeginOutcomeView::Done, table),
        },
    }
}

/// How a visit to the fence ends: what the caller gets, and the shared table.
#[verifier::ext_equal]
pub struct BeginEnd {
    pub result: Result<BeginDispatchView, StorageErrorView>,
    pub table: EffectTable,
}

/// How many operations are still to come, at most.
pub open spec fn operations_left(operation: BeginOperationView) -> nat {
    match operation {
        BeginOperationView::Open => 5,
        BeginOperationView::Insert => 4,
        BeginOperationView::Lock => 3,
        BeginOperationView::FindAttempt => 2,
        BeginOperationView::Claim { .. } => 2,
        BeginOperationView::CloseExpired => 2,
        BeginOperationView::RollBackCollision { .. } => 1,
        BeginOperationView::RollBackConflict => 1,
        BeginOperationView::Commit(_) => 1,
    }
}

/// The rest of a visit to the fence, from `operation` on: `working` is the transaction's table and
/// `shared` the one that all see.
pub open spec fn begin_from(
    operation: BeginOperationView,
    shared: EffectTable,
    working: EffectTable,
    identity: DispatchIdentityView,
    lease_ms: i64,
    expired: DispatchResponseView,
    circumstances: Circumstances,
) -> BeginEnd
    decreases operations_left(operation),
{
    let (outcome, after) = begin_answer(
        working,
        operation,
        identity,
        lease_ms,
        expired,
        circumstances,
    );
    match begin_next(operation, identity, expired, outcome) {
        BeginStepView::Perform(next) => begin_from(
            next,
            shared,
            after,
            identity,
            lease_ms,
            expired,
            circumstances,
        ),
        BeginStepView::Finish(result) => BeginEnd {
            result,
            table: if operation is Commit && (outcome is Done
                || circumstances.commit_takes_effect) {
                working
            } else {
                shared
            },
        },
    }
}

/// A visit to the fence.
pub open spec fn begin(
    table: EffectTable,
    identity: DispatchIdentityView,
    lease_ms: i64,
    expired: DispatchResponseView,
    circumstances: Circumstances,
) -> BeginEnd {
    begin_from(
        BeginOperationView::Open,
        table,
        table,
        identity,
        lease_ms,
        expired,
        circumstances,
    )
}

/// Every operation but the last brings the visit nearer to its end: it takes at most five.
pub proof fn every_visit_ends(
    operation: BeginOperationView,
    identity: DispatchIdentityView,
    expired: DispatchResponseView,
    outcome: BeginOutcomeView,
)
    requires
        outcome_fits(operation, outcome),
    ensures
        begin_next(operation, identity, expired, outcome) matches BeginStepView::Perform(next)
            ==> operations_left(next) < operations_left(operation) <= 5,
{
}

/// The columns of a row agree: a lease while the message is being submitted, a response of the
/// right outcome once the effect has ended, and a fence from the claim on.
pub open spec fn is_sound_record(record: EffectRecord) -> bool {
    match record.state {
        EffectState::Prepared => {
            &&& record.fence >= 0
            &&& record.lease_expires_at is None
            &&& record.response is None
        },
        EffectState::Sending => {
            &&& record.fence > 0
            &&& record.lease_expires_at is Some
            &&& record.response is None
        },
        EffectState::Ended(outcome) => {
            &&& record.fence > 0
            &&& record.lease_expires_at is None
            &&& record.response matches Some(response) && response.outcome == outcome
        },
    }
}

/// Every row is sound, and no two rows belong to one attempt.
pub open spec fn is_sound(table: EffectTable) -> bool {
    &&& forall|key: Seq<char>| #[trigger]
        table.dom().contains(key) ==> is_sound_record(table[key])
    &&& forall|left: Seq<char>, right: Seq<char>|
        #[trigger] table.dom().contains(left) && #[trigger] table.dom().contains(right)
            && is_of_attempt(
            table[left],
            table[right].delivery_id_hash,
            table[right].attempt_id_hash,
        ) ==> left == right
}

/// How a visit changes the table: not at all, or in the row of its key only. A new or a prepared
/// row is claimed; a row whose lease has run out is closed with `expired`.
pub open spec fn is_begin_change(
    before: EffectTable,
    after: EffectTable,
    identity: DispatchIdentityView,
    expired: DispatchResponseView,
) -> bool {
    let key = identity.idempotency_key_hash;
    ||| after == before
    ||| {
        &&& !before.dom().contains(key)
        &&& !attempt_is_taken(before, identity.delivery_id_hash, identity.attempt_id_hash)
        &&& exists|expiry: i64|
            after == before.insert(key, #[trigger] claimed(fresh_record(identity), 1, expiry))
    }
    ||| {
        &&& before.dom().contains(key)
        &&& before[key].state == EffectState::Prepared
        &&& before[key].fence < i64::MAX
        &&& before[key].request_fingerprint == identity.request_fingerprint
        &&& before[key].content_digest == identity.content_digest
        &&& exists|expiry: i64|
            after == before.insert(
                key,
                #[trigger] claimed(before[key], (before[key].fence + 1) as i64, expiry),
            )
    }
    ||| {
        &&& before.dom().contains(key)
        &&& before[key].state == EffectState::Sending
        &&& before[key].request_fingerprint == identity.request_fingerprint
        &&& before[key].content_digest == identity.content_digest
        &&& after == before.insert(
            key,
            ended(before[key], DispatchResponseOutcome::DeliveryUnknown, expired),
        )
    }
}

/// A visit changes the table in no other way than `is_begin_change` says.
pub proof fn a_visit_changes_its_own_row_only(
    table: EffectTable,
    identity: DispatchIdentityView,
    lease_ms: i64,
    expired: DispatchResponseView,
    circumstances: Circumstances,
)
    ensures
        is_begin_change(
            table,
            begin(table, identity, lease_ms, expired, circumstances).table,
            identity,
            expired,
        ),
{
    reveal_with_fuel(begin_from, 6);
    let key = identity.idempotency_key_hash;
    let seen = inserted(table, identity);
    if seen.dom().contains(key) {
        states_are_read_back(seen[key].state);
    }
    let fresh = fresh_record(identity);
    assert forall|expiry: i64| #[trigger]
        table.insert(key, fresh).insert(key, claimed(fresh, 1, expiry)) == table.insert(
            key,
            claimed(fresh, 1, expiry),
        ) by {
        assert(table.insert(key, fresh).insert(key, claimed(fresh, 1, expiry)) =~= table.insert(
            key,
            claimed(fresh, 1, expiry),
        ));
    }
}

/// What a caller is told to send under, a row now shows: it was new or prepared, and is `sending`
/// with the next fence.
pub proof fn a_sender_holds_its_row(
    table: EffectTable,
    identity: DispatchIdentityView,
    lease_ms: i64,
    expired: DispatchResponseView,
    circumstances: Circumstances,
)
    ensures
        ({
            let end = begin(table, identity, lease_ms, expired, circumstances);
            let key = identity.idempotency_key_hash;
            end.result matches Ok(BeginDispatchView::Send { fence }) ==> {
                &&& end.table.dom().contains(key)
                &&& end.table[key].state == EffectState::Sending
                &&& end.table[key].fence == fence
                &&& end.table[key].request_fingerprint == identity.request_fingerprint
                &&& end.table[key].content_digest == identity.content_digest
                &&& if table.dom().contains(key) {
                    table[key].state == EffectState::Prepared && fence == table[key].fence + 1
                } else {
                    fence == 1 && is_of_attempt(
                        end.table[key],
                        identity.delivery_id_hash,
                        identity.attempt_id_hash,
                    ) && !attempt_is_taken(
                        table,
                        identity.delivery_id_hash,
                        identity.attempt_id_hash,
                    )
                }
            }
        }),
{
    reveal_with_fuel(begin_from, 6);
    let key = identity.idempotency_key_hash;
    let seen = inserted(table, identity);
    if seen.dom().contains(key) {
        states_are_read_back(seen[key].state);
    }
}

/// A visit that ends in an error leaves the table as it was, unless the commit itself failed and
/// took effect all the same.
pub proof fn a_failed_visit_changes_nothing(
    table: EffectTable,
    identity: DispatchIdentityView,
    lease_ms: i64,
    expired: DispatchResponseView,
    circumstances: Circumstances,
)
    requires
        !circumstances.commit_takes_effect,
    ensures
        ({
            let end = begin(table, identity, lease_ms, expired, circumstances);
            end.result is Err ==> end.table == table
        }),
{
    reveal_with_fuel(begin_from, 6);
}

/// No operation fails, and the clock does not run backwards.
pub open spec fn is_smooth(circumstances: Circumstances) -> bool {
    &&& forall|operation: BeginOperationView| #[trigger]
        (circumstances.failure)(operation) is None
    &&& circumstances.encode_failure is None
    &&& (circumstances.clock)(BeginOperationView::Lock) <= (circumstances.clock)(
        BeginOperationView::CloseExpired,
    )
}

/// When a lease ends that starts with the claim of a row under `fence`.
pub open spec fn lease_end(circumstances: Circumstances, lease_ms: i64, fence: i64) -> int {
    (circumstances.clock)(
        BeginOperationView::Claim { fence, next_fence: (fence + 1) as i64 },
    ) + lease_ms * 1000
}

/// The lease ends at a time that can be stored.
pub open spec fn lease_fits(circumstances: Circumstances, lease_ms: i64, fence: i64) -> bool {
    i64::MIN <= lease_end(circumstances, lease_ms, fence) <= i64::MAX
}

/// The row holds the content of the identity.
pub open spec fn holds_content_of(record: EffectRecord, identity: DispatchIdentityView) -> bool {
    record.request_fingerprint == identity.request_fingerprint && record.content_digest
        == identity.content_digest
}

/// What the caller gets, and the row that is left, when nothing fails.
pub open spec fn smooth_begin(
    table: EffectTable,
    identity: DispatchIdentityView,
    lease_ms: i64,
    expired: DispatchResponseView,
    circumstances: Circumstances,
) -> BeginEnd {
    let key = identity.idempotency_key_hash;
    let now = (circumstances.clock)(BeginOperationView::Lock);
    if !table.dom().contains(key) {
        if attempt_is_taken(table, identity.delivery_id_hash, identity.attempt_id_hash) {
            BeginEnd { result: Err(StorageErrorView::Conflict), table }
        } else {
            BeginEnd {
                result: Ok(BeginDispatchView::Send { fence: 1 }),
                table: table.insert(
                    key,
                    claimed(
                        fresh_record(identity),
                        1,
                        lease_end(circumstances, lease_ms, 0) as i64,
                    ),
                ),
            }
        }
    } else if !holds_content_of(table[key], identity) {
        BeginEnd { result: Err(StorageErrorView::Conflict), table }
    } else {
        match table[key].state {
            EffectState::Prepared => {
                let fence = table[key].fence;
                BeginEnd {
                    result: Ok(BeginDispatchView::Send { fence: (fence + 1) as i64 }),
                    table: table.insert(
                        key,
                        claimed(
                            table[key],
                            (fence + 1) as i64,
                            lease_end(circumstances, lease_ms, fence) as i64,
                        ),
                    ),
                }
            },
            EffectState::Sending => {
                let expiry = table[key].lease_expires_at->0;
                if expiry <= now {
                    BeginEnd {
                        result: Ok(BeginDispatchView::Replay(expired)),
                        table: table.insert(
                            key,
                            ended(table[key], DispatchResponseOutcome::DeliveryUnknown, expired),
                        ),
                    }
                } else {
                    BeginEnd {
                        result: Ok(
                            BeginDispatchView::InFlight {
                                remaining_ms: milliseconds_until(expiry, now) as i64,
                            },
                        ),
                        table,
                    }
                }
            },
            EffectState::Ended(_) => BeginEnd {
                result: Ok(BeginDispatchView::Replay(table[key].response->0)),
                table,
            },
        }
    }
}

/// When nothing fails, a visit to a sound table ends as `smooth_begin` says: a new attempt is
/// sent, other content or another key for the attempt is a conflict, a running effect is in
/// flight, one whose lease has run out is closed as unknown, and an ended one is replayed.
pub proof fn a_smooth_visit_does_what_the_row_calls_for(
    table: EffectTable,
    identity: DispatchIdentityView,
    lease_ms: i64,
    expired: DispatchResponseView,
    circumstances: Circumstances,
)
    requires
        is_sound(table),
        is_smooth(circumstances),
        ({
            let key = identity.idempotency_key_hash;
            if table.dom().contains(key) {
                table[key].state == EffectState::Prepared ==> table[key].fence < i64::MAX
                    && lease_fits(circumstances, lease_ms, table[key].fence)
            } else {
                lease_fits(circumstances, lease_ms, 0)
            }
        }),
    ensures
        begin(table, identity, lease_ms, expired, circumstances) == smooth_begin(
            table,
            identity,
            lease_ms,
            expired,
            circumstances,
        ),
{
    reveal_with_fuel(begin_from, 6);
    let key = identity.idempotency_key_hash;
    let seen = inserted(table, identity);
    if seen.dom().contains(key) {
        states_are_read_back(seen[key].state);
    }
    let end = begin(table, identity, lease_ms, expired, circumstances);
    let smooth = smooth_begin(table, identity, lease_ms, expired, circumstances);
    assert(end.result == smooth.result);
    assert(end.table =~= smooth.table);
}

/// What finalization meets beside the table.
pub struct FinalizeCircumstances {
    /// The error with which the response fails to encode, if it does.
    pub encode_failure: Option<Seq<char>>,
    /// The error with which recording the response fails, if it does.
    pub failure: Option<Seq<char>>,
    /// Whether a statement that reports a failure has taken effect all the same.
    pub failure_takes_effect: bool,
    /// The error with which reading the row back fails, if it does.
    pub read_failure: Option<Seq<char>>,
    /// The database's clock when the row is read back.
    pub read_clock: i64,
    /// How a missing value is reported.
    pub missing: Seq<char>,
}

/// The effect of `FINALIZE_EFFECT`: only the holder of the row's fence closes it.
pub open spec fn recorded(
    table: EffectTable,
    key: Seq<char>,
    fence: i64,
    response: DispatchResponseView,
) -> EffectTable {
    if holds_fence(table, key, fence) {
        table.insert(key, ended(table[key], response.outcome, response))
    } else {
        table
    }
}

/// The row is being sent under this fence.
pub open spec fn holds_fence(table: EffectTable, key: Seq<char>, fence: i64) -> bool {
    table.dom().contains(key) && table[key].state == EffectState::Sending && table[key].fence
        == fence
}

/// What the database answers when the response is recorded, and the table afterwards.
pub open spec fn record_answer(
    table: EffectTable,
    key: Seq<char>,
    fence: i64,
    response: DispatchResponseView,
    circumstances: FinalizeCircumstances,
) -> (FinalizeOutcomeView, EffectTable) {
    match (circumstances.encode_failure, circumstances.failure) {
        (Some(error), _) => (FinalizeOutcomeView::EncodeFailed(error), table),
        (None, Some(error)) => (
            FinalizeOutcomeView::Failed(error),
            if circumstances.failure_takes_effect {
                recorded(table, key, fence, response)
            } else {
                table
            },
        ),
        (None, None) => (
            FinalizeOutcomeView::Affected(
                if holds_fence(table, key, fence) {
                    1
                } else {
                    0
                },
            ),
            recorded(table, key, fence, response),
        ),
    }
}

/// What a lease still has at the time `now`: its microseconds, rounded to milliseconds, and never
/// less than none. Without a lease there is none either.
pub open spec fn time_left(lease_expires_at: Option<i64>, now: i64) -> int {
    match lease_expires_at {
        Some(expiry) => if expiry <= now {
            0
        } else {
            (expiry - now + 500) / 1000
        },
        None => 0,
    }
}

/// What `READ_EFFECT` gives of a table at the time `now`.
pub open spec fn read_answer(
    table: EffectTable,
    key: Seq<char>,
    failure: Option<Seq<char>>,
    now: i64,
    missing: Seq<char>,
) -> Result<Option<StatusRowView>, Seq<char>> {
    match failure {
        Some(error) => Err(error),
        None => if table.dom().contains(key) {
            Ok(
                Some(
                    StatusRowView {
                        state: Ok(state_text(table[key].state)),
                        response: stored(table[key].response, missing),
                        remaining_ms: Ok(time_left(table[key].lease_expires_at, now) as i64),
                    },
                ),
            )
        } else {
            Ok(None)
        },
    }
}

/// The table after finalization.
pub open spec fn finalized(
    table: EffectTable,
    key: Seq<char>,
    fence: i64,
    response: DispatchResponseView,
    circumstances: FinalizeCircumstances,
) -> EffectTable {
    record_answer(table, key, fence, response, circumstances).1
}

/// What finalization gives. Where the response was not recorded, the row is read back from a
/// table that others may have worked on since: `seen`.
pub open spec fn finalize_result(
    table: EffectTable,
    seen: EffectTable,
    key: Seq<char>,
    fence: i64,
    response: DispatchResponseView,
    circumstances: FinalizeCircumstances,
) -> Result<DispatchResponseView, StorageErrorView> {
    let (outcome, _) = record_answer(table, key, fence, response, circumstances);
    let read = read_answer(
        seen,
        key,
        circumstances.read_failure,
        circumstances.read_clock,
        circumstances.missing,
    );
    match finalize_next(response, outcome) {
        FinalizeStepView::Finish(result) => result,
        FinalizeStepView::Perform(_) => finalize_next(
            response,
            FinalizeOutcomeView::Status(status_of(read)),
        )->Finish_0,
    }
}

/// Something that is done to the shared table.
pub enum StorageEvent {
    Begin {
        identity: DispatchIdentityView,
        lease_ms: i64,
        expired: DispatchResponseView,
        circumstances: Circumstances,
    },
    Finalize {
        key: Seq<char>,
        fence: i64,
        response: DispatchResponseView,
        circumstances: FinalizeCircumstances,
    },
    /// A look at the row of the key.
    Read { key: Seq<char> },
}

/// The table after one event.
pub open spec fn after_event(table: EffectTable, event: StorageEvent) -> EffectTable {
    match event {
        StorageEvent::Begin { identity, lease_ms, expired, circumstances } => begin(
            table,
            identity,
            lease_ms,
            expired,
            circumstances,
        ).table,
        StorageEvent::Finalize { key, fence, response, circumstances } => finalized(
            table,
            key,
            fence,
            response,
            circumstances,
        ),
        StorageEvent::Read { .. } => table,
    }
}

/// The table after the events of a history, one after the other.
pub open spec fn table_after(table: EffectTable, history: Seq<StorageEvent>) -> EffectTable
    decreases history.len(),
{
    if history.len() == 0 {
        table
    } else {
        after_event(table_after(table, history.drop_last()), history.last())
    }
}

/// The event closes expired effects as unknown.
pub open spec fn closes_as_unknown(event: StorageEvent) -> bool {
    event matches StorageEvent::Begin { expired, .. } ==> expired.outcome
        == DispatchResponseOutcome::DeliveryUnknown
}

/// How a row may change: its identity stays, its fence does not fall, an ended row stays as it
/// is, and a row that is being sent is not prepared again.
pub open spec fn advances(before: EffectRecord, after: EffectRecord) -> bool {
    &&& is_of_attempt(after, before.delivery_id_hash, before.attempt_id_hash)
    &&& after.request_fingerprint == before.request_fingerprint
    &&& after.content_digest == before.content_digest
    &&& before.fence <= after.fence
    &&& before.state is Ended ==> after == before
    &&& before.state == EffectState::Sending ==> after.state != EffectState::Prepared
        && after.fence == before.fence
}

/// A row that the table has, it keeps, and the row only advances.
pub open spec fn keeps_row(before: EffectTable, after: EffectTable, key: Seq<char>) -> bool {
    before.dom().contains(key) ==> after.dom().contains(key) && advances(before[key], after[key])
}

proof fn an_event_keeps_rows(table: EffectTable, event: StorageEvent, key: Seq<char>)
    ensures
        keeps_row(table, after_event(table, event), key),
{
    match event {
        StorageEvent::Begin { identity, lease_ms, expired, circumstances } => {
            a_visit_changes_its_own_row_only(table, identity, lease_ms, expired, circumstances);
        },
        StorageEvent::Finalize { .. } => {},
        StorageEvent::Read { .. } => {},
    }
}

/// Whatever happens, rows stay and only advance: no row is removed, no identity changes, no fence
/// falls, and an ended row keeps its response for ever.
pub proof fn rows_only_advance(table: EffectTable, history: Seq<StorageEvent>, key: Seq<char>)
    ensures
        keeps_row(table, table_after(table, history), key),
    decreases history.len(),
{
    if history.len() > 0 {
        let front = history.drop_last();
        rows_only_advance(table, front, key);
        an_event_keeps_rows(table_after(table, front), history.last(), key);
    }
}

proof fn an_event_keeps_soundness(table: EffectTable, event: StorageEvent)
    requires
        is_sound(table),
        closes_as_unknown(event),
    ensures
        is_sound(after_event(table, event)),
{
    let after = after_event(table, event);
    match event {
        StorageEvent::Begin { identity, lease_ms, expired, circumstances } => {
            a_visit_changes_its_own_row_only(table, identity, lease_ms, expired, circumstances);
            let key = identity.idempotency_key_hash;
            assert forall|left: Seq<char>, right: Seq<char>|
                #[trigger] after.dom().contains(left) && #[trigger] after.dom().contains(right)
                    && is_of_attempt(
                    after[left],
                    after[right].delivery_id_hash,
                    after[right].attempt_id_hash,
                ) implies left == right by {
                if !table.dom().contains(key) && left != right {
                    if left == key {
                        assert(table.dom().contains(right));
                    } else if right == key {
                        assert(table.dom().contains(left));
                    } else {
                        assert(table.dom().contains(left) && table.dom().contains(right));
                    }
                } else {
                    assert(table.dom().contains(left) || left == key);
                    assert(table.dom().contains(right) || right == key);
                }
            }
            assert forall|k: Seq<char>| #[trigger] after.dom().contains(k) implies is_sound_record(
                after[k],
            ) by {
                assert(table.dom().contains(k) || k == key);
            }
        },
        StorageEvent::Finalize { key, .. } => {
            assert forall|k: Seq<char>| #[trigger] after.dom().contains(k) implies is_sound_record(
                after[k],
            ) by {
                assert(table.dom().contains(k));
            }
            assert forall|left: Seq<char>, right: Seq<char>|
                #[trigger] after.dom().contains(left) && #[trigger] after.dom().contains(right)
                    && is_of_attempt(
                    after[left],
                    after[right].delivery_id_hash,
                    after[right].attempt_id_hash,
                ) implies left == right by {
                assert(table.dom().contains(left) && table.dom().contains(right));
            }
        },
        StorageEvent::Read { .. } => {},
    }
}

/// Whatever happens, the table stays sound.
pub proof fn the_table_stays_sound(table: EffectTable, history: Seq<StorageEvent>)
    requires
        is_sound(table),
        forall|i: int| 0 <= i < history.len() ==> closes_as_unknown(#[trigger] history[i]),
    ensures
        is_sound(table_after(table, history)),
    decreases history.len(),
{
    if history.len() > 0 {
        let front = history.drop_last();
        assert forall|i: int| 0 <= i < front.len() implies closes_as_unknown(
            #[trigger] front[i],
        ) by {
            assert(front[i] == history[i]);
        }
        the_table_stays_sound(table, front);
        an_event_keeps_soundness(table_after(table, front), history.last());
    }
}

/// No row is left prepared.
pub open spec fn has_none_prepared(table: EffectTable) -> bool {
    forall|key: Seq<char>| #[trigger]
        table.dom().contains(key) ==> table[key].state != EffectState::Prepared
}

/// Whatever happens, no row is left prepared: a row that a visit creates, it also claims.
pub proof fn no_row_is_left_prepared(table: EffectTable, history: Seq<StorageEvent>)
    requires
        has_none_prepared(table),
    ensures
        has_none_prepared(table_after(table, history)),
    decreases history.len(),
{
    if history.len() > 0 {
        let before = table_after(table, history.drop_last());
        let after = table_after(table, history);
        no_row_is_left_prepared(table, history.drop_last());
        match history.last() {
            StorageEvent::Begin { identity, lease_ms, expired, circumstances } => {
                a_visit_changes_its_own_row_only(
                    before,
                    identity,
                    lease_ms,
                    expired,
                    circumstances,
                );
                assert forall|key: Seq<char>| #[trigger]
                    after.dom().contains(key) implies after[key].state != EffectState::Prepared by {
                    assert(before.dom().contains(key) || key == identity.idempotency_key_hash);
                }
            },
            StorageEvent::Finalize { .. } => {
                assert forall|key: Seq<char>| #[trigger]
                    after.dom().contains(key) implies after[key].state != EffectState::Prepared by {
                    assert(before.dom().contains(key));
                }
            },
            StorageEvent::Read { .. } => {},
        }
    }
}

/// The `index`-th event of a history is a visit for `identity` that tells the caller to send.
pub open spec fn sends_at(
    table: EffectTable,
    history: Seq<StorageEvent>,
    index: int,
    identity: DispatchIdentityView,
) -> bool {
    &&& 0 <= index < history.len()
    &&& history[index] matches StorageEvent::Begin {
        identity: visitor,
        lease_ms,
        expired,
        circumstances,
    } && visitor == identity && (begin(
        table_after(table, history.take(index)),
        identity,
        lease_ms,
        expired,
        circumstances,
    ).result matches Ok(BeginDispatchView::Send { .. }))
}

proof fn histories_join(table: EffectTable, first: Seq<StorageEvent>, second: Seq<StorageEvent>)
    ensures
        table_after(table, first + second) == table_after(table_after(table, first), second),
    decreases second.len(),
{
    if second.len() == 0 {
        assert(first + second =~= first);
    } else {
        assert((first + second).drop_last() =~= first + second.drop_last());
        assert((first + second).last() == second.last());
        histories_join(table, first, second.drop_last());
    }
}

/// What the table has become between two points of a history.
proof fn rows_advance_between(
    table: EffectTable,
    history: Seq<StorageEvent>,
    from: int,
    to: int,
    key: Seq<char>,
)
    requires
        0 <= from <= to <= history.len(),
    ensures
        keeps_row(
            table_after(table, history.take(from)),
            table_after(table, history.take(to)),
            key,
        ),
{
    let middle = history.subrange(from, to);
    assert(history.take(to) =~= history.take(from) + middle);
    histories_join(table, history.take(from), middle);
    rows_only_advance(table_after(table, history.take(from)), middle, key);
}

proof fn after_the_visit(table: EffectTable, history: Seq<StorageEvent>, index: int)
    requires
        0 <= index < history.len(),
    ensures
        table_after(table, history.take(index + 1)) == after_event(
            table_after(table, history.take(index)),
            history[index],
        ),
{
    assert(history.take(index + 1).drop_last() =~= history.take(index));
    assert(history.take(index + 1).last() == history[index]);
}

/// A key is sent once: whatever happens, at most one visit for an idempotency key is ever told to
/// send.
pub proof fn a_key_is_sent_at_most_once(
    table: EffectTable,
    history: Seq<StorageEvent>,
    earlier: int,
    first: DispatchIdentityView,
    later: int,
    second: DispatchIdentityView,
)
    requires
        earlier < later,
        first.idempotency_key_hash == second.idempotency_key_hash,
        sends_at(table, history, earlier, first),
    ensures
        !sends_at(table, history, later, second),
{
    if sends_at(table, history, later, second) {
        let key = first.idempotency_key_hash;
        match (history[earlier], history[later]) {
            (
                StorageEvent::Begin { lease_ms: l1, expired: e1, circumstances: c1, .. },
                StorageEvent::Begin { lease_ms: l2, expired: e2, circumstances: c2, .. },
            ) => {
                let before = table_after(table, history.take(earlier));
                a_sender_holds_its_row(before, first, l1, e1, c1);
                after_the_visit(table, history, earlier);
                rows_advance_between(table, history, earlier + 1, later, key);
                a_sender_holds_its_row(table_after(table, history.take(later)), second, l2, e2, c2);
            },
            _ => {},
        }
    }
}

/// An attempt is sent once: whatever happens to a table without prepared rows, at most one visit
/// for a delivery and attempt is ever told to send, whatever its idempotency key.
pub proof fn an_attempt_is_sent_at_most_once(
    table: EffectTable,
    history: Seq<StorageEvent>,
    earlier: int,
    first: DispatchIdentityView,
    later: int,
    second: DispatchIdentityView,
)
    requires
        has_none_prepared(table),
        earlier < later,
        first.delivery_id_hash == second.delivery_id_hash,
        first.attempt_id_hash == second.attempt_id_hash,
        sends_at(table, history, earlier, first),
    ensures
        !sends_at(table, history, later, second),
{
    if sends_at(table, history, later, second) {
        let key = first.idempotency_key_hash;
        no_row_is_left_prepared(table, history.take(earlier));
        no_row_is_left_prepared(table, history.take(later));
        match (history[earlier], history[later]) {
            (
                StorageEvent::Begin { lease_ms: l1, expired: e1, circumstances: c1, .. },
                StorageEvent::Begin { lease_ms: l2, expired: e2, circumstances: c2, .. },
            ) => {
                let before = table_after(table, history.take(earlier));
                a_sender_holds_its_row(before, first, l1, e1, c1);
                after_the_visit(table, history, earlier);
                rows_advance_between(table, history, earlier + 1, later, key);
                let reached = table_after(table, history.take(later));
                assert(reached.dom().contains(key) && is_of_attempt(
                    reached[key],
                    second.delivery_id_hash,
                    second.attempt_id_hash,
                ));
                a_sender_holds_its_row(reached, second, l2, e2, c2);
            },
            _ => {},
        }
    }
}

/// The holder of the fence closes the effect with its response, and gets that response back.
pub proof fn the_holder_finalizes(
    table: EffectTable,
    seen: EffectTable,
    key: Seq<char>,
    fence: i64,
    response: DispatchResponseView,
    circumstances: FinalizeCircumstances,
)
    requires
        holds_fence(table, key, fence),
        circumstances.encode_failure is None,
        circumstances.failure is None,
    ensures
        finalize_result(table, seen, key, fence, response, circumstances) == Ok::<
            DispatchResponseView,
            StorageErrorView,
        >(response),
        finalized(table, key, fence, response, circumstances) == table.insert(
            key,
            ended(table[key], response.outcome, response),
        ),
{
}

/// A stale sender changes nothing: finalization under a fence that the row is not being sent under
/// leaves the table as it was.
pub proof fn a_stale_sender_changes_nothing(
    table: EffectTable,
    key: Seq<char>,
    fence: i64,
    response: DispatchResponseView,
    circumstances: FinalizeCircumstances,
)
    requires
        !holds_fence(table, key, fence),
    ensures
        finalized(table, key, fence, response, circumstances) == table,
{
}

/// A stale sender is told how the effect has ended, not how it would have ended it: whatever
/// others do before it reads the row back, it gets the stored response.
pub proof fn a_stale_sender_gets_the_stored_response(
    table: EffectTable,
    history: Seq<StorageEvent>,
    key: Seq<char>,
    fence: i64,
    response: DispatchResponseView,
    circumstances: FinalizeCircumstances,
)
    requires
        is_sound(table),
        table.dom().contains(key),
        table[key].state is Ended,
        circumstances.encode_failure is None,
        circumstances.failure is None,
        circumstances.read_failure is None,
    ensures
        finalize_result(
            table,
            table_after(table, history),
            key,
            fence,
            response,
            circumstances,
        ) == Ok::<DispatchResponseView, StorageErrorView>(table[key].response->0),
{
    rows_only_advance(table, history, key);
    states_are_read_back(table[key].state);
    reveal_strlit("sending");
    assert(state_text(table[key].state) != "sending"@);
}

/// An ended effect is replayed for ever: whatever happens after it has ended with `response`, a
/// visit with the same content, when nothing fails, gets that response and changes nothing.
pub proof fn an_ended_effect_is_replayed(
    table: EffectTable,
    history: Seq<StorageEvent>,
    identity: DispatchIdentityView,
    lease_ms: i64,
    expired: DispatchResponseView,
    circumstances: Circumstances,
)
    requires
        is_sound(table),
        forall|i: int| 0 <= i < history.len() ==> closes_as_unknown(#[trigger] history[i]),
        table.dom().contains(identity.idempotency_key_hash),
        table[identity.idempotency_key_hash].state is Ended,
        holds_content_of(table[identity.idempotency_key_hash], identity),
        is_smooth(circumstances),
    ensures
        ({
            let reached = table_after(table, history);
            let end = begin(reached, identity, lease_ms, expired, circumstances);
            &&& end.table == reached
            &&& end.result == Ok::<BeginDispatchView, StorageErrorView>(
                BeginDispatchView::Replay(table[identity.idempotency_key_hash].response->0),
            )
        }),
{
    the_table_stays_sound(table, history);
    rows_only_advance(table, history, identity.idempotency_key_hash);
    a_smooth_visit_does_what_the_row_calls_for(
        table_after(table, history),
        identity,
        lease_ms,
        expired,
        circumstances,
    );
}

/// Reusing an identity for other content is a conflict for ever: once a key has a row, a visit
/// with another fingerprint or another content digest, when nothing fails, is refused and changes
/// nothing.
pub proof fn other_content_is_a_conflict(
    table: EffectTable,
    history: Seq<StorageEvent>,
    identity: DispatchIdentityView,
    lease_ms: i64,
    expired: DispatchResponseView,
    circumstances: Circumstances,
)
    requires
        is_sound(table),
        forall|i: int| 0 <= i < history.len() ==> closes_as_unknown(#[trigger] history[i]),
        table.dom().contains(identity.idempotency_key_hash),
        !holds_content_of(table[identity.idempotency_key_hash], identity),
        is_smooth(circumstances),
    ensures
        ({
            let reached = table_after(table, history);
            begin(reached, identity, lease_ms, expired, circumstances) == BeginEnd {
                result: Err(StorageErrorView::Conflict),
                table: reached,
            }
        }),
{
    reveal_with_fuel(begin_from, 6);
    rows_only_advance(table, history, identity.idempotency_key_hash);
}

/// A second key cannot reopen an attempt: once an attempt has a row, a visit under a key that has
/// none, when nothing fails, is refused and changes nothing.
pub proof fn a_second_key_is_a_conflict(
    table: EffectTable,
    identity: DispatchIdentityView,
    lease_ms: i64,
    expired: DispatchResponseView,
    circumstances: Circumstances,
)
    requires
        !table.dom().contains(identity.idempotency_key_hash),
        attempt_is_taken(table, identity.delivery_id_hash, identity.attempt_id_hash),
        is_smooth(circumstances),
    ensures
        begin(table, identity, lease_ms, expired, circumstances) == (BeginEnd {
            result: Err(StorageErrorView::Conflict),
            table,
        }),
{
    reveal_with_fuel(begin_from, 6);
}

/// What the sender finalizes with, everyone is told: after the holder of the fence has recorded a
/// response, a visit with the same content, when nothing fails, replays that response.
pub proof fn a_recorded_response_is_replayed(
    table: EffectTable,
    history: Seq<StorageEvent>,
    identity: DispatchIdentityView,
    fence: i64,
    response: DispatchResponseView,
    finalize_circumstances: FinalizeCircumstances,
    lease_ms: i64,
    expired: DispatchResponseView,
    circumstances: Circumstances,
)
    requires
        is_sound(table),
        holds_fence(table, identity.idempotency_key_hash, fence),
        holds_content_of(table[identity.idempotency_key_hash], identity),
        finalize_circumstances.encode_failure is None,
        finalize_circumstances.failure is None,
        forall|i: int| 0 <= i < history.len() ==> closes_as_unknown(#[trigger] history[i]),
        is_smooth(circumstances),
    ensures
        ({
            let closed = finalized(
                table,
                identity.idempotency_key_hash,
                fence,
                response,
                finalize_circumstances,
            );
            begin(table_after(closed, history), identity, lease_ms, expired, circumstances).result
                == Ok::<BeginDispatchView, StorageErrorView>(BeginDispatchView::Replay(response))
        }),
{
    let key = identity.idempotency_key_hash;
    let event = StorageEvent::Finalize {
        key,
        fence,
        response,
        circumstances: finalize_circumstances,
    };
    an_event_keeps_soundness(table, event);
    an_ended_effect_is_replayed(
        after_event(table, event),
        history,
        identity,
        lease_ms,
        expired,
        circumstances,
    );
}

/// A sender that is never heard of again is not followed by another: once the lease of a row has
/// run out, the next visit, when nothing fails, records and replays `expired`, and the late sender
/// can no longer change that.
pub proof fn a_lost_sender_leaves_the_delivery_unknown(
    table: EffectTable,
    identity: DispatchIdentityView,
    lease_ms: i64,
    expired: DispatchResponseView,
    circumstances: Circumstances,
    fence: i64,
    response: DispatchResponseView,
    finalize_circumstances: FinalizeCircumstances,
)
    requires
        is_sound(table),
        table.dom().contains(identity.idempotency_key_hash),
        holds_content_of(table[identity.idempotency_key_hash], identity),
        has_expired(
            table[identity.idempotency_key_hash],
            (circumstances.clock)(BeginOperationView::Lock),
        ),
        expired.outcome == DispatchResponseOutcome::DeliveryUnknown,
        is_smooth(circumstances),
    ensures
        ({
            let key = identity.idempotency_key_hash;
            let end = begin(table, identity, lease_ms, expired, circumstances);
            &&& end.result == Ok::<BeginDispatchView, StorageErrorView>(
                BeginDispatchView::Replay(expired),
            )
            &&& end.table == table.insert(
                key,
                ended(table[key], DispatchResponseOutcome::DeliveryUnknown, expired),
            )
            &&& finalized(end.table, key, fence, response, finalize_circumstances) == end.table
        }),
{
    a_smooth_visit_does_what_the_row_calls_for(
        table,
        identity,
        lease_ms,
        expired,
        circumstances,
    );
}

/// Every column that stands for something of the request is a digest.
pub open spec fn shows_digests(identity: DispatchIdentityView) -> bool {
    &&& is_digest(identity.idempotency_key_hash)
    &&& is_digest(identity.delivery_id_hash)
    &&& is_digest(identity.attempt_id_hash)
    &&& is_digest(identity.request_fingerprint)
    &&& is_digest(identity.content_digest)
}

/// The table holds nothing of any request but digests.
pub open spec fn holds_digests_only(table: EffectTable) -> bool {
    forall|key: Seq<char>| #[trigger]
        table.dom().contains(key) ==> shows_digests(
            DispatchIdentityView {
                idempotency_key_hash: key,
                delivery_id_hash: table[key].delivery_id_hash,
                attempt_id_hash: table[key].attempt_id_hash,
                request_fingerprint: table[key].request_fingerprint,
                content_digest: table[key].content_digest,
            },
        )
}

/// As long as every visitor is known by digests, the table holds nothing else of a request.
pub proof fn the_table_holds_digests_only(table: EffectTable, history: Seq<StorageEvent>)
    requires
        holds_digests_only(table),
        forall|i: int|
            0 <= i < history.len() ==> ((#[trigger] history[i]) matches StorageEvent::Begin {
                identity,
                ..
            } ==> shows_digests(identity)),
    ensures
        holds_digests_only(table_after(table, history)),
    decreases history.len(),
{
    if history.len() > 0 {
        let front = history.drop_last();
        let before = table_after(table, front);
        let after = table_after(table, history);
        assert forall|i: int| 0 <= i < front.len() implies ((
        #[trigger] front[i]) matches StorageEvent::Begin { identity, .. } ==> shows_digests(
            identity,
        )) by {
            assert(front[i] == history[i]);
        }
        the_table_holds_digests_only(table, front);
        match history.last() {
            StorageEvent::Begin { identity, lease_ms, expired, circumstances } => {
                a_visit_changes_its_own_row_only(
                    before,
                    identity,
                    lease_ms,
                    expired,
                    circumstances,
                );
                assert forall|key: Seq<char>| #[trigger]
                    after.dom().contains(key) implies shows_digests(
                    DispatchIdentityView {
                        idempotency_key_hash: key,
                        delivery_id_hash: after[key].delivery_id_hash,
                        attempt_id_hash: after[key].attempt_id_hash,
                        request_fingerprint: after[key].request_fingerprint,
                        content_digest: after[key].content_digest,
                    },
                ) by {
                    assert(before.dom().contains(key) || key == identity.idempotency_key_hash);
                    assert(history[history.len() - 1] == history.last());
                }
            },
            StorageEvent::Finalize { .. } => {
                assert forall|key: Seq<char>| #[trigger]
                    after.dom().contains(key) implies shows_digests(
                    DispatchIdentityView {
                        idempotency_key_hash: key,
                        delivery_id_hash: after[key].delivery_id_hash,
                        attempt_id_hash: after[key].attempt_id_hash,
                        request_fingerprint: after[key].request_fingerprint,
                        content_digest: after[key].content_digest,
                    },
                ) by {
                    assert(before.dom().contains(key));
                }
            },
            StorageEvent::Read { .. } => {},
        }
    }
}

/// The effect of this key has ended with this response.
pub open spec fn is_ended_with(
    table: EffectTable,
    key: Seq<char>,
    response: DispatchResponseView,
) -> bool {
    &&& table.dom().contains(key)
    &&& table[key].state is Ended
    &&& table[key].response == Some(response)
}

/// What a visit replays is how the effect has ended.
pub proof fn a_replay_tells_the_end(
    table: EffectTable,
    identity: DispatchIdentityView,
    lease_ms: i64,
    expired: DispatchResponseView,
    circumstances: Circumstances,
)
    ensures
        ({
            let end = begin(table, identity, lease_ms, expired, circumstances);
            end.result matches Ok(BeginDispatchView::Replay(response)) ==> is_ended_with(
                end.table,
                identity.idempotency_key_hash,
                response,
            )
        }),
{
    reveal_with_fuel(begin_from, 6);
    let key = identity.idempotency_key_hash;
    let seen = inserted(table, identity);
    if seen.dom().contains(key) {
        states_are_read_back(seen[key].state);
    }
}

/// What finalization gives is how the effect has ended, whoever has ended it.
pub proof fn finalization_tells_the_end(
    table: EffectTable,
    history: Seq<StorageEvent>,
    key: Seq<char>,
    fence: i64,
    response: DispatchResponseView,
    circumstances: FinalizeCircumstances,
)
    requires
        is_sound(table),
        forall|i: int| 0 <= i < history.len() ==> closes_as_unknown(#[trigger] history[i]),
    ensures
        ({
            let recorded = finalized(table, key, fence, response, circumstances);
            let seen = table_after(recorded, history);
            finalize_result(table, seen, key, fence, response, circumstances) matches Ok(told)
                ==> is_ended_with(seen, key, told)
        }),
{
    let event = StorageEvent::Finalize { key, fence, response, circumstances };
    let recorded = finalized(table, key, fence, response, circumstances);
    let seen = table_after(recorded, history);
    an_event_keeps_soundness(table, event);
    the_table_stays_sound(recorded, history);
    rows_only_advance(recorded, history, key);
    if seen.dom().contains(key) {
        states_are_read_back(seen[key].state);
    }
}

/// What a read of a sound table at the time `now` tells, when it does not fail.
pub open spec fn status_at(
    table: EffectTable,
    key: Seq<char>,
    now: i64,
    missing: Seq<char>,
) -> Result<EffectStatusView, StorageErrorView> {
    status_of(read_answer(table, key, None, now, missing))
}

/// A lease never has less than nothing left, and it has nothing left once it has run out.
pub proof fn the_time_left_is_never_negative(lease_expires_at: Option<i64>, now: i64)
    ensures
        0 <= time_left(lease_expires_at, now) <= i64::MAX,
        lease_expires_at matches Some(expiry) && expiry <= now ==> time_left(
            lease_expires_at,
            now,
        ) == 0,
{
}

/// What a waiting caller reads of a sound table: how the effect has ended, or, while it is still
/// being sent, the time that its lease has left, even past the lease. A key without a row, or with
/// one that is only prepared, is a failure of the plugin. The read changes nothing.
pub proof fn a_read_tells_the_state(
    table: EffectTable,
    key: Seq<char>,
    now: i64,
    missing: Seq<char>,
)
    requires
        is_sound(table),
    ensures
        ({
            let status = status_at(table, key, now, missing);
            if !table.dom().contains(key) {
                status matches Err(StorageErrorView::Runtime(_))
            } else {
                match table[key].state {
                    EffectState::Ended(_) => status == Ok::<EffectStatusView, StorageErrorView>(
                        EffectStatusView::Final(table[key].response->0),
                    ),
                    EffectState::Sending => status matches Ok(
                        EffectStatusView::InFlight { remaining_ms },
                    ) && remaining_ms == time_left(table[key].lease_expires_at, now)
                        && remaining_ms >= 0 && (table[key].lease_expires_at->0 <= now
                        ==> remaining_ms == 0),
                    EffectState::Prepared => status matches Err(StorageErrorView::Runtime(_)),
                }
            }
        }),
        after_event(table, StorageEvent::Read { key }) == table,
{
    if table.dom().contains(key) {
        states_are_read_back(table[key].state);
        states_are_read_back(EffectState::Sending);
        the_time_left_is_never_negative(table[key].lease_expires_at, now);
    }
}

/// What finalization gave, every later read tells: whatever happens before the finalizing caller
/// has its answer (`before`) and ever after (`after`).
pub proof fn a_finalized_effect_is_read_for_ever(
    table: EffectTable,
    before: Seq<StorageEvent>,
    after: Seq<StorageEvent>,
    key: Seq<char>,
    fence: i64,
    response: DispatchResponseView,
    circumstances: FinalizeCircumstances,
    now: i64,
    missing: Seq<char>,
)
    requires
        is_sound(table),
        forall|i: int| 0 <= i < before.len() ==> closes_as_unknown(#[trigger] before[i]),
        forall|i: int| 0 <= i < after.len() ==> closes_as_unknown(#[trigger] after[i]),
    ensures
        ({
            let seen = table_after(
                finalized(table, key, fence, response, circumstances),
                before,
            );
            finalize_result(table, seen, key, fence, response, circumstances) matches Ok(told)
                ==> status_at(table_after(seen, after), key, now, missing) == Ok::<
                EffectStatusView,
                StorageErrorView,
            >(EffectStatusView::Final(told))
        }),
{
    let recorded = finalized(table, key, fence, response, circumstances);
    let seen = table_after(recorded, before);
    match finalize_result(table, seen, key, fence, response, circumstances) {
        Ok(told) => {
            let event = StorageEvent::Finalize { key, fence, response, circumstances };
            finalization_tells_the_end(table, before, key, fence, response, circumstances);
            an_event_keeps_soundness(table, event);
            the_table_stays_sound(recorded, before);
            the_table_stays_sound(seen, after);
            an_effect_ends_once(seen, after, key, told, told);
            a_read_tells_the_state(table_after(seen, after), key, now, missing);
        },
        Err(_) => {},
    }
}

/// An effect ends once: how it has ended, all that come later are told too.
pub proof fn an_effect_ends_once(
    table: EffectTable,
    history: Seq<StorageEvent>,
    key: Seq<char>,
    response: DispatchResponseView,
    later: DispatchResponseView,
)
    requires
        is_ended_with(table, key, response),
    ensures
        is_ended_with(table_after(table, history), key, response),
        is_ended_with(table_after(table, history), key, later) ==> later == response,
{
    rows_only_advance(table, history, key);
}

/// A sender that keeps its time keeps its fence: with a valid configuration, a row that was claimed
/// at `claimed_at` is closed as expired by nobody until half a second after the longest submission
/// has ended; until then, every visit finds it in flight or fails.
pub proof fn a_sender_in_time_keeps_its_fence(
    config: SmtpConfig,
    claimed_at: i64,
    table: EffectTable,
    identity: DispatchIdentityView,
    lease_ms: i64,
    expired: DispatchResponseView,
    circumstances: Circumstances,
)
    requires
        config_result(config) is Ok,
        table.dom().contains(identity.idempotency_key_hash),
        table[identity.idempotency_key_hash].state == EffectState::Sending,
        table[identity.idempotency_key_hash].lease_expires_at matches Some(expiry) && expiry
            == claimed_at + lease_of(config) * 1000,
        (circumstances.clock)(BeginOperationView::Lock) < claimed_at + (send_timeout_of(config)
            + 500) * 1000,
    ensures
        ({
            let end = begin(table, identity, lease_ms, expired, circumstances);
            &&& end.table == table
            &&& end.result matches Ok(answer) ==> answer is InFlight
        }),
{
    reveal_with_fuel(begin_from, 6);
    states_are_read_back(EffectState::Sending);
}

/// After `point` events of a history somebody is told that the effect of this key has ended with
/// this response: by a visit that replays it, by a finalization that has its answer now, or by a
/// read.
pub open spec fn is_told(
    table: EffectTable,
    history: Seq<StorageEvent>,
    point: int,
    key: Seq<char>,
    response: DispatchResponseView,
) -> bool {
    &&& 0 <= point <= history.len()
    &&& {
        ||| is_replayed(table, history, point, key, response)
        ||| exists|index: int|
            0 <= index < point && #[trigger] is_finalization_answer(
                table,
                history,
                index,
                point,
                key,
                response,
            )
        ||| exists|now: i64, missing: Seq<char>| #[trigger]
            status_at(table_after(table, history.take(point)), key, now, missing) == Ok::<
                EffectStatusView,
                StorageErrorView,
            >(EffectStatusView::Final(response))
    }
}

/// The last of the first `point` events is a visit that replays this response.
pub open spec fn is_replayed(
    table: EffectTable,
    history: Seq<StorageEvent>,
    point: int,
    key: Seq<char>,
    response: DispatchResponseView,
) -> bool {
    &&& 0 < point
    &&& history[point - 1] matches StorageEvent::Begin {
        identity,
        lease_ms,
        expired,
        circumstances,
    } && identity.idempotency_key_hash == key && begin(
        table_after(table, history.take(point - 1)),
        identity,
        lease_ms,
        expired,
        circumstances,
    ).result == Ok::<BeginDispatchView, StorageErrorView>(BeginDispatchView::Replay(response))
}

/// The `index`-th event is a finalization that gives this response, where the row is read back,
/// if it is, after `point` events.
pub open spec fn is_finalization_answer(
    table: EffectTable,
    history: Seq<StorageEvent>,
    index: int,
    point: int,
    key: Seq<char>,
    response: DispatchResponseView,
) -> bool {
    history[index] matches StorageEvent::Finalize {
        key: finalized_key,
        fence,
        response: offered,
        circumstances,
    } && finalized_key == key && finalize_result(
        table_after(table, history.take(index)),
        table_after(table, history.take(point)),
        key,
        fence,
        offered,
        circumstances,
    ) == Ok::<DispatchResponseView, StorageErrorView>(response)
}

/// What anybody is told of the end of an effect is how the table has it ended.
pub proof fn what_is_told_is_the_end(
    table: EffectTable,
    history: Seq<StorageEvent>,
    point: int,
    key: Seq<char>,
    response: DispatchResponseView,
)
    requires
        is_sound(table),
        forall|i: int| 0 <= i < history.len() ==> closes_as_unknown(#[trigger] history[i]),
        is_told(table, history, point, key, response),
    ensures
        is_ended_with(table_after(table, history.take(point)), key, response),
{
    let reached = table_after(table, history.take(point));
    if is_replayed(table, history, point, key, response) {
        after_the_visit(table, history, point - 1);
        match history[point - 1] {
            StorageEvent::Begin { identity, lease_ms, expired, circumstances } => {
                a_replay_tells_the_end(
                    table_after(table, history.take(point - 1)),
                    identity,
                    lease_ms,
                    expired,
                    circumstances,
                );
            },
            _ => {},
        }
    } else if exists|index: int|
        0 <= index < point && #[trigger] is_finalization_answer(
            table,
            history,
            index,
            point,
            key,
            response,
        ) {
        let index = choose|index: int|
            0 <= index < point && #[trigger] is_finalization_answer(
                table,
                history,
                index,
                point,
                key,
                response,
            );
        let since = history.subrange(index + 1, point);
        assert(history.take(point) =~= history.take(index + 1) + since);
        histories_join(table, history.take(index + 1), since);
        after_the_visit(table, history, index);
        the_table_stays_sound(table, history.take(index));
        match history[index] {
            StorageEvent::Finalize { fence, response: offered, circumstances, .. } => {
                finalization_tells_the_end(
                    table_after(table, history.take(index)),
                    since,
                    key,
                    fence,
                    offered,
                    circumstances,
                );
            },
            _ => {},
        }
    } else {
        let (now, missing) = choose|now: i64, missing: Seq<char>| #[trigger]
            status_at(reached, key, now, missing) == Ok::<EffectStatusView, StorageErrorView>(
                EffectStatusView::Final(response),
            );
        the_table_stays_sound(table, history.take(point));
        a_read_tells_the_state(reached, key, now, missing);
    }
}

/// Everyone is told the same: whoever learns how an effect has ended, by a replay, as its sender or
/// by a read, and whenever, learns the same response.
pub proof fn everyone_is_told_the_same(
    table: EffectTable,
    history: Seq<StorageEvent>,
    key: Seq<char>,
    earlier: int,
    first: DispatchResponseView,
    later: int,
    second: DispatchResponseView,
)
    requires
        is_sound(table),
        forall|i: int| 0 <= i < history.len() ==> closes_as_unknown(#[trigger] history[i]),
        earlier <= later,
        is_told(table, history, earlier, key, first),
        is_told(table, history, later, key, second),
    ensures
        first == second,
{
    what_is_told_is_the_end(table, history, earlier, key, first);
    what_is_told_is_the_end(table, history, later, key, second);
    rows_advance_between(table, history, earlier, later, key);
}

/// A new attempt is sent: when nothing fails, its first visit is told to send under the first
/// fence, and leaves a row that is being sent under it, with the lease that was asked for and
/// nothing but what the visitor is known by.
pub proof fn a_new_attempt_is_sent(
    table: EffectTable,
    identity: DispatchIdentityView,
    lease_ms: i64,
    expired: DispatchResponseView,
    circumstances: Circumstances,
)
    requires
        is_sound(table),
        is_smooth(circumstances),
        lease_fits(circumstances, lease_ms, 0),
        !table.dom().contains(identity.idempotency_key_hash),
        forall|key: Seq<char>| #[trigger]
            table.dom().contains(key) ==> table[key].delivery_id_hash != identity.delivery_id_hash
                || table[key].attempt_id_hash != identity.attempt_id_hash,
    ensures
        ({
            let key = identity.idempotency_key_hash;
            let end = begin(table, identity, lease_ms, expired, circumstances);
            let claimed_at = (circumstances.clock)(
                BeginOperationView::Claim { fence: 0, next_fence: 1 },
            );
            &&& end.result == Ok::<BeginDispatchView, StorageErrorView>(
                BeginDispatchView::Send { fence: 1 },
            )
            &&& end.table.dom() == table.dom().insert(key)
            &&& forall|other: Seq<char>| #[trigger]
                table.dom().contains(other) ==> end.table[other] == table[other]
            &&& end.table[key].state == EffectState::Sending
            &&& end.table[key].fence == 1
            &&& end.table[key].lease_expires_at matches Some(expiry) && expiry == claimed_at
                + lease_ms * 1000
            &&& end.table[key].response is None
            &&& end.table[key].delivery_id_hash == identity.delivery_id_hash
            &&& end.table[key].attempt_id_hash == identity.attempt_id_hash
            &&& end.table[key].request_fingerprint == identity.request_fingerprint
            &&& end.table[key].content_digest == identity.content_digest
        }),
{
    a_smooth_visit_does_what_the_row_calls_for(table, identity, lease_ms, expired, circumstances);
    let key = identity.idempotency_key_hash;
    let end = begin(table, identity, lease_ms, expired, circumstances);
    assert(end.table.dom() =~= table.dom().insert(key));
}

/// A running effect is in flight: when nothing fails, a visit with the same content before the
/// lease ends is told the whole milliseconds that are left, and changes nothing.
pub proof fn a_running_effect_is_in_flight(
    table: EffectTable,
    identity: DispatchIdentityView,
    lease_ms: i64,
    expired: DispatchResponseView,
    circumstances: Circumstances,
    expiry: i64,
)
    requires
        is_sound(table),
        is_smooth(circumstances),
        table.dom().contains(identity.idempotency_key_hash),
        table[identity.idempotency_key_hash].state == EffectState::Sending,
        table[identity.idempotency_key_hash].lease_expires_at == Some(expiry),
        table[identity.idempotency_key_hash].request_fingerprint == identity.request_fingerprint,
        table[identity.idempotency_key_hash].content_digest == identity.content_digest,
        (circumstances.clock)(BeginOperationView::Lock) < expiry,
    ensures
        ({
            let end = begin(table, identity, lease_ms, expired, circumstances);
            let left = expiry - (circumstances.clock)(BeginOperationView::Lock);
            &&& end.table == table
            &&& end.result matches Ok(BeginDispatchView::InFlight { remaining_ms }) && remaining_ms
                * 1000 <= left < remaining_ms * 1000 + 1000
        }),
{
    a_smooth_visit_does_what_the_row_calls_for(table, identity, lease_ms, expired, circumstances);
}

/// A prepared row that holds the visitor's content is sent under the fence after its own, when
/// nothing fails: the row is then being sent, and is known by what it was known by.
pub proof fn a_prepared_effect_is_sent(
    table: EffectTable,
    identity: DispatchIdentityView,
    lease_ms: i64,
    expired: DispatchResponseView,
    circumstances: Circumstances,
)
    requires
        is_sound(table),
        is_smooth(circumstances),
        table.dom().contains(identity.idempotency_key_hash),
        table[identity.idempotency_key_hash].state == EffectState::Prepared,
        table[identity.idempotency_key_hash].fence < i64::MAX,
        table[identity.idempotency_key_hash].request_fingerprint == identity.request_fingerprint,
        table[identity.idempotency_key_hash].content_digest == identity.content_digest,
        lease_fits(circumstances, lease_ms, table[identity.idempotency_key_hash].fence),
    ensures
        ({
            let key = identity.idempotency_key_hash;
            let end = begin(table, identity, lease_ms, expired, circumstances);
            &&& end.result matches Ok(BeginDispatchView::Send { fence }) && fence
                == table[key].fence + 1 && end.table[key].fence == fence
            &&& end.table[key].state == EffectState::Sending
            &&& end.table[key].lease_expires_at is Some
            &&& end.table[key].response is None
            &&& end.table[key].delivery_id_hash == table[key].delivery_id_hash
            &&& end.table[key].attempt_id_hash == table[key].attempt_id_hash
            &&& end.table[key].request_fingerprint == table[key].request_fingerprint
            &&& end.table[key].content_digest == table[key].content_digest
        }),
{
    a_smooth_visit_does_what_the_row_calls_for(table, identity, lease_ms, expired, circumstances);
}

/// The statements of the storage are those that the functions of this module describe, word for
/// word: what is inserted, what is read, and under which state, fence and lease a row is changed.
pub proof fn the_statements_are_those_that_are_described()
    ensures
        INSERT_EFFECT@
            == "INSERT INTO smtp_dispatch_effects(idempotency_key_hash,delivery_id_hash,attempt_id_hash,request_fingerprint,content_digest,state) VALUES($1,$2,$3,$4,$5,'prepared') ON CONFLICT DO NOTHING"@,
        LOCK_EFFECT@
            == "SELECT request_fingerprint,content_digest,state,fence,lease_expires_at,response,clock_timestamp() AS database_now FROM smtp_dispatch_effects WHERE idempotency_key_hash=$1 FOR UPDATE"@,
        FIND_ATTEMPT@
            == "SELECT EXISTS(SELECT 1 FROM smtp_dispatch_effects WHERE delivery_id_hash=$1 AND attempt_id_hash=$2)"@,
        CLAIM_EFFECT@
            == "UPDATE smtp_dispatch_effects SET state='sending',fence=$2,effect_started_at=clock_timestamp(),lease_expires_at=clock_timestamp()+($3 * interval '1 millisecond'),updated_at=clock_timestamp() WHERE idempotency_key_hash=$1 AND state='prepared' AND fence=$4"@,
        CLOSE_EXPIRED_EFFECT@
            == "UPDATE smtp_dispatch_effects SET state='delivery_unknown',response=$2,lease_expires_at=NULL,updated_at=clock_timestamp() WHERE idempotency_key_hash=$1 AND state='sending' AND lease_expires_at<=clock_timestamp()"@,
        READ_EFFECT@
            == "SELECT state,response,GREATEST(0,(EXTRACT(EPOCH FROM (lease_expires_at-clock_timestamp()))*1000)::bigint) AS remaining_ms FROM smtp_dispatch_effects WHERE idempotency_key_hash=$1"@,
        FINALIZE_EFFECT@
            == "UPDATE smtp_dispatch_effects SET state=$3,response=$4,lease_expires_at=NULL,updated_at=transaction_timestamp() WHERE idempotency_key_hash=$1 AND state='sending' AND fence=$2"@,
{
}

} // verus!
