//! Portable responses, and the classification of what the relay was seen to do.
use chrono::{SecondsFormat, Utc};
use vstd::prelude::*;
use vstd::string::*;
use vstd::utf8::encode_utf8;

use crate::digest::{
    digest_of, digest_parts, equal_digests_mean_equal_parts_or_a_collision, framable, is_collision,
    part_bytes,
};
use crate::email::{
    DispatchResponse, DispatchResponseFailure, DispatchResponseOutcome,
    DispatchResponseRemoteReceipt, DispatchResponseView, FailureView, RemoteReceiptView,
};
use crate::text::{join_lines, joined_lines, text_views, utf8_is_injective};

verus! {

/// The relay's answer to a submission.
pub struct SmtpReply {
    /// Whether the reply code is a positive one.
    pub positive: bool,
    pub code: String,
    pub lines: Vec<String>,
}

/// What was seen of one submission.
pub enum SendOutcome {
    /// No encrypted connection to the relay can be set up: nothing was sent.
    RelayUnusable,
    /// The relay completed the submission.
    Completed(SmtpReply),
    /// The submission failed; the relay may have rejected it with a transient or a permanent
    /// reply.
    Failed { transient: bool, permanent: bool },
    /// The submission did not end in time.
    TimedOut,
}

pub open spec fn is_ascii_digit(c: char) -> bool {
    '0' <= c <= '9'
}

/// A UTC time in RFC 3339 with milliseconds, from the month on: `-MM-DDTHH:MM:SS.mmmZ`.
pub open spec fn is_month_to_millisecond(t: Seq<char>) -> bool {
    &&& t.len() == 20
    &&& t[0] == '-' && t[3] == '-' && t[6] == 'T' && t[9] == ':' && t[12] == ':' && t[15] == '.'
        && t[19] == 'Z'
    &&& is_ascii_digit(t[1]) && is_ascii_digit(t[2]) && is_ascii_digit(t[4]) && is_ascii_digit(t[5])
    &&& is_ascii_digit(t[7]) && is_ascii_digit(t[8]) && is_ascii_digit(t[10]) && is_ascii_digit(
        t[11],
    )
    &&& is_ascii_digit(t[13]) && is_ascii_digit(t[14]) && is_ascii_digit(t[16]) && is_ascii_digit(
        t[17],
    ) && is_ascii_digit(t[18])
}

/// A year: four digits, or from the year 10000 on a plus sign and at least five digits.
pub open spec fn is_year(text: Seq<char>) -> bool {
    ||| text.len() == 4 && forall|i: int| 0 <= i < 4 ==> is_ascii_digit(#[trigger] text[i])
    ||| text.len() >= 6 && text[0] == '+' && forall|i: int|
        1 <= i < text.len() ==> is_ascii_digit(#[trigger] text[i])
}

/// A year, and the time within it.
pub open spec fn is_timestamp(text: Seq<char>) -> bool {
    &&& text.len() >= 24
    &&& is_year(text.take(text.len() - 20))
    &&& is_month_to_millisecond(text.skip(text.len() - 20))
}

/// `chrono::DateTime::<Utc>::to_rfc3339_opts` of the present time, with milliseconds and `Z`: the
/// text has that form, whatever the time, and its year is written with a sign only where it has
/// more than four digits. The clock is taken to show a time after 1970, as `chrono` takes it.
#[verifier::external_body]
pub(crate) fn observed_at() -> (text: String)
    ensures
        is_timestamp(text@),
{
    Utc::now().to_rfc3339_opts(SecondsFormat::Millis, true)
}

pub open spec fn classification_of(outcome: DispatchResponseOutcome) -> Seq<char> {
    match outcome {
        DispatchResponseOutcome::Accepted => "accepted"@,
        DispatchResponseOutcome::TemporaryFailure => "temporary_failure"@,
        DispatchResponseOutcome::PermanentFailure => "permanent_failure"@,
        DispatchResponseOutcome::DeliveryUnknown => "delivery_unknown"@,
    }
}

/// The name of an outcome, as responses and the stored state write it.
pub fn outcome_name(outcome: DispatchResponseOutcome) -> (name: &'static str)
    ensures
        name@ == classification_of(outcome),
{
    match outcome {
        DispatchResponseOutcome::Accepted => "accepted",
        DispatchResponseOutcome::TemporaryFailure => "temporary_failure",
        DispatchResponseOutcome::PermanentFailure => "permanent_failure",
        DispatchResponseOutcome::DeliveryUnknown => "delivery_unknown",
    }
}

/// A response that reports `outcome` as a failure with `code`, and no receipt.
pub open spec fn failure_view(
    outcome: DispatchResponseOutcome,
    provider: Seq<char>,
    code: Seq<char>,
    retry_after_ms: Option<i64>,
    observed_at: Seq<char>,
) -> DispatchResponseView {
    DispatchResponseView {
        failure: Some(
            FailureView { classification: classification_of(outcome), code, retry_after_ms },
        ),
        observed_at,
        outcome,
        provider,
        remote_receipt: None,
    }
}

pub open spec fn unknown_view(
    provider: Seq<char>,
    code: Seq<char>,
    observed_at: Seq<char>,
) -> DispatchResponseView {
    failure_view(DispatchResponseOutcome::DeliveryUnknown, provider, code, None, observed_at)
}

pub open spec fn temporary_view(
    provider: Seq<char>,
    code: Seq<char>,
    retry_after_ms: i64,
    observed_at: Seq<char>,
) -> DispatchResponseView {
    failure_view(
        DispatchResponseOutcome::TemporaryFailure,
        provider,
        code,
        Some(retry_after_ms),
        observed_at,
    )
}

pub open spec fn permanent_view(
    provider: Seq<char>,
    code: Seq<char>,
    observed_at: Seq<char>,
) -> DispatchResponseView {
    failure_view(DispatchResponseOutcome::PermanentFailure, provider, code, None, observed_at)
}

/// What a receipt's digest covers: the reply's code and lines, and the message identifier.
pub open spec fn receipt_parts(reply: SmtpReply, message_id: Seq<char>) -> Seq<Seq<u8>> {
    seq![
        encode_utf8(reply.code@),
        encode_utf8(joined_lines(text_views(reply.lines@))),
        encode_utf8(message_id),
    ]
}

/// A response that reports acceptance, with the message identifier as the receipt.
pub open spec fn accepted_view(
    provider: Seq<char>,
    message_id: Seq<char>,
    reply: SmtpReply,
    observed_at: Seq<char>,
) -> DispatchResponseView {
    DispatchResponseView {
        failure: None,
        observed_at,
        outcome: DispatchResponseOutcome::Accepted,
        provider,
        remote_receipt: Some(
            RemoteReceiptView {
                digest: digest_of(receipt_parts(reply, message_id)),
                remote_id: message_id,
                source: "rfc5322-message-id"@,
            },
        ),
    }
}

fn failure_response(
    outcome: DispatchResponseOutcome,
    provider: &str,
    code: &str,
    retry_after_ms: Option<i64>,
    observed_at: String,
) -> (response: DispatchResponse)
    ensures
        response@ == failure_view(outcome, provider@, code@, retry_after_ms, observed_at@),
{
    DispatchResponse {
        failure: Some(
            DispatchResponseFailure {
                classification: String::from_str(outcome_name(outcome)),
                code: String::from_str(code),
                retry_after_ms,
            },
        ),
        observed_at,
        outcome,
        provider: String::from_str(provider),
        remote_receipt: None,
    }
}

/// Nobody can tell what became of the message.
pub fn unknown_response_at(provider: &str, code: &str, observed_at: String) -> (response:
    DispatchResponse)
    ensures
        response@ == unknown_view(provider@, code@, observed_at@),
{
    failure_response(DispatchResponseOutcome::DeliveryUnknown, provider, code, None, observed_at)
}

/// The message was not taken, and may be tried again.
pub fn temporary_response_at(
    provider: &str,
    code: &str,
    retry_after_ms: i64,
    observed_at: String,
) -> (response: DispatchResponse)
    ensures
        response@ == temporary_view(provider@, code@, retry_after_ms, observed_at@),
{
    failure_response(
        DispatchResponseOutcome::TemporaryFailure,
        provider,
        code,
        Some(retry_after_ms),
        observed_at,
    )
}

/// The message was not taken.
pub fn permanent_response_at(provider: &str, code: &str, observed_at: String) -> (response:
    DispatchResponse)
    ensures
        response@ == permanent_view(provider@, code@, observed_at@),
{
    failure_response(DispatchResponseOutcome::PermanentFailure, provider, code, None, observed_at)
}

/// The relay took the message.
pub fn accepted_response_at(
    provider: &str,
    message_id: &str,
    reply: &SmtpReply,
    observed_at: String,
) -> (response: DispatchResponse)
    ensures
        response@ == accepted_view(provider@, message_id@, *reply, observed_at@),
{
    let lines = join_lines(&reply.lines);
    let parts = [
        reply.code.as_str().as_bytes(),
        lines.as_str().as_bytes(),
        message_id.as_bytes(),
    ];
    let digest = digest_parts(&parts);
    assert(part_bytes(parts@) =~= receipt_parts(*reply, message_id@));
    DispatchResponse {
        failure: None,
        observed_at,
        outcome: DispatchResponseOutcome::Accepted,
        provider: String::from_str(provider),
        remote_receipt: Some(
            DispatchResponseRemoteReceipt {
                digest,
                remote_id: String::from_str(message_id),
                source: String::from_str("rfc5322-message-id"),
            },
        ),
    }
}

/// A failed submission: only a reply of the relay settles it.
pub open spec fn smtp_error_view(
    provider: Seq<char>,
    transient: bool,
    permanent: bool,
    observed_at: Seq<char>,
) -> DispatchResponseView {
    if transient {
        temporary_view(provider, "smtp_transient_response"@, 60_000, observed_at)
    } else if permanent {
        permanent_view(provider, "smtp_permanent_response"@, observed_at)
    } else {
        unknown_view(provider, "smtp_transport_uncertain"@, observed_at)
    }
}

/// Classifies a failed submission by whether the relay gave a transient or a permanent reply.
pub fn smtp_error_response_at(
    provider: &str,
    transient: bool,
    permanent: bool,
    observed_at: String,
) -> (response: DispatchResponse)
    ensures
        response@ == smtp_error_view(provider@, transient, permanent, observed_at@),
{
    if transient {
        temporary_response_at(provider, "smtp_transient_response", 60_000, observed_at)
    } else if permanent {
        permanent_response_at(provider, "smtp_permanent_response", observed_at)
    } else {
        unknown_response_at(provider, "smtp_transport_uncertain", observed_at)
    }
}

/// The response to what was seen of a submission.
pub open spec fn send_view(
    provider: Seq<char>,
    message_id: Seq<char>,
    outcome: SendOutcome,
    observed_at: Seq<char>,
) -> DispatchResponseView {
    match outcome {
        SendOutcome::RelayUnusable => permanent_view(
            provider,
            "smtp_configuration_invalid"@,
            observed_at,
        ),
        SendOutcome::Completed(reply) => if reply.positive {
            accepted_view(provider, message_id, reply, observed_at)
        } else {
            unknown_view(provider, "smtp_non_positive_completion"@, observed_at)
        },
        SendOutcome::Failed { transient, permanent } => smtp_error_view(
            provider,
            transient,
            permanent,
            observed_at,
        ),
        SendOutcome::TimedOut => unknown_view(provider, "smtp_timeout_unknown"@, observed_at),
    }
}

/// The response to what was seen of a submission, observed at a given time.
pub fn send_response_at(
    provider: &str,
    message_id: &str,
    outcome: &SendOutcome,
    observed_at: String,
) -> (response: DispatchResponse)
    ensures
        response@ == send_view(provider@, message_id@, *outcome, observed_at@),
{
    match outcome {
        SendOutcome::RelayUnusable => permanent_response_at(
            provider,
            "smtp_configuration_invalid",
            observed_at,
        ),
        SendOutcome::Completed(reply) => if reply.positive {
            accepted_response_at(provider, message_id, reply, observed_at)
        } else {
            unknown_response_at(provider, "smtp_non_positive_completion", observed_at)
        },
        SendOutcome::Failed { transient, permanent } => smtp_error_response_at(
            provider,
            *transient,
            *permanent,
            observed_at,
        ),
        SendOutcome::TimedOut => unknown_response_at(provider, "smtp_timeout_unknown", observed_at),
    }
}

/// Nobody can tell what became of the message, as of now.
pub fn unknown_response(provider: &str, code: &str) -> (response: DispatchResponse)
    ensures
        response@ == unknown_view(provider@, code@, response.observed_at@),
        is_timestamp(response.observed_at@),
{
    unknown_response_at(provider, code, observed_at())
}

/// The message was not taken and may be tried again, as of now.
pub fn temporary_response(provider: &str, code: &str, retry_after_ms: i64) -> (response:
    DispatchResponse)
    ensures
        response@ == temporary_view(provider@, code@, retry_after_ms, response.observed_at@),
        is_timestamp(response.observed_at@),
{
    temporary_response_at(provider, code, retry_after_ms, observed_at())
}

/// The message was not taken, as of now.
pub fn permanent_response(provider: &str, code: &str) -> (response: DispatchResponse)
    ensures
        response@ == permanent_view(provider@, code@, response.observed_at@),
        is_timestamp(response.observed_at@),
{
    permanent_response_at(provider, code, observed_at())
}

/// The relay took the message, as of now.
pub fn accepted_response(provider: &str, message_id: &str, reply: &SmtpReply) -> (response:
    DispatchResponse)
    ensures
        response@ == accepted_view(provider@, message_id@, *reply, response.observed_at@),
        is_timestamp(response.observed_at@),
{
    accepted_response_at(provider, message_id, reply, observed_at())
}

/// Classifies a failed submission, as of now.
pub fn smtp_error_response(provider: &str, transient: bool, permanent: bool) -> (response:
    DispatchResponse)
    ensures
        response@ == smtp_error_view(provider@, transient, permanent, response.observed_at@),
        is_timestamp(response.observed_at@),
{
    smtp_error_response_at(provider, transient, permanent, observed_at())
}

/// The response to what was seen of a submission, as of now.
pub fn send_response(provider: &str, message_id: &str, outcome: &SendOutcome) -> (response:
    DispatchResponse)
    ensures
        response@ == send_view(provider@, message_id@, *outcome, response.observed_at@),
        is_timestamp(response.observed_at@),
{
    send_response_at(provider, message_id, outcome, observed_at())
}

/// The parts of a response agree: acceptance carries a receipt and no failure, every other outcome
/// a failure of its own class and no receipt, and only a temporary failure says when to try again.
pub open spec fn is_coherent(response: DispatchResponseView) -> bool {
    if response.outcome == DispatchResponseOutcome::Accepted {
        response.failure is None && response.remote_receipt is Some
    } else {
        &&& response.remote_receipt is None
        &&& response.failure matches Some(failure) && failure.classification == classification_of(
            response.outcome,
        ) && (failure.retry_after_ms is Some <==> response.outcome
            == DispatchResponseOutcome::TemporaryFailure)
    }
}

/// Every response to a submission is coherent and names the provider.
pub proof fn responses_are_coherent(
    provider: Seq<char>,
    message_id: Seq<char>,
    outcome: SendOutcome,
    observed_at: Seq<char>,
)
    ensures
        is_coherent(send_view(provider, message_id, outcome, observed_at)),
        send_view(provider, message_id, outcome, observed_at).provider == provider,
{
}

/// Acceptance is reported exactly for a positive completion: a submission that failed, or that
/// did not end, is never taken for a success.
pub proof fn only_a_positive_completion_is_accepted(
    provider: Seq<char>,
    message_id: Seq<char>,
    outcome: SendOutcome,
    observed_at: Seq<char>,
)
    ensures
        send_view(provider, message_id, outcome, observed_at).outcome
            == DispatchResponseOutcome::Accepted <==> (outcome matches SendOutcome::Completed(reply)
            && reply.positive),
{
}

/// A retry is invited only by an explicit transient reply. Once a submission has started, every
/// result without a positive completion or an explicit rejection is `delivery_unknown`.
pub proof fn ambiguity_is_never_retried(
    provider: Seq<char>,
    message_id: Seq<char>,
    outcome: SendOutcome,
    observed_at: Seq<char>,
)
    ensures
        send_view(provider, message_id, outcome, observed_at).outcome
            == DispatchResponseOutcome::TemporaryFailure <==> (outcome matches SendOutcome::Failed {
            transient,
            ..
        } && transient),
        send_view(provider, message_id, outcome, observed_at).outcome
            == DispatchResponseOutcome::DeliveryUnknown <==> match outcome {
            SendOutcome::RelayUnusable => false,
            SendOutcome::Completed(reply) => !reply.positive,
            SendOutcome::Failed { transient, permanent } => !transient && !permanent,
            SendOutcome::TimedOut => true,
        },
{
}

/// A submission that a transient reply has rejected invites a retry after a minute, under one code.
pub proof fn a_transient_rejection_may_be_tried_again_after_a_minute(
    provider: Seq<char>,
    message_id: Seq<char>,
    permanent: bool,
    observed_at: Seq<char>,
)
    ensures
        send_view(
            provider,
            message_id,
            SendOutcome::Failed { transient: true, permanent },
            observed_at,
        ).failure matches Some(failure) && failure.retry_after_ms == Some(60_000i64) && failure.code
            == "smtp_transient_response"@,
        smtp_error_view(provider, true, permanent, observed_at) == send_view(
            provider,
            message_id,
            SendOutcome::Failed { transient: true, permanent },
            observed_at,
        ),
{
}

/// Every response to a submission names the provider and the time, and says what was seen: how it
/// ended, under which code, and whether and when to try again.
pub proof fn a_response_says_what_was_seen(
    provider: Seq<char>,
    message_id: Seq<char>,
    outcome: SendOutcome,
    observed_at: Seq<char>,
)
    ensures
        ({
            let response = send_view(provider, message_id, outcome, observed_at);
            let reports = |
                end: DispatchResponseOutcome,
                class: Seq<char>,
                code: Seq<char>,
                retry: Option<i64>,
            |
                {
                    &&& response.outcome == end
                    &&& response.remote_receipt is None
                    &&& response.failure matches Some(failure) && failure.classification == class
                        && failure.code == code && failure.retry_after_ms == retry
                };
            &&& response.provider == provider
            &&& response.observed_at == observed_at
            &&& match outcome {
                SendOutcome::RelayUnusable => reports(
                    DispatchResponseOutcome::PermanentFailure,
                    "permanent_failure"@,
                    "smtp_configuration_invalid"@,
                    None,
                ),
                SendOutcome::TimedOut => reports(
                    DispatchResponseOutcome::DeliveryUnknown,
                    "delivery_unknown"@,
                    "smtp_timeout_unknown"@,
                    None,
                ),
                SendOutcome::Completed(reply) => if reply.positive {
                    &&& response.outcome == DispatchResponseOutcome::Accepted
                    &&& response.failure is None
                    &&& response.remote_receipt matches Some(receipt) && receipt.remote_id
                        == message_id && receipt.source == "rfc5322-message-id"@ && receipt.digest
                        == digest_of(
                        seq![
                            encode_utf8(reply.code@),
                            encode_utf8(joined_lines(text_views(reply.lines@))),
                            encode_utf8(message_id),
                        ],
                    )
                } else {
                    reports(
                        DispatchResponseOutcome::DeliveryUnknown,
                        "delivery_unknown"@,
                        "smtp_non_positive_completion"@,
                        None,
                    )
                },
                SendOutcome::Failed { transient, permanent } => if transient {
                    reports(
                        DispatchResponseOutcome::TemporaryFailure,
                        "temporary_failure"@,
                        "smtp_transient_response"@,
                        Some(60_000i64),
                    )
                } else if permanent {
                    reports(
                        DispatchResponseOutcome::PermanentFailure,
                        "permanent_failure"@,
                        "smtp_permanent_response"@,
                        None,
                    )
                } else {
                    reports(
                        DispatchResponseOutcome::DeliveryUnknown,
                        "delivery_unknown"@,
                        "smtp_transport_uncertain"@,
                        None,
                    )
                },
            }
        }),
{
}

/// The response to a failed submission depends on the two replies alone: two failures that are
/// classified alike are answered alike, and the message does not matter.
pub proof fn failures_are_answered_by_their_class(
    provider: Seq<char>,
    left_id: Seq<char>,
    right_id: Seq<char>,
    transient: bool,
    permanent: bool,
    observed_at: Seq<char>,
)
    ensures
        send_view(
            provider,
            left_id,
            SendOutcome::Failed { transient, permanent },
            observed_at,
        ) == send_view(
            provider,
            right_id,
            SendOutcome::Failed { transient, permanent },
            observed_at,
        ),
        smtp_error_view(provider, transient, permanent, observed_at) == send_view(
            provider,
            left_id,
            SendOutcome::Failed { transient, permanent },
            observed_at,
        ),
{
}

/// Each of the three failures carries the provider, the code and the time that it is given, the
/// name of its own outcome, and a retry exactly as it is given for a temporary one.
pub proof fn a_failure_carries_what_it_is_given(
    provider: Seq<char>,
    code: Seq<char>,
    retry_after_ms: i64,
    observed_at: Seq<char>,
)
    ensures
        ({
            let temporary = temporary_view(provider, code, retry_after_ms, observed_at);
            let permanent = permanent_view(provider, code, observed_at);
            let unknown = unknown_view(provider, code, observed_at);
            &&& temporary.outcome == DispatchResponseOutcome::TemporaryFailure
            &&& permanent.outcome == DispatchResponseOutcome::PermanentFailure
            &&& unknown.outcome == DispatchResponseOutcome::DeliveryUnknown
            &&& temporary.failure == Some(
                FailureView {
                    classification: "temporary_failure"@,
                    code,
                    retry_after_ms: Some(retry_after_ms),
                },
            )
            &&& permanent.failure == Some(
                FailureView {
                    classification: "permanent_failure"@,
                    code,
                    retry_after_ms: None,
                },
            )
            &&& unknown.failure == Some(
                FailureView { classification: "delivery_unknown"@, code, retry_after_ms: None },
            )
            &&& temporary.provider == provider && permanent.provider == provider
                && unknown.provider == provider
            &&& temporary.observed_at == observed_at && permanent.observed_at == observed_at
                && unknown.observed_at == observed_at
            &&& temporary.remote_receipt is None && permanent.remote_receipt is None
                && unknown.remote_receipt is None
        }),
{
}

/// A receipt names the message and binds the reply: receipts of one provider and time that are the
/// same are for one message and one reply, unless the replies are a SHA-256 collision.
pub proof fn a_receipt_binds_message_and_reply(
    provider: Seq<char>,
    observed_at: Seq<char>,
    left_id: Seq<char>,
    left: SmtpReply,
    right_id: Seq<char>,
    right: SmtpReply,
)
    requires
        framable(receipt_parts(left, left_id)),
        framable(receipt_parts(right, right_id)),
        accepted_view(provider, left_id, left, observed_at) == accepted_view(
            provider,
            right_id,
            right,
            observed_at,
        ),
    ensures
        left_id == right_id,
        ({
            &&& left.code@ == right.code@
            &&& joined_lines(text_views(left.lines@)) == joined_lines(text_views(right.lines@))
        }) || is_collision(receipt_parts(left, left_id), receipt_parts(right, right_id)),
{
    let a = receipt_parts(left, left_id);
    let b = receipt_parts(right, right_id);
    let left_receipt = accepted_view(provider, left_id, left, observed_at).remote_receipt->0;
    let right_receipt = accepted_view(provider, right_id, right, observed_at).remote_receipt->0;
    assert(left_receipt == right_receipt);
    equal_digests_mean_equal_parts_or_a_collision(a, b);
    if a == b {
        assert(a[0] == b[0] && a[1] == b[1]);
        utf8_is_injective(left.code@, right.code@);
        utf8_is_injective(
            joined_lines(text_views(left.lines@)),
            joined_lines(text_views(right.lines@)),
        );
    }
}

/// Each outcome goes by the name that callers and the table know it by.
pub proof fn each_outcome_goes_by_its_name(outcome: DispatchResponseOutcome)
    ensures
        outcome == DispatchResponseOutcome::Accepted <==> classification_of(outcome) == "accepted"@,
        outcome == DispatchResponseOutcome::TemporaryFailure <==> classification_of(outcome)
            == "temporary_failure"@,
        outcome == DispatchResponseOutcome::PermanentFailure <==> classification_of(outcome)
            == "permanent_failure"@,
        outcome == DispatchResponseOutcome::DeliveryUnknown <==> classification_of(outcome)
            == "delivery_unknown"@,
{
    let named = |text: Seq<char>, other: DispatchResponseOutcome|
        classification_of(outcome) == text && classification_of(other) == text;
    if named("accepted"@, DispatchResponseOutcome::Accepted) {
        outcomes_have_names_of_their_own(outcome, DispatchResponseOutcome::Accepted);
    }
    if named("temporary_failure"@, DispatchResponseOutcome::TemporaryFailure) {
        outcomes_have_names_of_their_own(outcome, DispatchResponseOutcome::TemporaryFailure);
    }
    if named("permanent_failure"@, DispatchResponseOutcome::PermanentFailure) {
        outcomes_have_names_of_their_own(outcome, DispatchResponseOutcome::PermanentFailure);
    }
    if named("delivery_unknown"@, DispatchResponseOutcome::DeliveryUnknown) {
        outcomes_have_names_of_their_own(outcome, DispatchResponseOutcome::DeliveryUnknown);
    }
}

/// Outcomes are told apart by their names.
pub proof fn outcomes_have_names_of_their_own(
    left: DispatchResponseOutcome,
    right: DispatchResponseOutcome,
)
    requires
        classification_of(left) == classification_of(right),
    ensures
        left == right,
{
    reveal_strlit("accepted");
    reveal_strlit("temporary_failure");
    reveal_strlit("permanent_failure");
    reveal_strlit("delivery_unknown");
    let temporary = "temporary_failure"@;
    let permanent = "permanent_failure"@;
    assert("accepted"@.len() == 8 && "delivery_unknown"@.len() == 16);
    assert(temporary.len() == 17 && permanent.len() == 17);
    assert(temporary[0] != permanent[0]);
    assert(classification_of(left).len() == classification_of(right).len());
    assert(classification_of(left)[0] == classification_of(right)[0]);
}

/// An acceptance names the provider and the time, carries no failure, and has the message
/// identifier as its receipt, with the digest of the reply's code, its lines and that identifier,
/// whatever the reply.
pub proof fn an_acceptance_carries_its_receipt(
    provider: Seq<char>,
    message_id: Seq<char>,
    reply: SmtpReply,
    observed_at: Seq<char>,
)
    ensures
        ({
            let response = accepted_view(provider, message_id, reply, observed_at);
            &&& response.outcome == DispatchResponseOutcome::Accepted
            &&& response.provider == provider
            &&& response.observed_at == observed_at
            &&& response.failure is None
            &&& response.remote_receipt matches Some(receipt) && receipt.remote_id == message_id
                && receipt.source == "rfc5322-message-id"@ && receipt.digest == digest_of(
                seq![
                    encode_utf8(reply.code@),
                    encode_utf8(joined_lines(text_views(reply.lines@))),
                    encode_utf8(message_id),
                ],
            )
        }),
{
}

} // verus!
