//! The values of the email-dispatch capability: what a caller asks for and what it is told.
use vstd::prelude::*;

verus! {

/// One rendered message for one recipient, with the identifiers of its attempt.
#[derive(Clone)]
pub struct DispatchRequest {
    pub attempt_id: String,
    pub correlation_id: String,
    pub delivery_id: String,
    pub idempotency_key: String,
    pub message: DispatchRequestMessage,
    pub recipient: DispatchRequestRecipient,
    pub run_id: String,
}

/// The rendered message, with the digest of its content.
#[derive(Clone)]
pub struct DispatchRequestMessage {
    pub content_digest: String,
    pub html: String,
    pub locale: String,
    pub subject: String,
    pub template_id: String,
    pub template_version: String,
    pub text: String,
}

#[derive(Clone)]
pub struct DispatchRequestRecipient {
    pub address: String,
}

/// What became of a dispatch.
#[derive(Clone, Copy, Debug, PartialEq, Eq, Structural)]
pub enum DispatchResponseOutcome {
    /// The relay took responsibility for the message.
    Accepted,
    /// A definitive rejection that may be tried again.
    TemporaryFailure,
    /// A definitive rejection.
    PermanentFailure,
    /// Nobody can tell whether the relay took the message.
    DeliveryUnknown,
}

#[derive(Debug, PartialEq, Eq)]
pub struct DispatchResponseFailure {
    pub classification: String,
    pub code: String,
    pub retry_after_ms: Option<i64>,
}

#[derive(Debug, PartialEq, Eq)]
pub struct DispatchResponseRemoteReceipt {
    pub digest: String,
    pub remote_id: String,
    pub source: String,
}

#[derive(Debug, PartialEq, Eq)]
pub struct DispatchResponse {
    pub failure: Option<DispatchResponseFailure>,
    pub observed_at: String,
    pub outcome: DispatchResponseOutcome,
    pub provider: String,
    pub remote_receipt: Option<DispatchResponseRemoteReceipt>,
}

/// A refusal of the request, before any external effect.
#[derive(Clone, Copy, Debug, PartialEq, Eq, Structural)]
pub enum DispatchError {
    InvalidDispatch,
    UnsupportedMessage,
}

impl Clone for DispatchResponseFailure {
    fn clone(&self) -> (copy: Self)
        ensures
            copy == *self,
    {
        DispatchResponseFailure {
            classification: self.classification.clone(),
            code: self.code.clone(),
            retry_after_ms: self.retry_after_ms,
        }
    }
}

impl Clone for DispatchResponseRemoteReceipt {
    fn clone(&self) -> (copy: Self)
        ensures
            copy == *self,
    {
        DispatchResponseRemoteReceipt {
            digest: self.digest.clone(),
            remote_id: self.remote_id.clone(),
            source: self.source.clone(),
        }
    }
}

impl Clone for DispatchResponse {
    fn clone(&self) -> (copy: Self)
        ensures
            copy == *self,
    {
        DispatchResponse {
            failure: match &self.failure {
                Some(failure) => Some(failure.clone()),
                None => None,
            },
            observed_at: self.observed_at.clone(),
            outcome: self.outcome,
            provider: self.provider.clone(),
            remote_receipt: match &self.remote_receipt {
                Some(receipt) => Some(receipt.clone()),
                None => None,
            },
        }
    }
}

#[verifier::ext_equal]
pub struct FailureView {
    pub classification: Seq<char>,
    pub code: Seq<char>,
    pub retry_after_ms: Option<i64>,
}

#[verifier::ext_equal]
pub struct RemoteReceiptView {
    pub digest: Seq<char>,
    pub remote_id: Seq<char>,
    pub source: Seq<char>,
}

#[verifier::ext_equal]
pub struct DispatchResponseView {
    pub failure: Option<FailureView>,
    pub observed_at: Seq<char>,
    pub outcome: DispatchResponseOutcome,
    pub provider: Seq<char>,
    pub remote_receipt: Option<RemoteReceiptView>,
}

impl View for DispatchResponse {
    type V = DispatchResponseView;

    open spec fn view(&self) -> DispatchResponseView {
        DispatchResponseView {
            failure: match self.failure {
                Some(failure) => Some(
                    FailureView {
                        classification: failure.classification@,
                        code: failure.code@,
                        retry_after_ms: failure.retry_after_ms,
                    },
                ),
                None => None,
            },
            observed_at: self.observed_at@,
            outcome: self.outcome,
            provider: self.provider@,
            remote_receipt: match self.remote_receipt {
                Some(receipt) => Some(
                    RemoteReceiptView {
                        digest: receipt.digest@,
                        remote_id: receipt.remote_id@,
                        source: receipt.source@,
                    },
                ),
                None => None,
            },
        }
    }
}

/// What is stated of a response is stated of every field of it.
pub proof fn a_response_shows_every_field(response: DispatchResponse)
    ensures
        response@.observed_at == response.observed_at@,
        response@.outcome == response.outcome,
        response@.provider == response.provider@,
        match response.failure {
            Some(failure) => response@.failure == Some(
                FailureView {
                    classification: failure.classification@,
                    code: failure.code@,
                    retry_after_ms: failure.retry_after_ms,
                },
            ),
            None => response@.failure is None,
        },
        match response.remote_receipt {
            Some(receipt) => response@.remote_receipt == Some(
                RemoteReceiptView {
                    digest: receipt.digest@,
                    remote_id: receipt.remote_id@,
                    source: receipt.source@,
                },
            ),
            None => response@.remote_receipt is None,
        },
{
}

} // verus!
