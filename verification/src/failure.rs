//! Failures of the plugin itself, as the kernel that runs it is told of them.
use vstd::prelude::*;
use vstd::string::*;

verus! {

#[derive(Debug, PartialEq, Eq)]
pub enum RuntimeFailure {
    /// The resolved plan cannot be run.
    InvalidResolvedPlan { detail: String },
    /// The plugin could not do its work.
    PluginFailure { detail: String },
}

#[verifier::ext_equal]
pub enum RuntimeFailureView {
    InvalidResolvedPlan { detail: Seq<char> },
    PluginFailure { detail: Seq<char> },
}

impl View for RuntimeFailure {
    type V = RuntimeFailureView;

    open spec fn view(&self) -> RuntimeFailureView {
        match self {
            RuntimeFailure::InvalidResolvedPlan {
                detail,
            } => RuntimeFailureView::InvalidResolvedPlan { detail: detail@ },
            RuntimeFailure::PluginFailure { detail } => RuntimeFailureView::PluginFailure {
                detail: detail@,
            },
        }
    }
}

/// The secrets provider refused the relay's user name or password.
pub fn credential_rejected() -> (failure: RuntimeFailure)
    ensures
        failure@ == (RuntimeFailureView::PluginFailure {
            detail: "required SMTP credential was rejected"@,
        }),
{
    RuntimeFailure::PluginFailure {
        detail: String::from_str("required SMTP credential was rejected"),
    }
}

/// The secrets provider refused the database's URL.
pub fn database_secret_rejected() -> (failure: RuntimeFailure)
    ensures
        failure@ == (RuntimeFailureView::PluginFailure {
            detail: "required SMTP database secret was rejected"@,
        }),
{
    RuntimeFailure::PluginFailure {
        detail: String::from_str("required SMTP database secret was rejected"),
    }
}

/// A failure shows its detail, and of which kind it is.
pub proof fn a_failure_shows_its_detail(detail: String)
    ensures
        (RuntimeFailure::InvalidResolvedPlan { detail })@ == (
        RuntimeFailureView::InvalidResolvedPlan { detail: detail@ }),
        (RuntimeFailure::PluginFailure { detail })@ == (RuntimeFailureView::PluginFailure {
            detail: detail@,
        }),
{
}

} // verus!
