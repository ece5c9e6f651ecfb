//! Failures of the product workflow.
use vstd::prelude::*;

verus! {

/// Why an inbound envelope could not be worked on.
#[derive(Clone, Debug, PartialEq, Eq)]
pub enum ProductWorkflowError {
    /// The conversation could not be bound to a tenant, user and thread.
    BindingResolutionFailed { reason: String },
    /// The turn could not be built, or the coordinator refused it.
    TurnSubmissionRejected { reason: String },
    /// No route exists for the command.
    CommandRoutingUnavailable { command: String },
    /// No service handles payloads of this kind.
    UnsupportedActionKind { kind: String },
    /// A service failed in a way that a later attempt may not.
    Transient { reason: String },
}

/// A [`ProductWorkflowError`] with its strings read as character sequences.
pub enum ProductWorkflowErrorView {
    BindingResolutionFailed { reason: Seq<char> },
    TurnSubmissionRejected { reason: Seq<char> },
    CommandRoutingUnavailable { command: Seq<char> },
    UnsupportedActionKind { kind: Seq<char> },
    Transient { reason: Seq<char> },
}

impl View for ProductWorkflowError {
    type V = ProductWorkflowErrorView;

    open spec fn view(&self) -> ProductWorkflowErrorView {
        match self {
            ProductWorkflowError::BindingResolutionFailed { reason } => {
                ProductWorkflowErrorView::BindingResolutionFailed { reason: reason@ }
            },
            ProductWorkflowError::TurnSubmissionRejected { reason } => {
                ProductWorkflowErrorView::TurnSubmissionRejected { reason: reason@ }
            },
            ProductWorkflowError::CommandRoutingUnavailable { command } => {
                ProductWorkflowErrorView::CommandRoutingUnavailable { command: command@ }
            },
            ProductWorkflowError::UnsupportedActionKind { kind } => {
                ProductWorkflowErrorView::UnsupportedActionKind { kind: kind@ }
            },
            ProductWorkflowError::Transient { reason } => {
                ProductWorkflowErrorView::Transient { reason: reason@ }
            },
        }
    }
}

/// Reading an error keeps all of it: errors read alike exactly where they are of
/// the same kind and say the same.
pub proof fn error_view_keeps_everything(
    first: ProductWorkflowError,
    second: ProductWorkflowError,
)
    ensures
        first@ == second@ <==> match first {
            ProductWorkflowError::BindingResolutionFailed { reason } => {
                second is BindingResolutionFailed && second->BindingResolutionFailed_reason@
                    == reason@
            },
            ProductWorkflowError::TurnSubmissionRejected { reason } => {
                second is TurnSubmissionRejected && second->TurnSubmissionRejected_reason@
                    == reason@
            },
            ProductWorkflowError::CommandRoutingUnavailable { command } => {
                second is CommandRoutingUnavailable && second->command@ == command@
            },
            ProductWorkflowError::UnsupportedActionKind { kind } => {
                second is UnsupportedActionKind && second->kind@ == kind@
            },
            ProductWorkflowError::Transient { reason } => {
                second is Transient && second->Transient_reason@ == reason@
            },
        },
        first@ is Transient <==> first is Transient,
{
}

} // verus!
