//! What a product adapter hands in, and what it gets back.
use vstd::prelude::*;

use crate::error::{ProductWorkflowError, ProductWorkflowErrorView};
use crate::turns::{clone_option_string, AcceptedMessageRef, Timestamp, TurnRunId};

verus! {

/// The person or bot on the product's side that caused an event.
#[derive(Debug, PartialEq, Eq)]
pub struct ExternalActorRef {
    pub kind: String,
    pub id: String,
    pub display_name: Option<String>,
}

impl Clone for ExternalActorRef {
    fn clone(&self) -> (copy: Self)
        ensures
            copy == *self,
    {
        ExternalActorRef {
            kind: self.kind.clone(),
            id: self.id.clone(),
            display_name: clone_option_string(&self.display_name),
        }
    }
}

/// The conversation on the product's side that an event belongs to.
#[derive(Debug, PartialEq, Eq)]
pub struct ExternalConversationRef {
    pub space_id: Option<String>,
    pub conversation_id: String,
    pub topic_id: Option<String>,
    pub message_id: Option<String>,
}

impl Clone for ExternalConversationRef {
    fn clone(&self) -> (copy: Self)
        ensures
            copy == *self,
    {
        ExternalConversationRef {
            space_id: clone_option_string(&self.space_id),
            conversation_id: self.conversation_id.clone(),
            topic_id: clone_option_string(&self.topic_id),
            message_id: clone_option_string(&self.message_id),
        }
    }
}

/// What the adapter's protocol proved about the sender: the scheme that was
/// checked, its parameter where it has one, and the subject it vouches for.
#[derive(Debug, PartialEq, Eq)]
pub struct VerifiedAuthClaim {
    pub scheme: String,
    pub parameter: Option<String>,
    pub subject: String,
}

impl Clone for VerifiedAuthClaim {
    fn clone(&self) -> (copy: Self)
        ensures
            copy == *self,
    {
        VerifiedAuthClaim {
            scheme: self.scheme.clone(),
            parameter: clone_option_string(&self.parameter),
            subject: self.subject.clone(),
        }
    }
}

/// What an inbound event asks for. A payload that no service takes is known by
/// its kind, and a command by its name.
#[derive(Debug, PartialEq, Eq)]
pub enum ProductInboundPayload {
    /// A message of a user: what it says, what is attached to it, and why the
    /// product passes it on.
    UserMessage { text: String, attachments: Vec<String>, trigger_reason: String },
    Command { command: String },
    ApprovalResolution,
    AuthResolution,
    SubscriptionRequest,
    LinkedThreadAction,
    NoOp,
}

impl ProductInboundPayload {
    /// The payloads ask for the same, with the same contents.
    pub open spec fn same_as(self, other: Self) -> bool {
        match (self, other) {
            (
                ProductInboundPayload::UserMessage { text, attachments, trigger_reason },
                ProductInboundPayload::UserMessage {
                    text: other_text,
                    attachments: other_attachments,
                    trigger_reason: other_trigger_reason,
                },
            ) => {
                &&& text == other_text
                &&& attachments@ == other_attachments@
                &&& trigger_reason == other_trigger_reason
            },
            _ => self == other,
        }
    }
}

impl Clone for ProductInboundPayload {
    fn clone(&self) -> (copy: Self)
        ensures
            copy.same_as(*self),
    {
        match self {
            ProductInboundPayload::UserMessage { text, attachments, trigger_reason } => {
                let copied = attachments.clone();
                assert(copied@ =~= attachments@);
                ProductInboundPayload::UserMessage {
                    text: text.clone(),
                    attachments: copied,
                    trigger_reason: trigger_reason.clone(),
                }
            },
            ProductInboundPayload::Command { command } => {
                ProductInboundPayload::Command { command: command.clone() }
            },
            ProductInboundPayload::ApprovalResolution => ProductInboundPayload::ApprovalResolution,
            ProductInboundPayload::AuthResolution => ProductInboundPayload::AuthResolution,
            ProductInboundPayload::SubscriptionRequest => {
                ProductInboundPayload::SubscriptionRequest
            },
            ProductInboundPayload::LinkedThreadAction => ProductInboundPayload::LinkedThreadAction,
            ProductInboundPayload::NoOp => ProductInboundPayload::NoOp,
        }
    }
}

/// One verified inbound event.
#[derive(Debug, PartialEq, Eq)]
pub struct ProductInboundEnvelope {
    pub adapter_id: String,
    pub installation_id: String,
    pub external_event_id: String,
    pub external_actor_ref: ExternalActorRef,
    pub external_conversation_ref: ExternalConversationRef,
    pub auth_claim: VerifiedAuthClaim,
    /// Names the conversation within the installation.
    pub source_binding_key: String,
    pub received_at: Timestamp,
    pub payload: ProductInboundPayload,
}

impl Clone for ProductInboundEnvelope {
    fn clone(&self) -> (copy: Self)
        ensures
            copy == (ProductInboundEnvelope { payload: copy.payload, ..*self }),
            copy.payload.same_as(self.payload),
    {
        ProductInboundEnvelope {
            adapter_id: self.adapter_id.clone(),
            installation_id: self.installation_id.clone(),
            external_event_id: self.external_event_id.clone(),
            external_actor_ref: self.external_actor_ref.clone(),
            external_conversation_ref: self.external_conversation_ref.clone(),
            auth_claim: self.auth_claim.clone(),
            source_binding_key: self.source_binding_key.clone(),
            received_at: self.received_at,
            payload: self.payload.clone(),
        }
    }
}

/// What the adapter is told about an envelope that was taken.
#[derive(Debug, PartialEq, Eq)]
pub enum ProductInboundAck {
    /// The message is in its thread and its turn was submitted.
    Accepted { accepted_message_ref: AcceptedMessageRef, submitted_run_id: TurnRunId },
    /// The message is in its thread; the thread is busy with another run.
    DeferredBusy { accepted_message_ref: AcceptedMessageRef, active_run_id: TurnRunId },
    /// The envelope had been taken before, with this acknowledgement.
    Duplicate { prior: Box<ProductInboundAck> },
    /// There was nothing to do.
    NoOp,
}

impl Clone for ProductInboundAck {
    fn clone(&self) -> (copy: Self)
        ensures
            copy == *self,
        decreases self,
    {
        match self {
            ProductInboundAck::Accepted { accepted_message_ref, submitted_run_id } => {
                ProductInboundAck::Accepted {
                    accepted_message_ref: accepted_message_ref.clone(),
                    submitted_run_id: submitted_run_id.clone(),
                }
            },
            ProductInboundAck::DeferredBusy { accepted_message_ref, active_run_id } => {
                ProductInboundAck::DeferredBusy {
                    accepted_message_ref: accepted_message_ref.clone(),
                    active_run_id: active_run_id.clone(),
                }
            },
            ProductInboundAck::Duplicate { prior } => {
                ProductInboundAck::Duplicate { prior: Box::new((&**prior).clone()) }
            },
            ProductInboundAck::NoOp => ProductInboundAck::NoOp,
        }
    }
}

/// What the adapter is told about an envelope that was not taken.
#[derive(Clone, Debug, PartialEq, Eq)]
pub enum ProductAdapterError {
    /// The workflow failed.
    Workflow(ProductWorkflowError),
    /// The host is in a state that it should not be in.
    Internal { detail: String },
}

/// A [`ProductAdapterError`] with its strings read as character sequences.
pub enum ProductAdapterErrorView {
    Workflow(ProductWorkflowErrorView),
    Internal { detail: Seq<char> },
}

impl ProductAdapterErrorView {
    /// A later delivery of the envelope may fare better. A transient failure is
    /// retryable by what it means; that no other error is retryable is the choice
    /// of this library.
    pub open spec fn retryable(self) -> bool {
        self matches ProductAdapterErrorView::Workflow(error) && error is Transient
    }
}

impl View for ProductAdapterError {
    type V = ProductAdapterErrorView;

    open spec fn view(&self) -> ProductAdapterErrorView {
        match self {
            ProductAdapterError::Workflow(error) => ProductAdapterErrorView::Workflow(error@),
            ProductAdapterError::Internal { detail } => {
                ProductAdapterErrorView::Internal { detail: detail@ }
            },
        }
    }
}

impl ProductAdapterError {
    /// Whether the adapter should deliver the envelope again: after a transient
    /// failure and, by the choice of this library, after no other.
    pub fn is_retryable(&self) -> (retryable: bool)
        ensures
            retryable == self@.retryable(),
    {
        match self {
            ProductAdapterError::Workflow(ProductWorkflowError::Transient { .. }) => true,
            _ => false,
        }
    }
}

/// A copied envelope brings the same event: every part of it, the message with
/// its attachments and trigger included.
pub proof fn copied_envelope_is_the_same_event(
    envelope: ProductInboundEnvelope,
    copy: ProductInboundEnvelope,
)
    requires
        call_ensures(ProductInboundEnvelope::clone, (&envelope,), copy),
    ensures
        copy.adapter_id == envelope.adapter_id,
        copy.installation_id == envelope.installation_id,
        copy.external_event_id == envelope.external_event_id,
        copy.external_actor_ref == envelope.external_actor_ref,
        copy.external_conversation_ref == envelope.external_conversation_ref,
        copy.auth_claim == envelope.auth_claim,
        copy.source_binding_key == envelope.source_binding_key,
        copy.received_at == envelope.received_at,
        envelope.payload matches ProductInboundPayload::UserMessage {
            text,
            attachments,
            trigger_reason,
        } ==> {
            &&& copy.payload is UserMessage
            &&& copy.payload->text == text
            &&& copy.payload->attachments@ == attachments@
            &&& copy.payload->trigger_reason == trigger_reason
        },
        !(envelope.payload is UserMessage) ==> copy.payload == envelope.payload,
{
}

/// A copied payload asks for the same, with the same contents.
pub proof fn copied_payload_has_the_same_contents(
    payload: ProductInboundPayload,
    copy: ProductInboundPayload,
)
    requires
        call_ensures(ProductInboundPayload::clone, (&payload,), copy),
    ensures
        payload matches ProductInboundPayload::UserMessage { text, attachments, trigger_reason }
            ==> {
            &&& copy is UserMessage
            &&& copy->text == text
            &&& copy->attachments@ == attachments@
            &&& copy->trigger_reason == trigger_reason
        },
        !(payload is UserMessage) ==> copy == payload,
{
}

/// An error is worth another delivery exactly where it is a transient failure of
/// the workflow.
pub proof fn only_transient_failures_are_retryable(error: ProductAdapterError, retryable: bool)
    requires
        call_ensures(ProductAdapterError::is_retryable, (&error,), retryable),
    ensures
        retryable <==> error is Workflow && error->Workflow_0 is Transient,
{
}

/// Reading an error keeps all of it: a failure of the workflow reads as that
/// failure, and an internal error as its detail.
pub proof fn adapter_error_view_keeps_everything(
    first: ProductAdapterError,
    second: ProductAdapterError,
)
    ensures
        first@ == second@ <==> match first {
            ProductAdapterError::Workflow(error) => second is Workflow && second->Workflow_0@
                == error@,
            ProductAdapterError::Internal { detail } => second is Internal && second->detail@
                == detail@,
        },
        first@ is Workflow <==> first is Workflow,
{
}

/// A copied actor, conversation or proof is the same in every part.
pub proof fn copied_sender_is_the_same(
    actor: ExternalActorRef,
    conversation: ExternalConversationRef,
    claim: VerifiedAuthClaim,
    actor_copy: ExternalActorRef,
    conversation_copy: ExternalConversationRef,
    claim_copy: VerifiedAuthClaim,
)
    requires
        call_ensures(ExternalActorRef::clone, (&actor,), actor_copy),
        call_ensures(ExternalConversationRef::clone, (&conversation,), conversation_copy),
        call_ensures(VerifiedAuthClaim::clone, (&claim,), claim_copy),
    ensures
        actor_copy.kind == actor.kind,
        actor_copy.id == actor.id,
        actor_copy.display_name == actor.display_name,
        conversation_copy.space_id == conversation.space_id,
        conversation_copy.conversation_id == conversation.conversation_id,
        conversation_copy.topic_id == conversation.topic_id,
        conversation_copy.message_id == conversation.message_id,
        claim_copy.scheme == claim.scheme,
        claim_copy.parameter == claim.parameter,
        claim_copy.subject == claim.subject,
{
}

/// A copied acknowledgement tells the adapter the same.
pub proof fn copied_acknowledgement_is_the_same(ack: ProductInboundAck, copy: ProductInboundAck)
    requires
        call_ensures(ProductInboundAck::clone, (&ack,), copy),
    ensures
        copy == ack,
{
}

} // verus!
