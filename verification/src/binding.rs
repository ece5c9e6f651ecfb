//! Binding of an external conversation to the host's own identities, and the
//! message that is staged into the bound thread.
use vstd::prelude::*;

use crate::adapters::{
    ExternalActorRef, ExternalConversationRef, ProductInboundPayload, VerifiedAuthClaim,
};
use crate::turns::{TurnActor, TurnReferences, TurnScope};

verus! {

/// What the binding service needs to know of an envelope.
#[derive(Clone, Debug, PartialEq, Eq)]
pub struct ResolveBindingRequest {
    pub adapter_id: String,
    pub installation_id: String,
    pub external_actor_ref: ExternalActorRef,
    pub external_conversation_ref: ExternalConversationRef,
    pub auth_claim: VerifiedAuthClaim,
}

/// The host identities that a conversation is bound to.
#[derive(Clone, Debug, PartialEq, Eq)]
pub struct ResolvedBinding {
    pub tenant_id: String,
    pub user_id: String,
    pub agent_id: Option<String>,
    pub project_id: Option<String>,
    pub thread_id: String,
}

/// A message as it is staged into its session thread: the thread and the user
/// that it is bound to, the references that it goes by, the event that brought it
/// and what it says.
#[derive(Clone, Debug, PartialEq, Eq)]
pub struct StageMessageRequest {
    pub scope: TurnScope,
    pub actor: TurnActor,
    pub references: TurnReferences,
    pub external_event_id: String,
    pub payload: ProductInboundPayload,
}

} // verus!
