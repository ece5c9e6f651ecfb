//! Entries of the idempotency ledger.
use vstd::prelude::*;

use crate::adapters::{ProductInboundAck, ProductInboundPayload};

verus! {

/// What makes two deliveries the same action: the adapter, its installation, the
/// conversation and the event.
#[derive(Clone, Debug, PartialEq, Eq)]
pub struct ActionFingerprintKey {
    pub adapter_id: String,
    pub installation_id: String,
    pub source_binding_key: String,
    pub external_event_id: String,
}

/// An [`ActionFingerprintKey`] with its strings read as character sequences.
pub struct ActionFingerprintKeyView {
    pub adapter_id: Seq<char>,
    pub installation_id: Seq<char>,
    pub source_binding_key: Seq<char>,
    pub external_event_id: Seq<char>,
}

impl View for ActionFingerprintKey {
    type V = ActionFingerprintKeyView;

    open spec fn view(&self) -> ActionFingerprintKeyView {
        ActionFingerprintKeyView {
            adapter_id: self.adapter_id@,
            installation_id: self.installation_id@,
            source_binding_key: self.source_binding_key@,
            external_event_id: self.external_event_id@,
        }
    }
}

/// The kind of payload that an action was dispatched as.
#[derive(Clone, Copy, Debug, PartialEq, Eq)]
pub enum ActionDispatchKind {
    UserMessage,
    Command,
    ApprovalResolution,
    AuthResolution,
    SubscriptionRequest,
    LinkedThreadAction,
    NoOp,
}

/// The dispatch kind of a payload: the payload's own kind.
pub open spec fn dispatch_kind_of(payload: ProductInboundPayload) -> ActionDispatchKind {
    match payload {
        ProductInboundPayload::UserMessage { .. } => ActionDispatchKind::UserMessage,
        ProductInboundPayload::Command { .. } => ActionDispatchKind::Command,
        ProductInboundPayload::ApprovalResolution => ActionDispatchKind::ApprovalResolution,
        ProductInboundPayload::AuthResolution => ActionDispatchKind::AuthResolution,
        ProductInboundPayload::SubscriptionRequest => ActionDispatchKind::SubscriptionRequest,
        ProductInboundPayload::LinkedThreadAction => ActionDispatchKind::LinkedThreadAction,
        ProductInboundPayload::NoOp => ActionDispatchKind::NoOp,
    }
}

impl ActionDispatchKind {
    /// The kind that an action with this payload is recorded under.
    pub fn from_payload(payload: &ProductInboundPayload) -> (kind: Self)
        ensures
            kind == dispatch_kind_of(*payload),
    {
        match payload {
            ProductInboundPayload::UserMessage { .. } => ActionDispatchKind::UserMessage,
            ProductInboundPayload::Command { .. } => ActionDispatchKind::Command,
            ProductInboundPayload::ApprovalResolution => ActionDispatchKind::ApprovalResolution,
            ProductInboundPayload::AuthResolution => ActionDispatchKind::AuthResolution,
            ProductInboundPayload::SubscriptionRequest => ActionDispatchKind::SubscriptionRequest,
            ProductInboundPayload::LinkedThreadAction => ActionDispatchKind::LinkedThreadAction,
            ProductInboundPayload::NoOp => ActionDispatchKind::NoOp,
        }
    }
}

/// One action as the ledger records it.
#[derive(Clone, Debug, PartialEq, Eq)]
pub struct LedgerAction {
    pub action_id: String,
    /// How the action was dispatched, once it was.
    pub dispatch_kind: Option<ActionDispatchKind>,
    /// The acknowledgement that the action ended with, once it did.
    pub outcome: Option<ProductInboundAck>,
}

impl LedgerAction {
    /// Records how the action was dispatched.
    pub fn mark_dispatched(&mut self, kind: ActionDispatchKind)
        ensures
            *final(self) == (LedgerAction { dispatch_kind: Some(kind), ..*old(self) }),
    {
        self.dispatch_kind = Some(kind);
    }

    /// Records the acknowledgement that the action ended with.
    pub fn settle(&mut self, ack: ProductInboundAck)
        ensures
            *final(self) == (LedgerAction { outcome: Some(ack), ..*old(self) }),
    {
        self.outcome = Some(ack);
    }
}

/// The ledger's answer to an action that asks to begin.
#[derive(Clone, Debug, PartialEq, Eq)]
pub enum IdempotencyDecision {
    /// Nothing is known of the action; it may proceed.
    New(LedgerAction),
    /// The action was settled before.
    Replay(LedgerAction),
}

/// An action is recorded under the kind of its own payload, so under different
/// kinds for payloads of different kinds.
pub proof fn action_is_recorded_under_its_payloads_kind(
    payload: ProductInboundPayload,
    kind: ActionDispatchKind,
)
    requires
        call_ensures(ActionDispatchKind::from_payload, (&payload,), kind),
    ensures
        kind is UserMessage <==> payload is UserMessage,
        kind is Command <==> payload is Command,
        kind is ApprovalResolution <==> payload is ApprovalResolution,
        kind is AuthResolution <==> payload is AuthResolution,
        kind is SubscriptionRequest <==> payload is SubscriptionRequest,
        kind is LinkedThreadAction <==> payload is LinkedThreadAction,
        kind is NoOp <==> payload is NoOp,
{
}

/// Reading a key keeps all of it.
pub proof fn fingerprint_view_keeps_everything(
    first: ActionFingerprintKey,
    second: ActionFingerprintKey,
)
    ensures
        first@ == second@ <==> {
            &&& first.adapter_id@ == second.adapter_id@
            &&& first.installation_id@ == second.installation_id@
            &&& first.source_binding_key@ == second.source_binding_key@
            &&& first.external_event_id@ == second.external_event_id@
        },
{
}

} // verus!
