//! References and requests of the turn coordinator.
use vstd::prelude::*;

verus! {

/// A point in time: whole seconds since the Unix epoch, and the nanoseconds
/// into that second.
#[derive(Clone, Copy, Debug, PartialEq, Eq)]
pub struct Timestamp {
    pub seconds: i64,
    pub nanos: u32,
}

/// Identity of a turn, in its displayed form.
#[derive(Debug, PartialEq, Eq)]
pub struct TurnId {
    pub text: String,
}

/// Identity of one run of a turn, in its displayed form.
#[derive(Debug, PartialEq, Eq)]
pub struct TurnRunId {
    pub text: String,
}

/// Reference to a message that was accepted into a thread.
#[derive(Debug, PartialEq, Eq)]
pub struct AcceptedMessageRef {
    pub text: String,
}

/// Reference to the binding that a message came from.
#[derive(Debug, PartialEq, Eq)]
pub struct SourceBindingRef {
    pub text: String,
}

/// Reference to the binding that a reply is delivered to.
#[derive(Debug, PartialEq, Eq)]
pub struct ReplyTargetBindingRef {
    pub text: String,
}

/// Key under which the coordinator recognises a repeated submission.
#[derive(Debug, PartialEq, Eq)]
pub struct IdempotencyKey {
    pub text: String,
}

impl Clone for TurnId {
    fn clone(&self) -> (copy: Self)
        ensures
            copy == *self,
    {
        TurnId { text: self.text.clone() }
    }
}

impl Clone for TurnRunId {
    fn clone(&self) -> (copy: Self)
        ensures
            copy == *self,
    {
        TurnRunId { text: self.text.clone() }
    }
}

impl Clone for AcceptedMessageRef {
    fn clone(&self) -> (copy: Self)
        ensures
            copy == *self,
    {
        AcceptedMessageRef { text: self.text.clone() }
    }
}

impl Clone for SourceBindingRef {
    fn clone(&self) -> (copy: Self)
        ensures
            copy == *self,
    {
        SourceBindingRef { text: self.text.clone() }
    }
}

impl Clone for ReplyTargetBindingRef {
    fn clone(&self) -> (copy: Self)
        ensures
            copy == *self,
    {
        ReplyTargetBindingRef { text: self.text.clone() }
    }
}

impl Clone for IdempotencyKey {
    fn clone(&self) -> (copy: Self)
        ensures
            copy == *self,
    {
        IdempotencyKey { text: self.text.clone() }
    }
}

/// The checked references of one message and its turn.
#[derive(Debug, PartialEq, Eq)]
pub struct TurnReferences {
    pub source_binding_ref: SourceBindingRef,
    pub accepted_message_ref: AcceptedMessageRef,
    pub reply_target_binding_ref: ReplyTargetBindingRef,
    pub idempotency_key: IdempotencyKey,
}

impl Clone for TurnReferences {
    fn clone(&self) -> (copy: Self)
        ensures
            copy == *self,
    {
        TurnReferences {
            source_binding_ref: self.source_binding_ref.clone(),
            accepted_message_ref: self.accepted_message_ref.clone(),
            reply_target_binding_ref: self.reply_target_binding_ref.clone(),
            idempotency_key: self.idempotency_key.clone(),
        }
    }
}

/// An optional string, copied.
pub(crate) fn clone_option_string(value: &Option<String>) -> (copy: Option<String>)
    ensures
        copy == *value,
{
    match value {
        Some(text) => Some(text.clone()),
        None => None,
    }
}

/// The tenant, agent, project and thread that a turn runs in.
#[derive(Debug, PartialEq, Eq)]
pub struct TurnScope {
    pub tenant_id: String,
    pub agent_id: Option<String>,
    pub project_id: Option<String>,
    pub thread_id: String,
}

impl Clone for TurnScope {
    fn clone(&self) -> (copy: Self)
        ensures
            copy == *self,
    {
        TurnScope {
            tenant_id: self.tenant_id.clone(),
            agent_id: clone_option_string(&self.agent_id),
            project_id: clone_option_string(&self.project_id),
            thread_id: self.thread_id.clone(),
        }
    }
}

/// The user on whose behalf a turn runs.
#[derive(Clone, Debug, PartialEq, Eq)]
pub struct TurnActor {
    pub user_id: String,
}

/// A turn as it is submitted to the coordinator.
#[derive(Clone, Debug, PartialEq, Eq)]
pub struct SubmitTurnRequest {
    pub scope: TurnScope,
    pub actor: TurnActor,
    pub accepted_message_ref: AcceptedMessageRef,
    pub source_binding_ref: SourceBindingRef,
    pub reply_target_binding_ref: ReplyTargetBindingRef,
    pub requested_run_profile: Option<String>,
    pub idempotency_key: IdempotencyKey,
    pub received_at: Timestamp,
}

/// The coordinator's answer to a submission that it took.
#[derive(Clone, Debug, PartialEq, Eq)]
pub enum SubmitTurnResponse {
    Accepted { run_id: TurnRunId },
}

/// The coordinator's answer to a submission that it did not take.
#[derive(Clone, Debug, PartialEq, Eq)]
pub enum TurnRefusal {
    /// The thread already has an active run.
    ThreadBusy { active_run_id: TurnRunId },
    /// The turn was refused for the displayed reason.
    Rejected { reason: String },
}

/// A copied identity names the same turn, run, message, binding or submission.
pub proof fn copied_identities_are_the_same(
    turn: TurnId,
    run: TurnRunId,
    references: TurnReferences,
    turn_copy: TurnId,
    run_copy: TurnRunId,
    source_copy: SourceBindingRef,
    message_copy: AcceptedMessageRef,
    reply_copy: ReplyTargetBindingRef,
    key_copy: IdempotencyKey,
    references_copy: TurnReferences,
)
    requires
        call_ensures(TurnId::clone, (&turn,), turn_copy),
        call_ensures(TurnRunId::clone, (&run,), run_copy),
        call_ensures(SourceBindingRef::clone, (&references.source_binding_ref,), source_copy),
        call_ensures(AcceptedMessageRef::clone, (&references.accepted_message_ref,), message_copy),
        call_ensures(
            ReplyTargetBindingRef::clone,
            (&references.reply_target_binding_ref,),
            reply_copy,
        ),
        call_ensures(IdempotencyKey::clone, (&references.idempotency_key,), key_copy),
        call_ensures(TurnReferences::clone, (&references,), references_copy),
    ensures
        turn_copy.text == turn.text,
        run_copy.text == run.text,
        source_copy.text == references.source_binding_ref.text,
        message_copy.text == references.accepted_message_ref.text,
        reply_copy.text == references.reply_target_binding_ref.text,
        key_copy.text == references.idempotency_key.text,
        references_copy.source_binding_ref == references.source_binding_ref,
        references_copy.accepted_message_ref == references.accepted_message_ref,
        references_copy.reply_target_binding_ref == references.reply_target_binding_ref,
        references_copy.idempotency_key == references.idempotency_key,
{
}

/// A copied scope is the same tenant, agent, project and thread.
pub proof fn copied_scope_is_the_same(scope: TurnScope, copy: TurnScope)
    requires
        call_ensures(TurnScope::clone, (&scope,), copy),
    ensures
        copy.tenant_id == scope.tenant_id,
        copy.agent_id == scope.agent_id,
        copy.project_id == scope.project_id,
        copy.thread_id == scope.thread_id,
{
}

} // verus!
