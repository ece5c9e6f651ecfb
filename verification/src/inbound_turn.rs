//! The user-message path: from an envelope to a submitted turn.
//!
//! A run resolves the conversation binding, has the four references of the
//! message and its turn checked, stages the message into the bound session
//! thread, and submits the turn to the coordinator.
use vstd::prelude::*;
use vstd::string::*;

use crate::adapters::{ProductInboundAck, ProductInboundEnvelope};
use crate::binding::{ResolveBindingRequest, ResolvedBinding, StageMessageRequest};
use crate::error::{ProductWorkflowError, ProductWorkflowErrorView};
use crate::turns::{
    clone_option_string, AcceptedMessageRef, IdempotencyKey, ReplyTargetBindingRef,
    SourceBindingRef, SubmitTurnRequest, SubmitTurnResponse, Timestamp, TurnActor,
    TurnReferences, TurnRefusal, TurnRunId, TurnScope,
};

verus! {

/// Result of the inbound turn submission flow.
#[derive(Clone, Debug, PartialEq, Eq)]
pub enum InboundTurnOutcome {
    /// The turn was accepted and submitted to the coordinator.
    Submitted {
        accepted_message_ref: AcceptedMessageRef,
        submitted_run_id: TurnRunId,
        binding: ResolvedBinding,
    },
    /// The thread already has an active run. The message was accepted but
    /// deferred.
    DeferredBusy {
        accepted_message_ref: AcceptedMessageRef,
        active_run_id: TurnRunId,
        binding: ResolvedBinding,
    },
}

/// The acknowledgement of an outcome: the outcome without its binding.
pub open spec fn ack_of(outcome: InboundTurnOutcome) -> ProductInboundAck {
    match outcome {
        InboundTurnOutcome::Submitted { accepted_message_ref, submitted_run_id, .. } => {
            ProductInboundAck::Accepted { accepted_message_ref, submitted_run_id }
        },
        InboundTurnOutcome::DeferredBusy { accepted_message_ref, active_run_id, .. } => {
            ProductInboundAck::DeferredBusy { accepted_message_ref, active_run_id }
        },
    }
}

impl InboundTurnOutcome {
    /// The acknowledgement that is safe to show the adapter.
    pub fn to_ack(&self) -> (ack: ProductInboundAck)
        ensures
            ack == ack_of(*self),
    {
        match self {
            InboundTurnOutcome::Submitted { accepted_message_ref, submitted_run_id, .. } => {
                ProductInboundAck::Accepted {
                    accepted_message_ref: accepted_message_ref.clone(),
                    submitted_run_id: submitted_run_id.clone(),
                }
            },
            InboundTurnOutcome::DeferredBusy { accepted_message_ref, active_run_id, .. } => {
                ProductInboundAck::DeferredBusy {
                    accepted_message_ref: accepted_message_ref.clone(),
                    active_run_id: active_run_id.clone(),
                }
            },
        }
    }
}

/// A conversation binding service, which also keeps the bound threads, together
/// with a turn coordinator: the services behind the questions of an
/// [`InboundTurnRun`].
pub struct DefaultInboundTurnService<B, C> {
    binding_service: B,
    turn_coordinator: C,
}

impl<B, C> DefaultInboundTurnService<B, C> {
    /// The binding service that this service was composed from.
    pub closed spec fn spec_binding_service(self) -> B {
        self.binding_service
    }

    /// The coordinator that this service was composed from.
    pub closed spec fn spec_turn_coordinator(self) -> C {
        self.turn_coordinator
    }

    pub fn new(binding_service: B, turn_coordinator: C) -> (service: Self)
        ensures
            service.spec_binding_service() == binding_service,
            service.spec_turn_coordinator() == turn_coordinator,
    {
        DefaultInboundTurnService { binding_service, turn_coordinator }
    }

    pub fn binding_service(&self) -> (service: &B)
        ensures
            *service == self.spec_binding_service(),
    {
        &self.binding_service
    }

    pub fn turn_coordinator(&self) -> (coordinator: &C)
        ensures
            *coordinator == self.spec_turn_coordinator(),
    {
        &self.turn_coordinator
    }
}

/// The binding request of an envelope: who sent it, where, and on what proof.
pub open spec fn binding_request_of(envelope: ProductInboundEnvelope) -> ResolveBindingRequest {
    ResolveBindingRequest {
        adapter_id: envelope.adapter_id,
        installation_id: envelope.installation_id,
        external_actor_ref: envelope.external_actor_ref,
        external_conversation_ref: envelope.external_conversation_ref,
        auth_claim: envelope.auth_claim,
    }
}

/// The text that an envelope's accepted message is referred to by.
pub open spec fn accepted_message_text(envelope: ProductInboundEnvelope) -> Seq<char> {
    "msg:"@ + envelope.external_event_id@
}

/// The text that an envelope's reply target is referred to by.
pub open spec fn reply_target_text(envelope: ProductInboundEnvelope) -> Seq<char> {
    "reply:"@ + envelope.source_binding_key@
}

/// The text that an envelope's submission is recognised by.
pub open spec fn idempotency_text(envelope: ProductInboundEnvelope) -> Seq<char> {
    "turn:"@ + envelope.adapter_id@ + ":"@ + envelope.installation_id@ + ":"@
        + envelope.external_event_id@
}

/// The tenant, agent, project and thread of a binding.
pub open spec fn scope_of(binding: ResolvedBinding) -> TurnScope {
    TurnScope {
        tenant_id: binding.tenant_id,
        agent_id: binding.agent_id,
        project_id: binding.project_id,
        thread_id: binding.thread_id,
    }
}

/// The message of an envelope, as it is staged into the bound thread on behalf of
/// the bound user.
pub open spec fn stage_request_of(
    envelope: ProductInboundEnvelope,
    binding: ResolvedBinding,
    references: TurnReferences,
) -> StageMessageRequest {
    StageMessageRequest {
        scope: scope_of(binding),
        actor: TurnActor { user_id: binding.user_id },
        references,
        external_event_id: envelope.external_event_id,
        payload: envelope.payload,
    }
}

/// The turn of a staged message: it runs in the bound tenant, agent, project and
/// thread, on behalf of the bound user, under no particular run profile, and
/// keeps the time at which the envelope was received.
pub open spec fn turn_request_of(
    received_at: Timestamp,
    binding: ResolvedBinding,
    references: TurnReferences,
) -> SubmitTurnRequest {
    SubmitTurnRequest {
        scope: scope_of(binding),
        actor: TurnActor { user_id: binding.user_id },
        accepted_message_ref: references.accepted_message_ref,
        source_binding_ref: references.source_binding_ref,
        reply_target_binding_ref: references.reply_target_binding_ref,
        requested_run_profile: None,
        idempotency_key: references.idempotency_key,
        received_at,
    }
}

/// The request that asks the binding service about an envelope.
pub fn binding_request(envelope: &ProductInboundEnvelope) -> (request: ResolveBindingRequest)
    ensures
        request == binding_request_of(*envelope),
{
    ResolveBindingRequest {
        adapter_id: envelope.adapter_id.clone(),
        installation_id: envelope.installation_id.clone(),
        external_actor_ref: envelope.external_actor_ref.clone(),
        external_conversation_ref: envelope.external_conversation_ref.clone(),
        auth_claim: envelope.auth_claim.clone(),
    }
}

fn bound_scope(binding: &ResolvedBinding) -> (scope: TurnScope)
    ensures
        scope == scope_of(*binding),
{
    TurnScope {
        tenant_id: binding.tenant_id.clone(),
        agent_id: clone_option_string(&binding.agent_id),
        project_id: clone_option_string(&binding.project_id),
        thread_id: binding.thread_id.clone(),
    }
}

/// The request that stages an envelope's message into its thread.
pub fn stage_request(
    envelope: ProductInboundEnvelope,
    binding: &ResolvedBinding,
    references: TurnReferences,
) -> (request: StageMessageRequest)
    ensures
        request == stage_request_of(envelope, *binding, references),
{
    StageMessageRequest {
        scope: bound_scope(binding),
        actor: TurnActor { user_id: binding.user_id.clone() },
        references,
        external_event_id: envelope.external_event_id,
        payload: envelope.payload,
    }
}

/// The request that submits the turn of a staged message.
pub fn turn_request(
    received_at: Timestamp,
    binding: &ResolvedBinding,
    references: TurnReferences,
) -> (request: SubmitTurnRequest)
    ensures
        request == turn_request_of(received_at, *binding, references),
{
    SubmitTurnRequest {
        scope: bound_scope(binding),
        actor: TurnActor { user_id: binding.user_id.clone() },
        accepted_message_ref: references.accepted_message_ref,
        source_binding_ref: references.source_binding_ref,
        reply_target_binding_ref: references.reply_target_binding_ref,
        requested_run_profile: None,
        idempotency_key: references.idempotency_key,
        received_at,
    }
}

/// Where a user message stands on its way to a submitted turn. Every variant but
/// `Done` is a question: its `request` or `candidate` is what is asked, and its
/// other fields are what later questions need of the envelope, and what earlier
/// answers brought.
#[allow(inconsistent_fields)]
#[derive(Debug, PartialEq, Eq)]
pub enum InboundTurnRun {
    /// Which host identities is the conversation bound to?
    ResolveBinding { envelope: ProductInboundEnvelope, request: ResolveBindingRequest },
    /// Is the candidate a source binding reference?
    CheckSourceBindingRef {
        envelope: ProductInboundEnvelope,
        binding: ResolvedBinding,
        candidate: String,
    },
    /// Is the candidate an accepted message reference?
    CheckAcceptedMessageRef {
        envelope: ProductInboundEnvelope,
        binding: ResolvedBinding,
        source_binding_ref: SourceBindingRef,
        candidate: String,
    },
    /// Is the candidate a reply target binding reference?
    CheckReplyTargetBindingRef {
        envelope: ProductInboundEnvelope,
        binding: ResolvedBinding,
        source_binding_ref: SourceBindingRef,
        accepted_message_ref: AcceptedMessageRef,
        candidate: String,
    },
    /// Is the candidate an idempotency key?
    CheckIdempotencyKey {
        envelope: ProductInboundEnvelope,
        binding: ResolvedBinding,
        source_binding_ref: SourceBindingRef,
        accepted_message_ref: AcceptedMessageRef,
        reply_target_binding_ref: ReplyTargetBindingRef,
        candidate: String,
    },
    /// Does the session thread take the message?
    StageMessage {
        received_at: Timestamp,
        binding: ResolvedBinding,
        request: StageMessageRequest,
    },
    /// Does the coordinator take the turn?
    SubmitTurn { binding: ResolvedBinding, request: SubmitTurnRequest },
    /// The run is over.
    Done { result: Result<InboundTurnOutcome, ProductWorkflowError> },
}

/// An [`InboundTurnRun`] with its candidates and errors read as character
/// sequences.
#[allow(inconsistent_fields)]
pub enum InboundTurnRunView {
    ResolveBinding { envelope: ProductInboundEnvelope, request: ResolveBindingRequest },
    CheckSourceBindingRef {
        envelope: ProductInboundEnvelope,
        binding: ResolvedBinding,
        candidate: Seq<char>,
    },
    CheckAcceptedMessageRef {
        envelope: ProductInboundEnvelope,
        binding: ResolvedBinding,
        source_binding_ref: SourceBindingRef,
        candidate: Seq<char>,
    },
    CheckReplyTargetBindingRef {
        envelope: ProductInboundEnvelope,
        binding: ResolvedBinding,
        source_binding_ref: SourceBindingRef,
        accepted_message_ref: AcceptedMessageRef,
        candidate: Seq<char>,
    },
    CheckIdempotencyKey {
        envelope: ProductInboundEnvelope,
        binding: ResolvedBinding,
        source_binding_ref: SourceBindingRef,
        accepted_message_ref: AcceptedMessageRef,
        reply_target_binding_ref: ReplyTargetBindingRef,
        candidate: Seq<char>,
    },
    StageMessage {
        received_at: Timestamp,
        binding: ResolvedBinding,
        request: StageMessageRequest,
    },
    SubmitTurn { binding: ResolvedBinding, request: SubmitTurnRequest },
    Done { result: Result<InboundTurnOutcome, ProductWorkflowErrorView> },
}

impl View for InboundTurnRun {
    type V = InboundTurnRunView;

    open spec fn view(&self) -> InboundTurnRunView {
        match *self {
            InboundTurnRun::ResolveBinding { envelope, request } => {
                InboundTurnRunView::ResolveBinding { envelope, request }
            },
            InboundTurnRun::CheckSourceBindingRef { envelope, binding, candidate } => {
                InboundTurnRunView::CheckSourceBindingRef {
                    envelope,
                    binding,
                    candidate: candidate@,
                }
            },
            InboundTurnRun::CheckAcceptedMessageRef {
                envelope,
                binding,
                source_binding_ref,
                candidate,
            } => InboundTurnRunView::CheckAcceptedMessageRef {
                envelope,
                binding,
                source_binding_ref,
                candidate: candidate@,
            },
            InboundTurnRun::CheckReplyTargetBindingRef {
                envelope,
                binding,
                source_binding_ref,
                accepted_message_ref,
                candidate,
            } => InboundTurnRunView::CheckReplyTargetBindingRef {
                envelope,
                binding,
                source_binding_ref,
                accepted_message_ref,
                candidate: candidate@,
            },
            InboundTurnRun::CheckIdempotencyKey {
                envelope,
                binding,
                source_binding_ref,
                accepted_message_ref,
                reply_target_binding_ref,
                candidate,
            } => InboundTurnRunView::CheckIdempotencyKey {
                envelope,
                binding,
                source_binding_ref,
                accepted_message_ref,
                reply_target_binding_ref,
                candidate: candidate@,
            },
            InboundTurnRun::StageMessage { received_at, binding, request } => {
                InboundTurnRunView::StageMessage { received_at, binding, request }
            },
            InboundTurnRun::SubmitTurn { binding, request } => {
                InboundTurnRunView::SubmitTurn { binding, request }
            },
            InboundTurnRun::Done { result } => InboundTurnRunView::Done {
                result: match result {
                    Ok(outcome) => Ok(outcome),
                    Err(error) => Err(error@),
                },
            },
        }
    }
}

/// The answer to a question of an [`InboundTurnRun`]. A reference that does not
/// pass its check comes back as the displayed text of the refusal.
#[derive(Debug, PartialEq, Eq)]
pub enum InboundTurnAnswer {
    BindingResolved(Result<ResolvedBinding, ProductWorkflowError>),
    SourceBindingRefChecked(Result<SourceBindingRef, String>),
    AcceptedMessageRefChecked(Result<AcceptedMessageRef, String>),
    ReplyTargetBindingRefChecked(Result<ReplyTargetBindingRef, String>),
    IdempotencyKeyChecked(Result<IdempotencyKey, String>),
    MessageStaged(Result<(), ProductWorkflowError>),
    TurnSubmitted(Result<SubmitTurnResponse, TurnRefusal>),
}

/// The end of a run that an error stops.
pub open spec fn stopped(error: ProductWorkflowErrorView) -> InboundTurnRunView {
    InboundTurnRunView::Done { result: Err(error) }
}

/// A binding that is refused for an unusable source reference.
pub open spec fn unusable_source(refusal: Seq<char>) -> ProductWorkflowErrorView {
    ProductWorkflowErrorView::BindingResolutionFailed {
        reason: "invalid source binding ref: "@ + refusal,
    }
}

/// A turn that is refused for an unusable reference of the named sort.
pub open spec fn unusable_turn_ref(
    sort: Seq<char>,
    refusal: Seq<char>,
) -> ProductWorkflowErrorView {
    ProductWorkflowErrorView::TurnSubmissionRejected { reason: sort + refusal }
}

impl InboundTurnRunView {
    /// The answer is one to the pending question.
    pub open spec fn awaits(self, answer: InboundTurnAnswer) -> bool {
        ||| self is ResolveBinding && answer is BindingResolved
        ||| self is CheckSourceBindingRef && answer is SourceBindingRefChecked
        ||| self is CheckAcceptedMessageRef && answer is AcceptedMessageRefChecked
        ||| self is CheckReplyTargetBindingRef && answer is ReplyTargetBindingRefChecked
        ||| self is CheckIdempotencyKey && answer is IdempotencyKeyChecked
        ||| self is StageMessage && answer is MessageStaged
        ||| self is SubmitTurn && answer is TurnSubmitted
    }

    /// The run that an answer leads to. An answer to a question that is not
    /// pending changes nothing.
    pub open spec fn next(self, answer: InboundTurnAnswer) -> InboundTurnRunView {
        match (self, answer) {
            (
                InboundTurnRunView::ResolveBinding { envelope, .. },
                InboundTurnAnswer::BindingResolved(answered),
            ) => match answered {
                Err(error) => stopped(error@),
                Ok(binding) => InboundTurnRunView::CheckSourceBindingRef {
                    envelope,
                    binding,
                    candidate: envelope.source_binding_key@,
                },
            },
            (
                InboundTurnRunView::CheckSourceBindingRef { envelope, binding, .. },
                InboundTurnAnswer::SourceBindingRefChecked(answered),
            ) => match answered {
                Err(refusal) => stopped(unusable_source(refusal@)),
                Ok(source_binding_ref) => InboundTurnRunView::CheckAcceptedMessageRef {
                    envelope,
                    binding,
                    source_binding_ref,
                    candidate: accepted_message_text(envelope),
                },
            },
            (
                InboundTurnRunView::CheckAcceptedMessageRef {
                    envelope,
                    binding,
                    source_binding_ref,
                    ..
                },
                InboundTurnAnswer::AcceptedMessageRefChecked(answered),
            ) => match answered {
                Err(refusal) => stopped(
                    unusable_turn_ref("invalid accepted message ref: "@, refusal@),
                ),
                Ok(accepted_message_ref) => InboundTurnRunView::CheckReplyTargetBindingRef {
                    envelope,
                    binding,
                    source_binding_ref,
                    accepted_message_ref,
                    candidate: reply_target_text(envelope),
                },
            },
            (
                InboundTurnRunView::CheckReplyTargetBindingRef {
                    envelope,
                    binding,
                    source_binding_ref,
                    accepted_message_ref,
                    ..
                },
                InboundTurnAnswer::ReplyTargetBindingRefChecked(answered),
            ) => match answered {
                Err(refusal) => stopped(
                    unusable_turn_ref("invalid reply target binding ref: "@, refusal@),
                ),
                Ok(reply_target_binding_ref) => InboundTurnRunView::CheckIdempotencyKey {
                    envelope,
                    binding,
                    source_binding_ref,
                    accepted_message_ref,
                    reply_target_binding_ref,
                    candidate: idempotency_text(envelope),
                },
            },
            (
                InboundTurnRunView::CheckIdempotencyKey {
                    envelope,
                    binding,
                    source_binding_ref,
                    accepted_message_ref,
                    reply_target_binding_ref,
                    ..
                },
                InboundTurnAnswer::IdempotencyKeyChecked(answered),
            ) => match answered {
                Err(refusal) => stopped(
                    unusable_turn_ref("invalid idempotency key: "@, refusal@),
                ),
                Ok(idempotency_key) => InboundTurnRunView::StageMessage {
                    received_at: envelope.received_at,
                    binding,
                    request: stage_request_of(
                        envelope,
                        binding,
                        TurnReferences {
                            source_binding_ref,
                            accepted_message_ref,
                            reply_target_binding_ref,
                            idempotency_key,
                        },
                    ),
                },
            },
            (
                InboundTurnRunView::StageMessage { received_at, binding, request },
                InboundTurnAnswer::MessageStaged(answered),
            ) => match answered {
                Err(error) => stopped(error@),
                Ok(_) => InboundTurnRunView::SubmitTurn {
                    binding,
                    request: turn_request_of(received_at, binding, request.references),
                },
            },
            (
                InboundTurnRunView::SubmitTurn { binding, request },
                InboundTurnAnswer::TurnSubmitted(answered),
            ) => match answered {
                Err(TurnRefusal::Rejected { reason }) => stopped(
                    ProductWorkflowErrorView::TurnSubmissionRejected { reason: reason@ },
                ),
                Err(TurnRefusal::ThreadBusy { active_run_id }) => InboundTurnRunView::Done {
                    result: Ok(
                        InboundTurnOutcome::DeferredBusy {
                            accepted_message_ref: request.accepted_message_ref,
                            active_run_id,
                            binding,
                        },
                    ),
                },
                Ok(SubmitTurnResponse::Accepted { run_id }) => InboundTurnRunView::Done {
                    result: Ok(
                        InboundTurnOutcome::Submitted {
                            accepted_message_ref: request.accepted_message_ref,
                            submitted_run_id: run_id,
                            binding,
                        },
                    ),
                },
            },
            (unchanged, _) => unchanged,
        }
    }
}

/// The run of an envelope, before anything was asked.
pub open spec fn turn_begun(envelope: ProductInboundEnvelope) -> InboundTurnRunView {
    InboundTurnRunView::ResolveBinding { envelope, request: binding_request_of(envelope) }
}

/// A turn submission that is refused with a prefixed reason.
fn turn_rejected(prefix: &str, refusal: &String) -> (run: InboundTurnRun)
    ensures
        run@ == stopped(unusable_turn_ref(prefix@, refusal@)),
{
    let reason = prefix.to_string().concat(refusal.as_str());
    InboundTurnRun::Done { result: Err(ProductWorkflowError::TurnSubmissionRejected { reason }) }
}

impl InboundTurnRun {
    /// The run of an envelope, before anything was asked.
    pub fn begin(envelope: ProductInboundEnvelope) -> (run: Self)
        ensures
            run@ == turn_begun(envelope),
    {
        let request = binding_request(&envelope);
        InboundTurnRun::ResolveBinding { envelope, request }
    }

    /// Takes the answer to the pending question.
    pub fn step(self, answer: InboundTurnAnswer) -> (run: Self)
        ensures
            run@ == self@.next(answer),
    {
        match (self, answer) {
            (
                InboundTurnRun::ResolveBinding { envelope, .. },
                InboundTurnAnswer::BindingResolved(answered),
            ) => match answered {
                Err(error) => InboundTurnRun::Done { result: Err(error) },
                Ok(binding) => {
                    let candidate = envelope.source_binding_key.clone();
                    InboundTurnRun::CheckSourceBindingRef {
                        envelope,
                        binding,
                        candidate,
                    }
                },
            },
            (
                InboundTurnRun::CheckSourceBindingRef { envelope, binding, .. },
                InboundTurnAnswer::SourceBindingRefChecked(answered),
            ) => match answered {
                Err(refusal) => InboundTurnRun::Done {
                    result: Err(
                        ProductWorkflowError::BindingResolutionFailed {
                            reason: "invalid source binding ref: ".to_string().concat(
                                refusal.as_str(),
                            ),
                        },
                    ),
                },
                Ok(source_binding_ref) => {
                    let candidate = "msg:".to_string().concat(
                        envelope.external_event_id.as_str(),
                    );
                    InboundTurnRun::CheckAcceptedMessageRef {
                        envelope,
                        binding,
                        source_binding_ref,
                        candidate,
                    }
                },
            },
            (
                InboundTurnRun::CheckAcceptedMessageRef {
                    envelope,
                    binding,
                    source_binding_ref,
                    ..
                },
                InboundTurnAnswer::AcceptedMessageRefChecked(answered),
            ) => match answered {
                Err(refusal) => turn_rejected("invalid accepted message ref: ", &refusal),
                Ok(accepted_message_ref) => {
                    let candidate = "reply:".to_string().concat(
                        envelope.source_binding_key.as_str(),
                    );
                    InboundTurnRun::CheckReplyTargetBindingRef {
                        envelope,
                        binding,
                        source_binding_ref,
                        accepted_message_ref,
                        candidate,
                    }
                },
            },
            (
                InboundTurnRun::CheckReplyTargetBindingRef {
                    envelope,
                    binding,
                    source_binding_ref,
                    accepted_message_ref,
                    ..
                },
                InboundTurnAnswer::ReplyTargetBindingRefChecked(answered),
            ) => match answered {
                Err(refusal) => turn_rejected("invalid reply target binding ref: ", &refusal),
                Ok(reply_target_binding_ref) => {
                    let candidate = "turn:".to_string()
                        .concat(envelope.adapter_id.as_str())
                        .concat(":")
                        .concat(envelope.installation_id.as_str())
                        .concat(":")
                        .concat(envelope.external_event_id.as_str());
                    InboundTurnRun::CheckIdempotencyKey {
                        envelope,
                        binding,
                        source_binding_ref,
                        accepted_message_ref,
                        reply_target_binding_ref,
                        candidate,
                    }
                },
            },
            (
                InboundTurnRun::CheckIdempotencyKey {
                    envelope,
                    binding,
                    source_binding_ref,
                    accepted_message_ref,
                    reply_target_binding_ref,
                    ..
                },
                InboundTurnAnswer::IdempotencyKeyChecked(answered),
            ) => match answered {
                Err(refusal) => turn_rejected("invalid idempotency key: ", &refusal),
                Ok(idempotency_key) => {
                    let received_at = envelope.received_at;
                    let request = stage_request(
                        envelope,
                        &binding,
                        TurnReferences {
                            source_binding_ref,
                            accepted_message_ref,
                            reply_target_binding_ref,
                            idempotency_key,
                        },
                    );
                    InboundTurnRun::StageMessage { received_at, binding, request }
                },
            },
            (
                InboundTurnRun::StageMessage { received_at, binding, request },
                InboundTurnAnswer::MessageStaged(answered),
            ) => match answered {
                Err(error) => InboundTurnRun::Done { result: Err(error) },
                Ok(_) => {
                    let request = turn_request(received_at, &binding, request.references);
                    InboundTurnRun::SubmitTurn { binding, request }
                },
            },
            (
                InboundTurnRun::SubmitTurn { binding, request },
                InboundTurnAnswer::TurnSubmitted(answered),
            ) => match answered {
                Err(TurnRefusal::Rejected { reason }) => InboundTurnRun::Done {
                    result: Err(ProductWorkflowError::TurnSubmissionRejected { reason }),
                },
                Err(TurnRefusal::ThreadBusy { active_run_id }) => InboundTurnRun::Done {
                    result: Ok(
                        InboundTurnOutcome::DeferredBusy {
                            accepted_message_ref: request.accepted_message_ref,
                            active_run_id,
                            binding,
                        },
                    ),
                },
                Ok(SubmitTurnResponse::Accepted { run_id }) => InboundTurnRun::Done {
                    result: Ok(
                        InboundTurnOutcome::Submitted {
                            accepted_message_ref: request.accepted_message_ref,
                            submitted_run_id: run_id,
                            binding,
                        },
                    ),
                },
            },
            (unchanged, _) => unchanged,
        }
    }
}

/// Everything that the services answer in the course of one run: one answer to
/// each question that the run may ask.
pub struct InboundTurnAnswers {
    pub binding: Result<ResolvedBinding, ProductWorkflowError>,
    pub source_binding_ref: Result<SourceBindingRef, String>,
    pub accepted_message_ref: Result<AcceptedMessageRef, String>,
    pub reply_target_binding_ref: Result<ReplyTargetBindingRef, String>,
    pub idempotency_key: Result<IdempotencyKey, String>,
    pub staging: Result<(), ProductWorkflowError>,
    pub submission: Result<SubmitTurnResponse, TurnRefusal>,
}

impl InboundTurnAnswers {
    /// The answer to the question that a run is waiting on.
    pub open spec fn to_question(self, run: InboundTurnRunView) -> InboundTurnAnswer {
        match run {
            InboundTurnRunView::ResolveBinding { .. } => {
                InboundTurnAnswer::BindingResolved(self.binding)
            },
            InboundTurnRunView::CheckSourceBindingRef { .. } => {
                InboundTurnAnswer::SourceBindingRefChecked(self.source_binding_ref)
            },
            InboundTurnRunView::CheckAcceptedMessageRef { .. } => {
                InboundTurnAnswer::AcceptedMessageRefChecked(self.accepted_message_ref)
            },
            InboundTurnRunView::CheckReplyTargetBindingRef { .. } => {
                InboundTurnAnswer::ReplyTargetBindingRefChecked(self.reply_target_binding_ref)
            },
            InboundTurnRunView::CheckIdempotencyKey { .. } => {
                InboundTurnAnswer::IdempotencyKeyChecked(self.idempotency_key)
            },
            InboundTurnRunView::StageMessage { .. } => {
                InboundTurnAnswer::MessageStaged(self.staging)
            },
            InboundTurnRunView::SubmitTurn { .. } | InboundTurnRunView::Done { .. } => {
                InboundTurnAnswer::TurnSubmitted(self.submission)
            },
        }
    }

    /// The four references, where all of them passed their checks.
    pub open spec fn references(self) -> TurnReferences {
        TurnReferences {
            source_binding_ref: self.source_binding_ref->Ok_0,
            accepted_message_ref: self.accepted_message_ref->Ok_0,
            reply_target_binding_ref: self.reply_target_binding_ref->Ok_0,
            idempotency_key: self.idempotency_key->Ok_0,
        }
    }

    /// The binding was resolved and all four references passed.
    pub open spec fn permit_staging(self) -> bool {
        &&& self.binding is Ok
        &&& self.source_binding_ref is Ok
        &&& self.accepted_message_ref is Ok
        &&& self.reply_target_binding_ref is Ok
        &&& self.idempotency_key is Ok
    }

    /// Beyond that, the message is in its thread.
    pub open spec fn permit_submission(self) -> bool {
        self.permit_staging() && self.staging is Ok
    }

    /// The coordinator took the turn.
    pub open spec fn take_the_turn(self) -> bool {
        self.submission is Ok
    }

    /// The thread already has an active run.
    pub open spec fn find_the_thread_busy(self) -> bool {
        self.submission matches Err(refusal) && refusal is ThreadBusy
    }

    /// What a run with these answers ends with: the first refusal, in the order
    /// in which the questions are asked, or else the submitted turn. A busy thread
    /// is no refusal: the message waits in it.
    pub open spec fn turn_result(self) -> Result<InboundTurnOutcome, ProductWorkflowErrorView> {
        if self.binding is Err {
            Err(self.binding->Err_0@)
        } else if self.source_binding_ref is Err {
            Err(unusable_source(self.source_binding_ref->Err_0@))
        } else if self.accepted_message_ref is Err {
            Err(
                unusable_turn_ref(
                    "invalid accepted message ref: "@,
                    self.accepted_message_ref->Err_0@,
                ),
            )
        } else if self.reply_target_binding_ref is Err {
            Err(
                unusable_turn_ref(
                    "invalid reply target binding ref: "@,
                    self.reply_target_binding_ref->Err_0@,
                ),
            )
        } else if self.idempotency_key is Err {
            Err(unusable_turn_ref("invalid idempotency key: "@, self.idempotency_key->Err_0@))
        } else if self.staging is Err {
            Err(self.staging->Err_0@)
        } else if self.take_the_turn() {
            Ok(
                InboundTurnOutcome::Submitted {
                    accepted_message_ref: self.accepted_message_ref->Ok_0,
                    submitted_run_id: self.submission->Ok_0->run_id,
                    binding: self.binding->Ok_0,
                },
            )
        } else if self.find_the_thread_busy() {
            Ok(
                InboundTurnOutcome::DeferredBusy {
                    accepted_message_ref: self.accepted_message_ref->Ok_0,
                    active_run_id: self.submission->Err_0->active_run_id,
                    binding: self.binding->Ok_0,
                },
            )
        } else {
            Err(
                ProductWorkflowErrorView::TurnSubmissionRejected {
                    reason: self.submission->Err_0->reason@,
                },
            )
        }
    }
}

/// The run of an envelope after `n` of its questions were answered.
pub open spec fn turn_run_after(
    envelope: ProductInboundEnvelope,
    answers: InboundTurnAnswers,
    n: nat,
) -> InboundTurnRunView
    decreases n,
{
    if n == 0 {
        turn_begun(envelope)
    } else {
        let before = turn_run_after(envelope, answers, (n - 1) as nat);
        before.next(answers.to_question(before))
    }
}

impl InboundTurnRunView {
    /// The run stands at a question about the envelope: what is asked is what the
    /// envelope gives for it.
    pub open spec fn asks_about(self, envelope: ProductInboundEnvelope) -> bool {
        match self {
            InboundTurnRunView::ResolveBinding { envelope: carried, request } => {
                carried == envelope && request == binding_request_of(envelope)
            },
            InboundTurnRunView::CheckSourceBindingRef { envelope: carried, candidate, .. } => {
                carried == envelope && candidate == envelope.source_binding_key@
            },
            InboundTurnRunView::CheckAcceptedMessageRef { envelope: carried, candidate, .. } => {
                carried == envelope && candidate == accepted_message_text(envelope)
            },
            InboundTurnRunView::CheckReplyTargetBindingRef { envelope: carried, candidate, .. } => {
                carried == envelope && candidate == reply_target_text(envelope)
            },
            InboundTurnRunView::CheckIdempotencyKey { envelope: carried, candidate, .. } => {
                carried == envelope && candidate == idempotency_text(envelope)
            },
            InboundTurnRunView::StageMessage { received_at, binding, request } => {
                received_at == envelope.received_at && request == stage_request_of(
                    envelope,
                    binding,
                    request.references,
                )
            },
            InboundTurnRunView::SubmitTurn { binding, request } => {
                request == turn_request_of(
                    envelope.received_at,
                    binding,
                    TurnReferences {
                        source_binding_ref: request.source_binding_ref,
                        accepted_message_ref: request.accepted_message_ref,
                        reply_target_binding_ref: request.reply_target_binding_ref,
                        idempotency_key: request.idempotency_key,
                    },
                )
            },
            InboundTurnRunView::Done { .. } => false,
        }
    }
}

/// Until a run is over, each of its questions is about the envelope that it began
/// with.
pub proof fn every_question_is_about_the_envelope(
    envelope: ProductInboundEnvelope,
    answers: InboundTurnAnswers,
    n: nat,
)
    ensures
        turn_run_after(envelope, answers, n).asks_about(envelope) || turn_run_after(
            envelope,
            answers,
            n,
        ) is Done,
    decreases n,
{
    if n > 0 {
        every_question_is_about_the_envelope(envelope, answers, (n - 1) as nat);
    }
}

/// Every run is over after at most seven answers, with the result that its
/// answers determine, and stays so.
pub proof fn turn_run_ends(
    envelope: ProductInboundEnvelope,
    answers: InboundTurnAnswers,
    n: nat,
)
    requires
        n >= 7,
    ensures
        turn_run_after(envelope, answers, n) == (InboundTurnRunView::Done {
            result: answers.turn_result(),
        }),
    decreases n,
{
    if n == 7 {
        reveal_with_fuel(turn_run_after, 8);
    } else {
        turn_run_ends(envelope, answers, (n - 1) as nat);
    }
}

/// A message is staged at most once, and exactly where the binding was resolved
/// and all four references passed. What is staged is the message of the envelope
/// that the run began with, for the bound thread and user, under those
/// references.
pub proof fn message_is_staged_once_and_only_when_checked(
    envelope: ProductInboundEnvelope,
    answers: InboundTurnAnswers,
    n: nat,
)
    ensures
        turn_run_after(envelope, answers, n) is StageMessage <==> n == 5
            && answers.permit_staging(),
        n == 5 && answers.permit_staging() ==> turn_run_after(envelope, answers, n) == (
        InboundTurnRunView::StageMessage {
            received_at: envelope.received_at,
            binding: answers.binding->Ok_0,
            request: stage_request_of(envelope, answers.binding->Ok_0, answers.references()),
        }),
{
    if n < 7 {
        reveal_with_fuel(turn_run_after, 7);
    } else {
        turn_run_ends(envelope, answers, n);
    }
}

/// A turn reaches the coordinator only as the last question of a run, so at most
/// once, and exactly where the binding was resolved, all four references passed
/// and the message was staged. What is submitted is the turn of the envelope that
/// the run began with, under that binding and those references.
pub proof fn turn_is_submitted_once_and_only_when_staged(
    envelope: ProductInboundEnvelope,
    answers: InboundTurnAnswers,
    n: nat,
)
    ensures
        turn_run_after(envelope, answers, n) is SubmitTurn <==> n == 6
            && answers.permit_submission(),
        n == 6 && answers.permit_submission() ==> turn_run_after(envelope, answers, n) == (
        InboundTurnRunView::SubmitTurn {
            binding: answers.binding->Ok_0,
            request: turn_request_of(
                envelope.received_at,
                answers.binding->Ok_0,
                answers.references(),
            ),
        }),
{
    if n < 7 {
        reveal_with_fuel(turn_run_after, 7);
    } else {
        turn_run_ends(envelope, answers, n);
    }
}

/// A turn is submitted only right after its message was staged, and it refers to
/// that message: into the same thread, for the same user, under the same
/// references. The staged message is what the envelope brought.
pub proof fn submitted_turn_refers_to_the_staged_message(
    envelope: ProductInboundEnvelope,
    answers: InboundTurnAnswers,
    n: nat,
)
    requires
        turn_run_after(envelope, answers, n) is SubmitTurn,
    ensures
        n == 6,
        turn_run_after(envelope, answers, 5) is StageMessage,
        answers.staging is Ok,
        ({
            let staged = turn_run_after(envelope, answers, 5)->StageMessage_request;
            let submitted = turn_run_after(envelope, answers, n)->SubmitTurn_request;
            &&& staged.payload == envelope.payload
            &&& staged.external_event_id == envelope.external_event_id
            &&& staged.scope == submitted.scope
            &&& staged.actor == submitted.actor
            &&& staged.references.accepted_message_ref == submitted.accepted_message_ref
            &&& staged.references.source_binding_ref == submitted.source_binding_ref
            &&& staged.references.reply_target_binding_ref == submitted.reply_target_binding_ref
            &&& staged.references.idempotency_key == submitted.idempotency_key
        }),
{
    turn_is_submitted_once_and_only_when_staged(envelope, answers, n);
    message_is_staged_once_and_only_when_checked(envelope, answers, 5);
}

/// Where the conversation cannot be bound, the run ends at once with the binding
/// service's own error: no reference is checked, no message is staged and no turn
/// is submitted.
pub proof fn binding_failure_ends_the_turn(
    envelope: ProductInboundEnvelope,
    answers: InboundTurnAnswers,
    n: nat,
)
    requires
        answers.binding is Err,
        n >= 1,
    ensures
        turn_run_after(envelope, answers, n) == stopped(answers.binding->Err_0@),
    decreases n,
{
    if n == 1 {
        reveal_with_fuel(turn_run_after, 2);
    } else {
        binding_failure_ends_the_turn(envelope, answers, (n - 1) as nat);
    }
}

/// Where the thread does not take the message, the run ends with the thread
/// service's own error, and no turn is submitted.
pub proof fn staging_failure_ends_the_turn(
    envelope: ProductInboundEnvelope,
    answers: InboundTurnAnswers,
    n: nat,
)
    requires
        answers.permit_staging(),
        answers.staging is Err,
        n >= 6,
    ensures
        turn_run_after(envelope, answers, n) == stopped(answers.staging->Err_0@),
    decreases n,
{
    if n == 6 {
        reveal_with_fuel(turn_run_after, 7);
    } else {
        staging_failure_ends_the_turn(envelope, answers, (n - 1) as nat);
    }
}

/// A run ends well exactly where the message was staged and the coordinator took
/// the turn or found the thread busy. A taken turn is acknowledged as accepted,
/// under the staged message and the run that was started. A busy thread defers
/// the turn, which is acknowledged under the staged message and the run that is
/// active. Either outcome keeps the resolved binding.
pub proof fn staged_message_is_acknowledged(answers: InboundTurnAnswers)
    ensures
        answers.turn_result() is Ok <==> answers.permit_submission() && (answers.take_the_turn()
            || answers.find_the_thread_busy()),
        answers.turn_result() matches Ok(outcome) ==> {
            let message = answers.references().accepted_message_ref;
            &&& outcome is Submitted <==> answers.take_the_turn()
            &&& outcome is DeferredBusy <==> answers.find_the_thread_busy()
            &&& ack_of(outcome) is Accepted <==> answers.take_the_turn()
            &&& ack_of(outcome) is DeferredBusy <==> answers.find_the_thread_busy()
            &&& answers.take_the_turn() ==> outcome == (InboundTurnOutcome::Submitted {
                accepted_message_ref: message,
                submitted_run_id: answers.submission->Ok_0->run_id,
                binding: answers.binding->Ok_0,
            }) && ack_of(outcome) == (ProductInboundAck::Accepted {
                accepted_message_ref: message,
                submitted_run_id: answers.submission->Ok_0->run_id,
            })
            &&& answers.find_the_thread_busy() ==> outcome == (InboundTurnOutcome::DeferredBusy {
                accepted_message_ref: message,
                active_run_id: answers.submission->Err_0->active_run_id,
                binding: answers.binding->Ok_0,
            }) && ack_of(outcome) == (ProductInboundAck::DeferredBusy {
                accepted_message_ref: message,
                active_run_id: answers.submission->Err_0->active_run_id,
            })
        },
{
}

/// A text splits in only one way into a part without a colon, a colon, and a
/// rest.
proof fn lemma_split_at_first_colon(
    head1: Seq<char>,
    tail1: Seq<char>,
    head2: Seq<char>,
    tail2: Seq<char>,
)
    requires
        !head1.contains(':'),
        !head2.contains(':'),
        head1.push(':') + tail1 == head2.push(':') + tail2,
    ensures
        head1 == head2,
        tail1 == tail2,
{
    let text1 = head1.push(':') + tail1;
    let text2 = head2.push(':') + tail2;
    assert(text1[head1.len() as int] == ':');
    assert(text2[head2.len() as int] == ':');
    if head1.len() < head2.len() {
        assert(head2[head1.len() as int] == ':');
    }
    if head2.len() < head1.len() {
        assert(head1[head2.len() as int] == ':');
    }
    assert(text1.len() == text2.len());
    assert forall|i: int| 0 <= i < head1.len() implies head1[i] == head2[i] by {
        assert(text1[i] == text2[i]);
    }
    assert forall|i: int| 0 <= i < tail1.len() implies tail1[i] == tail2[i] by {
        assert(text1[head1.len() + 1 + i] == text2[head1.len() + 1 + i]);
    }
    assert(head1 =~= head2);
    assert(tail1 =~= tail2);
}

/// Two deliveries of one event through one installation of an adapter ask for the
/// same idempotency key, whatever else differs between them.
pub proof fn redelivery_keeps_the_idempotency_text(
    first: ProductInboundEnvelope,
    second: ProductInboundEnvelope,
)
    requires
        first.adapter_id@ == second.adapter_id@,
        first.installation_id@ == second.installation_id@,
        first.external_event_id@ == second.external_event_id@,
    ensures
        idempotency_text(first) == idempotency_text(second),
{
}

/// Deliveries of different events, or through different installations or
/// adapters, ask for different idempotency keys, as long as adapter and
/// installation ids hold no colon.
pub proof fn idempotency_text_tells_events_apart(
    first: ProductInboundEnvelope,
    second: ProductInboundEnvelope,
)
    requires
        !first.adapter_id@.contains(':'),
        !first.installation_id@.contains(':'),
        !second.adapter_id@.contains(':'),
        !second.installation_id@.contains(':'),
        idempotency_text(first) == idempotency_text(second),
    ensures
        first.adapter_id@ == second.adapter_id@,
        first.installation_id@ == second.installation_id@,
        first.external_event_id@ == second.external_event_id@,
{
    reveal_strlit(":");
    let rest1 = first.installation_id@.push(':') + first.external_event_id@;
    let rest2 = second.installation_id@.push(':') + second.external_event_id@;
    let tail1 = first.adapter_id@.push(':') + rest1;
    let tail2 = second.adapter_id@.push(':') + rest2;
    assert(idempotency_text(first) =~= "turn:"@ + tail1);
    assert(idempotency_text(second) =~= "turn:"@ + tail2);
    lemma_same_prefix("turn:"@, tail1, tail2);
    lemma_split_at_first_colon(first.adapter_id@, rest1, second.adapter_id@, rest2);
    lemma_split_at_first_colon(
        first.installation_id@,
        first.external_event_id@,
        second.installation_id@,
        second.external_event_id@,
    );
}

/// Texts that begin alike and are equal go on alike.
proof fn lemma_same_prefix(prefix: Seq<char>, tail1: Seq<char>, tail2: Seq<char>)
    requires
        prefix + tail1 == prefix + tail2,
    ensures
        tail1 == tail2,
{
    assert((prefix + tail1).skip(prefix.len() as int) =~= tail1);
    assert((prefix + tail2).skip(prefix.len() as int) =~= tail2);
}

/// Messages are referred to alike exactly where their events are the same, and
/// reply targets exactly where their conversations are.
pub proof fn reference_texts_identify_their_subjects(
    first: ProductInboundEnvelope,
    second: ProductInboundEnvelope,
)
    ensures
        accepted_message_text(first) == accepted_message_text(second)
            <==> first.external_event_id@ == second.external_event_id@,
        reply_target_text(first) == reply_target_text(second)
            <==> first.source_binding_key@ == second.source_binding_key@,
{
    if accepted_message_text(first) == accepted_message_text(second) {
        lemma_same_prefix("msg:"@, first.external_event_id@, second.external_event_id@);
    }
    if reply_target_text(first) == reply_target_text(second) {
        lemma_same_prefix("reply:"@, first.source_binding_key@, second.source_binding_key@);
    }
}

/// An answer moves a run on exactly where it is one to the pending question. A
/// run that is over takes no answer any more.
pub proof fn only_awaited_answers_move_a_turn(run: InboundTurnRunView, answer: InboundTurnAnswer)
    ensures
        run.next(answer) == run <==> !run.awaits(answer),
        run is Done ==> !run.awaits(answer),
{
}

/// The binding service is asked first of all, and about the envelope's own
/// sender: adapter, installation, actor, conversation and proof are each the
/// envelope's.
pub proof fn binding_is_asked_about_the_envelopes_sender(
    envelope: ProductInboundEnvelope,
    begun: InboundTurnRun,
)
    requires
        call_ensures(InboundTurnRun::begin, (envelope,), begun),
    ensures
        begun is ResolveBinding,
        begun->ResolveBinding_envelope == envelope,
        begun->ResolveBinding_request.adapter_id == envelope.adapter_id,
        begun->ResolveBinding_request.installation_id == envelope.installation_id,
        begun->ResolveBinding_request.external_actor_ref == envelope.external_actor_ref,
        begun->ResolveBinding_request.external_conversation_ref
            == envelope.external_conversation_ref,
        begun->ResolveBinding_request.auth_claim == envelope.auth_claim,
{
}

/// Two envelopes raise the same binding request exactly where they agree on
/// adapter, installation, actor, conversation and proof: no part of these is left
/// out, and nothing else matters.
pub proof fn binding_request_identifies_the_sender(
    first: ProductInboundEnvelope,
    second: ProductInboundEnvelope,
    first_request: ResolveBindingRequest,
    second_request: ResolveBindingRequest,
)
    requires
        call_ensures(binding_request, (&first,), first_request),
        call_ensures(binding_request, (&second,), second_request),
    ensures
        first_request.adapter_id == first.adapter_id,
        first_request.installation_id == first.installation_id,
        first_request.external_actor_ref == first.external_actor_ref,
        first_request.external_conversation_ref == first.external_conversation_ref,
        first_request.auth_claim == first.auth_claim,
        first_request == second_request <==> {
            &&& first.adapter_id == second.adapter_id
            &&& first.installation_id == second.installation_id
            &&& first.external_actor_ref == second.external_actor_ref
            &&& first.external_conversation_ref == second.external_conversation_ref
            &&& first.auth_claim == second.auth_claim
        },
{
}

/// A user message that goes through, followed call by call. The four references
/// are asked for under the envelope's conversation and event; the message is then
/// staged, and its turn submitted, in exactly the tenant, agent, project and
/// thread of the resolved binding, for its user, and under the references that
/// passed. The staged message is the envelope's, and the turn keeps the time at
/// which the envelope was received.
pub proof fn accepted_message_runs_under_its_binding(
    envelope: ProductInboundEnvelope,
    binding: ResolvedBinding,
    source: SourceBindingRef,
    message: AcceptedMessageRef,
    reply: ReplyTargetBindingRef,
    key: IdempotencyKey,
    begun: InboundTurnRun,
    bound: InboundTurnRun,
    sourced: InboundTurnRun,
    messaged: InboundTurnRun,
    targeted: InboundTurnRun,
    keyed: InboundTurnRun,
    staged: InboundTurnRun,
)
    requires
        call_ensures(InboundTurnRun::begin, (envelope,), begun),
        call_ensures(
            InboundTurnRun::step,
            (begun, InboundTurnAnswer::BindingResolved(Ok(binding))),
            bound,
        ),
        call_ensures(
            InboundTurnRun::step,
            (bound, InboundTurnAnswer::SourceBindingRefChecked(Ok(source))),
            sourced,
        ),
        call_ensures(
            InboundTurnRun::step,
            (sourced, InboundTurnAnswer::AcceptedMessageRefChecked(Ok(message))),
            messaged,
        ),
        call_ensures(
            InboundTurnRun::step,
            (messaged, InboundTurnAnswer::ReplyTargetBindingRefChecked(Ok(reply))),
            targeted,
        ),
        call_ensures(
            InboundTurnRun::step,
            (targeted, InboundTurnAnswer::IdempotencyKeyChecked(Ok(key))),
            keyed,
        ),
        call_ensures(
            InboundTurnRun::step,
            (keyed, InboundTurnAnswer::MessageStaged(Ok(()))),
            staged,
        ),
    ensures
        bound is CheckSourceBindingRef,
        bound->CheckSourceBindingRef_candidate@ == envelope.source_binding_key@,
        sourced is CheckAcceptedMessageRef,
        sourced->CheckAcceptedMessageRef_candidate@ == "msg:"@ + envelope.external_event_id@,
        messaged is CheckReplyTargetBindingRef,
        messaged->CheckReplyTargetBindingRef_candidate@ == "reply:"@
            + envelope.source_binding_key@,
        targeted is CheckIdempotencyKey,
        targeted->CheckIdempotencyKey_candidate@ == "turn:"@ + envelope.adapter_id@ + ":"@
            + envelope.installation_id@ + ":"@ + envelope.external_event_id@,
        keyed is StageMessage,
        keyed->StageMessage_request.scope.tenant_id == binding.tenant_id,
        keyed->StageMessage_request.scope.agent_id == binding.agent_id,
        keyed->StageMessage_request.scope.project_id == binding.project_id,
        keyed->StageMessage_request.scope.thread_id == binding.thread_id,
        keyed->StageMessage_request.actor.user_id == binding.user_id,
        keyed->StageMessage_request.references.source_binding_ref == source,
        keyed->StageMessage_request.references.accepted_message_ref == message,
        keyed->StageMessage_request.references.reply_target_binding_ref == reply,
        keyed->StageMessage_request.references.idempotency_key == key,
        keyed->StageMessage_request.external_event_id == envelope.external_event_id,
        keyed->StageMessage_request.payload == envelope.payload,
        staged is SubmitTurn,
        staged->SubmitTurn_binding == binding,
        staged->SubmitTurn_request.scope.tenant_id == binding.tenant_id,
        staged->SubmitTurn_request.scope.agent_id == binding.agent_id,
        staged->SubmitTurn_request.scope.project_id == binding.project_id,
        staged->SubmitTurn_request.scope.thread_id == binding.thread_id,
        staged->SubmitTurn_request.actor.user_id == binding.user_id,
        staged->SubmitTurn_request.source_binding_ref == source,
        staged->SubmitTurn_request.accepted_message_ref == message,
        staged->SubmitTurn_request.reply_target_binding_ref == reply,
        staged->SubmitTurn_request.idempotency_key == key,
        staged->SubmitTurn_request.requested_run_profile is None,
        staged->SubmitTurn_request.received_at == envelope.received_at,
{
}

/// Whatever the services answer, every message that a run stages and every turn
/// that it submits is in the tenant, agent, project and thread of the binding
/// that the binding service resolved, for that binding's user.
pub proof fn nothing_runs_outside_the_resolved_binding(
    envelope: ProductInboundEnvelope,
    answers: InboundTurnAnswers,
    n: nat,
)
    ensures
        turn_run_after(envelope, answers, n) matches InboundTurnRunView::StageMessage {
            request,
            ..
        } ==> answers.binding matches Ok(binding) && {
            &&& request.scope.tenant_id == binding.tenant_id
            &&& request.scope.agent_id == binding.agent_id
            &&& request.scope.project_id == binding.project_id
            &&& request.scope.thread_id == binding.thread_id
            &&& request.actor.user_id == binding.user_id
            &&& request.payload == envelope.payload
            &&& request.external_event_id == envelope.external_event_id
        },
        turn_run_after(envelope, answers, n) matches InboundTurnRunView::SubmitTurn {
            request,
            ..
        } ==> answers.binding matches Ok(binding) && {
            &&& request.scope.tenant_id == binding.tenant_id
            &&& request.scope.agent_id == binding.agent_id
            &&& request.scope.project_id == binding.project_id
            &&& request.scope.thread_id == binding.thread_id
            &&& request.actor.user_id == binding.user_id
            &&& request.requested_run_profile is None
            &&& request.received_at == envelope.received_at
        },
{
    message_is_staged_once_and_only_when_checked(envelope, answers, n);
    turn_is_submitted_once_and_only_when_staged(envelope, answers, n);
}

/// The requests that stage a message and submit its turn are made for the same
/// tenant, agent, project, thread and user, each the binding's, and under the
/// same references.
pub proof fn staging_and_submission_are_for_the_binding(
    envelope: ProductInboundEnvelope,
    binding: ResolvedBinding,
    references: TurnReferences,
    staging: StageMessageRequest,
    submission: SubmitTurnRequest,
)
    requires
        call_ensures(stage_request, (envelope, &binding, references), staging),
        call_ensures(
            turn_request,
            (envelope.received_at, &binding, references),
            submission,
        ),
    ensures
        staging.scope.tenant_id == binding.tenant_id,
        staging.scope.agent_id == binding.agent_id,
        staging.scope.project_id == binding.project_id,
        staging.scope.thread_id == binding.thread_id,
        staging.actor.user_id == binding.user_id,
        staging.references == references,
        staging.external_event_id == envelope.external_event_id,
        staging.payload == envelope.payload,
        submission.scope.tenant_id == binding.tenant_id,
        submission.scope.agent_id == binding.agent_id,
        submission.scope.project_id == binding.project_id,
        submission.scope.thread_id == binding.thread_id,
        submission.actor.user_id == binding.user_id,
        submission.source_binding_ref == references.source_binding_ref,
        submission.accepted_message_ref == references.accepted_message_ref,
        submission.reply_target_binding_ref == references.reply_target_binding_ref,
        submission.idempotency_key == references.idempotency_key,
        submission.requested_run_profile is None,
        submission.received_at == envelope.received_at,
{
}

/// The coordinator's answer decides the outcome of a submitted turn, and the
/// outcome and its acknowledgement name the submitted message: a taken turn is
/// accepted under the run that was started, and a busy thread defers it under the
/// run that is active.
pub proof fn submission_decides_the_outcome(
    binding: ResolvedBinding,
    request: SubmitTurnRequest,
    run_id: TurnRunId,
    taken: InboundTurnRun,
    busy: InboundTurnRun,
    taken_ack: ProductInboundAck,
    busy_ack: ProductInboundAck,
)
    requires
        call_ensures(
            InboundTurnRun::step,
            (
                InboundTurnRun::SubmitTurn { binding, request },
                InboundTurnAnswer::TurnSubmitted(Ok(SubmitTurnResponse::Accepted { run_id })),
            ),
            taken,
        ),
        call_ensures(
            InboundTurnRun::step,
            (
                InboundTurnRun::SubmitTurn { binding, request },
                InboundTurnAnswer::TurnSubmitted(
                    Err(TurnRefusal::ThreadBusy { active_run_id: run_id }),
                ),
            ),
            busy,
        ),
        call_ensures(InboundTurnOutcome::to_ack, (&taken->result->Ok_0,), taken_ack),
        call_ensures(InboundTurnOutcome::to_ack, (&busy->result->Ok_0,), busy_ack),
    ensures
        taken is Done,
        taken->result == Ok::<InboundTurnOutcome, ProductWorkflowError>(
            InboundTurnOutcome::Submitted {
                accepted_message_ref: request.accepted_message_ref,
                submitted_run_id: run_id,
                binding,
            },
        ),
        taken_ack == (ProductInboundAck::Accepted {
            accepted_message_ref: request.accepted_message_ref,
            submitted_run_id: run_id,
        }),
        busy is Done,
        busy->result == Ok::<InboundTurnOutcome, ProductWorkflowError>(
            InboundTurnOutcome::DeferredBusy {
                accepted_message_ref: request.accepted_message_ref,
                active_run_id: run_id,
                binding,
            },
        ),
        busy_ack == (ProductInboundAck::DeferredBusy {
            accepted_message_ref: request.accepted_message_ref,
            active_run_id: run_id,
        }),
{
}

/// An acknowledgement tells what the outcome tells, without the binding: the same
/// message, and the run that was started or is active.
pub proof fn acknowledgement_repeats_the_outcome(
    message: AcceptedMessageRef,
    run_id: TurnRunId,
    binding: ResolvedBinding,
    submitted: ProductInboundAck,
    deferred: ProductInboundAck,
)
    requires
        call_ensures(
            InboundTurnOutcome::to_ack,
            (&(InboundTurnOutcome::Submitted {
                accepted_message_ref: message,
                submitted_run_id: run_id,
                binding,
            }),),
            submitted,
        ),
        call_ensures(
            InboundTurnOutcome::to_ack,
            (&(InboundTurnOutcome::DeferredBusy {
                accepted_message_ref: message,
                active_run_id: run_id,
                binding,
            }),),
            deferred,
        ),
    ensures
        submitted == (ProductInboundAck::Accepted {
            accepted_message_ref: message,
            submitted_run_id: run_id,
        }),
        deferred == (ProductInboundAck::DeferredBusy {
            accepted_message_ref: message,
            active_run_id: run_id,
        }),
{
}

/// A refusal ends the run it meets, whatever came before it. The binding and
/// thread services are quoted as they are; a reference that does not pass, and a
/// turn that is rejected, are told in the words of the refusal, after what was
/// being checked.
pub proof fn refusal_ends_the_run_in_its_own_words(
    before: InboundTurnRun,
    answer: InboundTurnAnswer,
    after: InboundTurnRun,
)
    requires
        call_ensures(InboundTurnRun::step, (before, answer), after),
    ensures
        before is ResolveBinding ==> (answer matches InboundTurnAnswer::BindingResolved(Err(error))
            ==> after is Done && (after->result matches Err(told) && told@ == error@)),
        before is CheckSourceBindingRef ==> (
        answer matches InboundTurnAnswer::SourceBindingRefChecked(Err(refusal)) ==> after is Done
            && (after->result matches Err(
            ProductWorkflowError::BindingResolutionFailed { reason },
        ) && reason@ == "invalid source binding ref: "@ + refusal@)),
        before is CheckAcceptedMessageRef ==> (
        answer matches InboundTurnAnswer::AcceptedMessageRefChecked(Err(refusal)) ==> after is Done
            && (after->result matches Err(
            ProductWorkflowError::TurnSubmissionRejected { reason },
        ) && reason@ == "invalid accepted message ref: "@ + refusal@)),
        before is CheckReplyTargetBindingRef ==> (
        answer matches InboundTurnAnswer::ReplyTargetBindingRefChecked(Err(refusal))
            ==> after is Done && (after->result matches Err(
            ProductWorkflowError::TurnSubmissionRejected { reason },
        ) && reason@ == "invalid reply target binding ref: "@ + refusal@)),
        before is CheckIdempotencyKey ==> (
        answer matches InboundTurnAnswer::IdempotencyKeyChecked(Err(refusal)) ==> after is Done && (
        after->result matches Err(ProductWorkflowError::TurnSubmissionRejected { reason })
            && reason@ == "invalid idempotency key: "@ + refusal@)),
        before is StageMessage ==> (answer matches InboundTurnAnswer::MessageStaged(Err(error))
            ==> after is Done && (after->result matches Err(told) && told@ == error@)),
        before is SubmitTurn ==> (answer matches InboundTurnAnswer::TurnSubmitted(
            Err(TurnRefusal::Rejected { reason: refusal }),
        ) ==> after is Done && (after->result matches Err(
            ProductWorkflowError::TurnSubmissionRejected { reason },
        ) && reason@ == refusal@)),
{
}

/// Only the service that a run is waiting on can move it. Any other answer leaves
/// the run as it was, and a run that is over stays over.
pub proof fn turn_waits_for_the_asked_service(
    before: InboundTurnRun,
    answer: InboundTurnAnswer,
    after: InboundTurnRun,
)
    requires
        call_ensures(InboundTurnRun::step, (before, answer), after),
        before is ResolveBinding ==> !(answer is BindingResolved),
        before is CheckSourceBindingRef ==> !(answer is SourceBindingRefChecked),
        before is CheckAcceptedMessageRef ==> !(answer is AcceptedMessageRefChecked),
        before is CheckReplyTargetBindingRef ==> !(answer is ReplyTargetBindingRefChecked),
        before is CheckIdempotencyKey ==> !(answer is IdempotencyKeyChecked),
        before is StageMessage ==> !(answer is MessageStaged),
        before is SubmitTurn ==> !(answer is TurnSubmitted),
    ensures
        after@ == before@,
{
}

/// Reading a run keeps all of it: two runs that read alike stand at the same
/// question, about the same values, or are over with the same result.
pub proof fn turn_view_keeps_everything(first: InboundTurnRun, second: InboundTurnRun)
    requires
        first@ == second@,
    ensures
        first is ResolveBinding ==> second == first,
        first matches InboundTurnRun::CheckSourceBindingRef { envelope, binding, candidate } ==> {
            &&& second is CheckSourceBindingRef
            &&& second->CheckSourceBindingRef_envelope == envelope
            &&& second->CheckSourceBindingRef_binding == binding
            &&& second->CheckSourceBindingRef_candidate@ == candidate@
        },
        first matches InboundTurnRun::CheckAcceptedMessageRef {
            envelope,
            binding,
            source_binding_ref,
            candidate,
        } ==> {
            &&& second is CheckAcceptedMessageRef
            &&& second->CheckAcceptedMessageRef_envelope == envelope
            &&& second->CheckAcceptedMessageRef_binding == binding
            &&& second->CheckAcceptedMessageRef_source_binding_ref == source_binding_ref
            &&& second->CheckAcceptedMessageRef_candidate@ == candidate@
        },
        first matches InboundTurnRun::CheckReplyTargetBindingRef {
            envelope,
            binding,
            source_binding_ref,
            accepted_message_ref,
            candidate,
        } ==> {
            &&& second is CheckReplyTargetBindingRef
            &&& second->CheckReplyTargetBindingRef_envelope == envelope
            &&& second->CheckReplyTargetBindingRef_binding == binding
            &&& second->CheckReplyTargetBindingRef_source_binding_ref == source_binding_ref
            &&& second->CheckReplyTargetBindingRef_accepted_message_ref == accepted_message_ref
            &&& second->CheckReplyTargetBindingRef_candidate@ == candidate@
        },
        first matches InboundTurnRun::CheckIdempotencyKey {
            envelope,
            binding,
            source_binding_ref,
            accepted_message_ref,
            reply_target_binding_ref,
            candidate,
        } ==> {
            &&& second is CheckIdempotencyKey
            &&& second->CheckIdempotencyKey_envelope == envelope
            &&& second->CheckIdempotencyKey_binding == binding
            &&& second->CheckIdempotencyKey_source_binding_ref == source_binding_ref
            &&& second->CheckIdempotencyKey_accepted_message_ref == accepted_message_ref
            &&& second->CheckIdempotencyKey_reply_target_binding_ref == reply_target_binding_ref
            &&& second->CheckIdempotencyKey_candidate@ == candidate@
        },
        first is StageMessage ==> second == first,
        first is SubmitTurn ==> second == first,
        first is Done ==> second is Done,
        first is Done ==> (first->result matches Ok(outcome) ==> second->result == Ok::<
            InboundTurnOutcome,
            ProductWorkflowError,
        >(outcome)),
        first is Done ==> (first->result matches Err(error) ==> (second->result matches Err(other)
            && other@ == error@)),
{
}

/// A service hands back the binding service and the coordinator that it was
/// composed from.
pub proof fn service_hands_back_its_parts<B, C>(
    bindings: B,
    turns: C,
    service: DefaultInboundTurnService<B, C>,
    handed_bindings: &B,
    handed_turns: &C,
)
    requires
        call_ensures(DefaultInboundTurnService::<B, C>::new, (bindings, turns), service),
        call_ensures(
            DefaultInboundTurnService::<B, C>::binding_service,
            (&service,),
            handed_bindings,
        ),
        call_ensures(
            DefaultInboundTurnService::<B, C>::turn_coordinator,
            (&service,),
            handed_turns,
        ),
    ensures
        *handed_bindings == bindings,
        *handed_turns == turns,
{
}

} // verus!
