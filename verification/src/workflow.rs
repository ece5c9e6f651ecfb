//! The product workflow: an inbound envelope goes through the idempotency ledger
//! and, where it is new, to the service that its payload is for.
use std::sync::Arc;

use vstd::prelude::*;
use vstd::string::*;

use crate::action;
use crate::action::{
    ActionDispatchKind, ActionFingerprintKey, ActionFingerprintKeyView, IdempotencyDecision,
    LedgerAction,
};
use crate::adapters::{
    ProductAdapterError, ProductAdapterErrorView, ProductInboundAck, ProductInboundEnvelope,
    ProductInboundPayload,
};
use crate::error::{ProductWorkflowError, ProductWorkflowErrorView};
use crate::inbound_turn;
use crate::inbound_turn::{InboundTurnAnswers, InboundTurnOutcome, InboundTurnRun};
use crate::turns::Timestamp;

verus! {

/// An inbound turn service together with an idempotency ledger: the two services
/// that the questions of a [`ProductWorkflowRun`] are put to.
pub struct DefaultProductWorkflow<S: ?Sized, L: ?Sized> {
    inbound_turn_service: Arc<S>,
    idempotency_ledger: Arc<L>,
}

impl<S: ?Sized, L: ?Sized> DefaultProductWorkflow<S, L> {
    /// The turn service that this workflow was composed from.
    pub closed spec fn spec_inbound_turn_service(self) -> Arc<S> {
        self.inbound_turn_service
    }

    /// The ledger that this workflow was composed from.
    pub closed spec fn spec_idempotency_ledger(self) -> Arc<L> {
        self.idempotency_ledger
    }

    pub fn new(inbound_turn_service: Arc<S>, idempotency_ledger: Arc<L>) -> (workflow: Self)
        ensures
            workflow.spec_inbound_turn_service() == inbound_turn_service,
            workflow.spec_idempotency_ledger() == idempotency_ledger,
    {
        DefaultProductWorkflow { inbound_turn_service, idempotency_ledger }
    }

    pub fn inbound_turn_service(&self) -> (service: &Arc<S>)
        ensures
            *service == self.spec_inbound_turn_service(),
    {
        &self.inbound_turn_service
    }

    pub fn idempotency_ledger(&self) -> (ledger: &Arc<L>)
        ensures
            *ledger == self.spec_idempotency_ledger(),
    {
        &self.idempotency_ledger
    }

    /// Refuses every request to subscribe to a projection.
    pub fn resolve_projection_subscription<R>(&self, _envelope: ProductInboundEnvelope) -> (result:
        Result<R, ProductAdapterError>)
        ensures
            result matches Err(error) && error@ == (ProductAdapterErrorView::Internal {
                detail: "projection subscription resolution not yet implemented"@,
            }),
    {
        Err(
            ProductAdapterError::Internal {
                detail: "projection subscription resolution not yet implemented".to_string(),
            },
        )
    }
}

/// The fingerprint of an envelope.
pub open spec fn fingerprint_of(envelope: ProductInboundEnvelope) -> ActionFingerprintKey {
    ActionFingerprintKey {
        adapter_id: envelope.adapter_id,
        installation_id: envelope.installation_id,
        source_binding_key: envelope.source_binding_key,
        external_event_id: envelope.external_event_id,
    }
}

/// The fingerprint under which the ledger knows an envelope's action.
pub fn fingerprint(envelope: &ProductInboundEnvelope) -> (key: ActionFingerprintKey)
    ensures
        key == fingerprint_of(*envelope),
{
    ActionFingerprintKey {
        adapter_id: envelope.adapter_id.clone(),
        installation_id: envelope.installation_id.clone(),
        source_binding_key: envelope.source_binding_key.clone(),
        external_event_id: envelope.external_event_id.clone(),
    }
}

/// Where a payload goes.
#[derive(Debug, PartialEq, Eq)]
pub enum PayloadDispatch {
    /// The inbound turn service decides.
    AcceptUserMessage,
    /// The payload alone decides.
    Finished { result: Result<ProductInboundAck, ProductWorkflowError> },
}

/// A [`PayloadDispatch`] with its error's strings read as character sequences.
pub enum PayloadDispatchView {
    AcceptUserMessage,
    Finished { result: Result<ProductInboundAck, ProductWorkflowErrorView> },
}

impl View for PayloadDispatch {
    type V = PayloadDispatchView;

    open spec fn view(&self) -> PayloadDispatchView {
        match *self {
            PayloadDispatch::AcceptUserMessage => PayloadDispatchView::AcceptUserMessage,
            PayloadDispatch::Finished { result } => PayloadDispatchView::Finished {
                result: match result {
                    Ok(ack) => Ok(ack),
                    Err(error) => Err(error@),
                },
            },
        }
    }
}

/// A payload kind that no service handles.
pub open spec fn unsupported(kind: Seq<char>) -> PayloadDispatchView {
    PayloadDispatchView::Finished {
        result: Err(ProductWorkflowErrorView::UnsupportedActionKind { kind }),
    }
}

/// Where a payload goes: a user message to the turn service and a no-op nowhere;
/// for a command there is no route, and the other kinds are unsupported.
pub open spec fn dispatch_of(payload: ProductInboundPayload) -> PayloadDispatchView {
    match payload {
        ProductInboundPayload::UserMessage { .. } => PayloadDispatchView::AcceptUserMessage,
        ProductInboundPayload::Command { command } => PayloadDispatchView::Finished {
            result: Err(
                ProductWorkflowErrorView::CommandRoutingUnavailable { command: command@ },
            ),
        },
        ProductInboundPayload::ApprovalResolution => unsupported("approval_resolution"@),
        ProductInboundPayload::AuthResolution => unsupported("auth_resolution"@),
        ProductInboundPayload::SubscriptionRequest => unsupported("subscription_request"@),
        ProductInboundPayload::LinkedThreadAction => unsupported("linked_thread_action"@),
        ProductInboundPayload::NoOp => PayloadDispatchView::Finished {
            result: Ok(ProductInboundAck::NoOp),
        },
    }
}

/// A payload kind that no service handles.
fn refuse_kind(kind: &str) -> (dispatch: PayloadDispatch)
    ensures
        dispatch@ == unsupported(kind@),
{
    PayloadDispatch::Finished {
        result: Err(ProductWorkflowError::UnsupportedActionKind { kind: kind.to_string() }),
    }
}

/// Routes an envelope by its payload.
pub fn dispatch_payload(envelope: &ProductInboundEnvelope) -> (dispatch: PayloadDispatch)
    ensures
        dispatch@ == dispatch_of(envelope.payload),
{
    match &envelope.payload {
        ProductInboundPayload::UserMessage { .. } => PayloadDispatch::AcceptUserMessage,
        ProductInboundPayload::Command { command } => PayloadDispatch::Finished {
            result: Err(
                ProductWorkflowError::CommandRoutingUnavailable { command: command.clone() },
            ),
        },
        ProductInboundPayload::ApprovalResolution => refuse_kind("approval_resolution"),
        ProductInboundPayload::AuthResolution => refuse_kind("auth_resolution"),
        ProductInboundPayload::SubscriptionRequest => refuse_kind("subscription_request"),
        ProductInboundPayload::LinkedThreadAction => refuse_kind("linked_thread_action"),
        ProductInboundPayload::NoOp => PayloadDispatch::Finished {
            result: Ok(ProductInboundAck::NoOp),
        },
    }
}

/// Where an envelope stands on its way through the workflow. Every variant but
/// `Done` is a question; as long as it is needed, a run carries its envelope.
#[derive(Debug, PartialEq, Eq)]
pub enum ProductWorkflowRun {
    /// Does the ledger know this action, received at this time?
    ConsultLedger {
        envelope: ProductInboundEnvelope,
        fingerprint: ActionFingerprintKey,
        received_at: Timestamp,
    },
    /// What does the inbound turn service make of the envelope?
    AcceptUserMessage { envelope: ProductInboundEnvelope, action: LedgerAction },
    /// Does the ledger record the settled action? `ack` is returned either way.
    Settle { action: LedgerAction, ack: ProductInboundAck },
    /// The run is over.
    Done { result: Result<ProductInboundAck, ProductAdapterError> },
}

/// A [`ProductWorkflowRun`] with its error's strings read as character sequences.
pub enum ProductWorkflowRunView {
    ConsultLedger {
        envelope: ProductInboundEnvelope,
        fingerprint: ActionFingerprintKey,
        received_at: Timestamp,
    },
    AcceptUserMessage { envelope: ProductInboundEnvelope, action: LedgerAction },
    Settle { action: LedgerAction, ack: ProductInboundAck },
    Done { result: Result<ProductInboundAck, ProductAdapterErrorView> },
}

impl View for ProductWorkflowRun {
    type V = ProductWorkflowRunView;

    open spec fn view(&self) -> ProductWorkflowRunView {
        match *self {
            ProductWorkflowRun::ConsultLedger { envelope, fingerprint, received_at } => {
                ProductWorkflowRunView::ConsultLedger { envelope, fingerprint, received_at }
            },
            ProductWorkflowRun::AcceptUserMessage { envelope, action } => {
                ProductWorkflowRunView::AcceptUserMessage { envelope, action }
            },
            ProductWorkflowRun::Settle { action, ack } => {
                ProductWorkflowRunView::Settle { action, ack }
            },
            ProductWorkflowRun::Done { result } => ProductWorkflowRunView::Done {
                result: match result {
                    Ok(ack) => Ok(ack),
                    Err(error) => Err(error@),
                },
            },
        }
    }
}

/// The answer to a question of a [`ProductWorkflowRun`].
#[derive(Debug, PartialEq, Eq)]
pub enum ProductWorkflowAnswer {
    LedgerDecided(Result<IdempotencyDecision, ProductWorkflowError>),
    UserMessageAccepted(Result<InboundTurnOutcome, ProductWorkflowError>),
    LedgerSettled(Result<(), ProductWorkflowError>),
}

/// What a settled action is answered with when it comes again: its recorded
/// acknowledgement, marked as a duplicate.
pub open spec fn replay_of(action: LedgerAction) -> Result<
    ProductInboundAck,
    ProductAdapterErrorView,
> {
    match action.outcome {
        Some(prior) => Ok(ProductInboundAck::Duplicate { prior: Box::new(prior) }),
        None => Err(
            ProductAdapterErrorView::Internal { detail: "settled action missing outcome"@ },
        ),
    }
}

/// The action as the ledger is to record it once its payload was acknowledged.
pub open spec fn settled_action(
    action: LedgerAction,
    payload: ProductInboundPayload,
    ack: ProductInboundAck,
) -> LedgerAction {
    LedgerAction {
        dispatch_kind: Some(action::dispatch_kind_of(payload)),
        outcome: Some(ack),
        ..action
    }
}

/// What follows a dispatch: an acknowledgement is settled, a failure is not.
pub open spec fn after_dispatch(
    action: LedgerAction,
    payload: ProductInboundPayload,
    result: Result<ProductInboundAck, ProductWorkflowErrorView>,
) -> ProductWorkflowRunView {
    match result {
        Ok(ack) => ProductWorkflowRunView::Settle {
            action: settled_action(action, payload, ack),
            ack,
        },
        Err(error) => ProductWorkflowRunView::Done {
            result: Err(ProductAdapterErrorView::Workflow(error)),
        },
    }
}

impl ProductWorkflowRunView {
    /// The answer is one to the pending question.
    pub open spec fn awaits(self, answer: ProductWorkflowAnswer) -> bool {
        ||| self is ConsultLedger && answer is LedgerDecided
        ||| self is AcceptUserMessage && answer is UserMessageAccepted
        ||| self is Settle && answer is LedgerSettled
    }

    /// The run that an answer leads to. An answer to a question that is not
    /// pending changes nothing.
    pub open spec fn next(self, answer: ProductWorkflowAnswer) -> ProductWorkflowRunView {
        match (self, answer) {
            (
                ProductWorkflowRunView::ConsultLedger { envelope, .. },
                ProductWorkflowAnswer::LedgerDecided(answered),
            ) => match answered {
                Err(error) => ProductWorkflowRunView::Done {
                    result: Err(ProductAdapterErrorView::Workflow(error@)),
                },
                Ok(IdempotencyDecision::Replay(action)) => ProductWorkflowRunView::Done {
                    result: replay_of(action),
                },
                Ok(IdempotencyDecision::New(action)) => match dispatch_of(envelope.payload) {
                    PayloadDispatchView::AcceptUserMessage => {
                        ProductWorkflowRunView::AcceptUserMessage { envelope, action }
                    },
                    PayloadDispatchView::Finished { result } => {
                        after_dispatch(action, envelope.payload, result)
                    },
                },
            },
            (
                ProductWorkflowRunView::AcceptUserMessage { envelope, action },
                ProductWorkflowAnswer::UserMessageAccepted(answered),
            ) => after_dispatch(
                action,
                envelope.payload,
                match answered {
                    Ok(outcome) => Ok(inbound_turn::ack_of(outcome)),
                    Err(error) => Err(error@),
                },
            ),
            (
                ProductWorkflowRunView::Settle { ack, .. },
                ProductWorkflowAnswer::LedgerSettled(_),
            ) => ProductWorkflowRunView::Done { result: Ok(ack) },
            (unchanged, _) => unchanged,
        }
    }
}

/// The run of an envelope, before anything was asked.
pub open spec fn workflow_begun(envelope: ProductInboundEnvelope) -> ProductWorkflowRunView {
    ProductWorkflowRunView::ConsultLedger {
        envelope,
        fingerprint: fingerprint_of(envelope),
        received_at: envelope.received_at,
    }
}

/// Settles an acknowledged action, or ends the run with the dispatch's failure.
fn conclude_dispatch(
    envelope: &ProductInboundEnvelope,
    mut action: LedgerAction,
    result: Result<ProductInboundAck, ProductWorkflowError>,
) -> (run: ProductWorkflowRun)
    ensures
        run@ == after_dispatch(
            action,
            envelope.payload,
            match result {
                Ok(ack) => Ok(ack),
                Err(error) => Err(error@),
            },
        ),
{
    match result {
        Ok(ack) => {
            action.mark_dispatched(ActionDispatchKind::from_payload(&envelope.payload));
            action.settle(ack.clone());
            ProductWorkflowRun::Settle { action, ack }
        },
        Err(error) => ProductWorkflowRun::Done {
            result: Err(ProductAdapterError::Workflow(error)),
        },
    }
}

impl ProductWorkflowRun {
    /// The run of an envelope, before anything was asked.
    pub fn begin(envelope: ProductInboundEnvelope) -> (run: Self)
        ensures
            run@ == workflow_begun(envelope),
    {
        let key = fingerprint(&envelope);
        let received_at = envelope.received_at;
        ProductWorkflowRun::ConsultLedger { envelope, fingerprint: key, received_at }
    }

    /// Takes the answer to the pending question.
    pub fn step(self, answer: ProductWorkflowAnswer) -> (run: Self)
        ensures
            run@ == self@.next(answer),
    {
        match (self, answer) {
            (
                ProductWorkflowRun::ConsultLedger { envelope, .. },
                ProductWorkflowAnswer::LedgerDecided(answered),
            ) => match answered {
                Err(error) => ProductWorkflowRun::Done {
                    result: Err(ProductAdapterError::Workflow(error)),
                },
                Ok(IdempotencyDecision::Replay(action)) => ProductWorkflowRun::Done {
                    result: match action.outcome {
                        Some(prior) => Ok(ProductInboundAck::Duplicate { prior: Box::new(prior) }),
                        None => Err(
                            ProductAdapterError::Internal {
                                detail: "settled action missing outcome".to_string(),
                            },
                        ),
                    },
                },
                Ok(IdempotencyDecision::New(action)) => match dispatch_payload(&envelope) {
                    PayloadDispatch::AcceptUserMessage => {
                        ProductWorkflowRun::AcceptUserMessage { envelope, action }
                    },
                    PayloadDispatch::Finished { result } => {
                        conclude_dispatch(&envelope, action, result)
                    },
                },
            },
            (
                ProductWorkflowRun::AcceptUserMessage { envelope, action },
                ProductWorkflowAnswer::UserMessageAccepted(answered),
            ) => match answered {
                Ok(outcome) => conclude_dispatch(&envelope, action, Ok(outcome.to_ack())),
                Err(error) => conclude_dispatch(&envelope, action, Err(error)),
            },
            (
                ProductWorkflowRun::Settle { ack, .. },
                ProductWorkflowAnswer::LedgerSettled(_),
            ) => ProductWorkflowRun::Done { result: Ok(ack) },
            (unchanged, _) => unchanged,
        }
    }
}

/// Everything that the services answer in the course of one run: one answer to
/// each question that the run may ask.
pub struct ProductWorkflowAnswers {
    pub ledger: Result<IdempotencyDecision, ProductWorkflowError>,
    pub turn: Result<InboundTurnOutcome, ProductWorkflowError>,
    pub settlement: Result<(), ProductWorkflowError>,
}

impl ProductWorkflowAnswers {
    /// The answer to the question that a run is waiting on.
    pub open spec fn to_question(self, run: ProductWorkflowRunView) -> ProductWorkflowAnswer {
        match run {
            ProductWorkflowRunView::ConsultLedger { .. } => {
                ProductWorkflowAnswer::LedgerDecided(self.ledger)
            },
            ProductWorkflowRunView::AcceptUserMessage { .. } => {
                ProductWorkflowAnswer::UserMessageAccepted(self.turn)
            },
            ProductWorkflowRunView::Settle { .. } | ProductWorkflowRunView::Done { .. } => {
                ProductWorkflowAnswer::LedgerSettled(self.settlement)
            },
        }
    }

    /// The ledger takes the action for new.
    pub open spec fn find_new(self) -> bool {
        self.ledger matches Ok(decision) && decision is New
    }

    /// What the dispatch of a payload comes to.
    pub open spec fn dispatch_result(self, payload: ProductInboundPayload) -> Result<
        ProductInboundAck,
        ProductWorkflowErrorView,
    > {
        match dispatch_of(payload) {
            PayloadDispatchView::AcceptUserMessage => match self.turn {
                Ok(outcome) => Ok(inbound_turn::ack_of(outcome)),
                Err(error) => Err(error@),
            },
            PayloadDispatchView::Finished { result } => result,
        }
    }

    /// What a run with these answers ends with: the ledger's failure, the replay
    /// of a settled action, or what the dispatch of a new one comes to.
    pub open spec fn workflow_result(self, payload: ProductInboundPayload) -> Result<
        ProductInboundAck,
        ProductAdapterErrorView,
    > {
        match self.ledger {
            Err(error) => Err(ProductAdapterErrorView::Workflow(error@)),
            Ok(IdempotencyDecision::Replay(action)) => replay_of(action),
            Ok(IdempotencyDecision::New(_)) => match self.dispatch_result(payload) {
                Ok(ack) => Ok(ack),
                Err(error) => Err(ProductAdapterErrorView::Workflow(error)),
            },
        }
    }
}

/// The run of an envelope after `n` of its questions were answered.
pub open spec fn workflow_run_after(
    envelope: ProductInboundEnvelope,
    answers: ProductWorkflowAnswers,
    n: nat,
) -> ProductWorkflowRunView
    decreases n,
{
    if n == 0 {
        workflow_begun(envelope)
    } else {
        let before = workflow_run_after(envelope, answers, (n - 1) as nat);
        before.next(answers.to_question(before))
    }
}

/// Every run is over after at most three answers, with the result that its
/// answers determine, and stays so. Whether the ledger recorded the settled
/// action does not matter to the result.
pub proof fn workflow_run_ends(
    envelope: ProductInboundEnvelope,
    answers: ProductWorkflowAnswers,
    n: nat,
)
    requires
        n >= 3,
    ensures
        workflow_run_after(envelope, answers, n) == (ProductWorkflowRunView::Done {
            result: answers.workflow_result(envelope.payload),
        }),
    decreases n,
{
    if n == 3 {
        reveal_with_fuel(workflow_run_after, 4);
    } else {
        workflow_run_ends(envelope, answers, (n - 1) as nat);
    }
}

/// The ledger is consulted before anything else, once, about the envelope's own
/// fingerprint and time of receipt.
pub proof fn ledger_is_consulted_first(
    envelope: ProductInboundEnvelope,
    answers: ProductWorkflowAnswers,
    n: nat,
)
    ensures
        workflow_run_after(envelope, answers, n) is ConsultLedger <==> n == 0,
        workflow_run_after(envelope, answers, 0) == (ProductWorkflowRunView::ConsultLedger {
            envelope,
            fingerprint: fingerprint_of(envelope),
            received_at: envelope.received_at,
        }),
{
    if n < 3 {
        reveal_with_fuel(workflow_run_after, 4);
    } else {
        workflow_run_ends(envelope, answers, n);
    }
}

/// The inbound turn service sees an envelope at most once, and exactly where the
/// ledger takes the action for new and the payload is a user message. It is then
/// handed the envelope that the run began with, for the action that the ledger
/// opened.
pub proof fn turn_service_sees_new_user_messages_only(
    envelope: ProductInboundEnvelope,
    answers: ProductWorkflowAnswers,
    n: nat,
)
    ensures
        workflow_run_after(envelope, answers, n) is AcceptUserMessage <==> n == 1
            && answers.find_new() && envelope.payload is UserMessage,
        workflow_run_after(envelope, answers, n) is AcceptUserMessage ==> workflow_run_after(
            envelope,
            answers,
            n,
        ) == (ProductWorkflowRunView::AcceptUserMessage {
            envelope,
            action: answers.ledger->Ok_0->New_0,
        }),
{
    if n < 3 {
        reveal_with_fuel(workflow_run_after, 4);
    } else {
        workflow_run_ends(envelope, answers, n);
    }
}

/// An action is settled exactly where the ledger took it for new and its dispatch
/// was acknowledged: after one answer, or two where the turn service was asked.
/// The ledger is then handed that action with the payload's kind and the
/// acknowledgement, and the same acknowledgement is returned. A failed dispatch
/// is never settled, so that the envelope may be delivered again.
pub proof fn only_acknowledged_actions_are_settled(
    envelope: ProductInboundEnvelope,
    answers: ProductWorkflowAnswers,
    n: nat,
)
    ensures
        workflow_run_after(envelope, answers, n) is Settle <==> {
            &&& answers.find_new()
            &&& answers.dispatch_result(envelope.payload) is Ok
            &&& n == if envelope.payload is UserMessage { 2nat } else { 1nat }
        },
        workflow_run_after(envelope, answers, n) matches ProductWorkflowRunView::Settle {
            action,
            ack,
        } ==> {
            &&& answers.dispatch_result(envelope.payload) == Ok::<
                ProductInboundAck,
                ProductWorkflowErrorView,
            >(ack)
            &&& action == settled_action(answers.ledger->Ok_0->New_0, envelope.payload, ack)
            &&& answers.workflow_result(envelope.payload) == Ok::<
                ProductInboundAck,
                ProductAdapterErrorView,
            >(ack)
        },
{
    if n < 3 {
        reveal_with_fuel(workflow_run_after, 4);
    } else {
        workflow_run_ends(envelope, answers, n);
    }
}

/// Where the ledger fails or replays, the run ends on that one answer: nothing is
/// dispatched and nothing is settled.
pub proof fn ledger_decides_alone(
    envelope: ProductInboundEnvelope,
    answers: ProductWorkflowAnswers,
    n: nat,
)
    requires
        !answers.find_new(),
        n >= 1,
    ensures
        workflow_run_after(envelope, answers, n) == (ProductWorkflowRunView::Done {
            result: answers.workflow_result(envelope.payload),
        }),
    decreases n,
{
    if n == 1 {
        reveal_with_fuel(workflow_run_after, 2);
    } else {
        ledger_decides_alone(envelope, answers, (n - 1) as nat);
    }
}

/// A duplicate is answered with the prior outcome. Where one run settled an
/// action and the ledger replays that action to a later run, the later run ends
/// on that answer, without the turn service seeing its envelope and without
/// settling anything, and acknowledges a duplicate of exactly what the first run
/// acknowledged. That is never itself a duplicate.
pub proof fn duplicate_replays_the_prior_outcome(
    first: ProductInboundEnvelope,
    first_answers: ProductWorkflowAnswers,
    settled_at: nat,
    second: ProductInboundEnvelope,
    second_answers: ProductWorkflowAnswers,
    n: nat,
)
    requires
        workflow_run_after(first, first_answers, settled_at) is Settle,
        second_answers.ledger == Ok::<IdempotencyDecision, ProductWorkflowError>(
            IdempotencyDecision::Replay(
                workflow_run_after(first, first_answers, settled_at)->Settle_action,
            ),
        ),
        n >= 1,
    ensures
        first_answers.workflow_result(first.payload) is Ok,
        !(first_answers.workflow_result(first.payload)->Ok_0 is Duplicate),
        workflow_run_after(second, second_answers, n) == (ProductWorkflowRunView::Done {
            result: Ok(
                ProductInboundAck::Duplicate {
                    prior: Box::new(first_answers.workflow_result(first.payload)->Ok_0),
                },
            ),
        }),
{
    only_acknowledged_actions_are_settled(first, first_answers, settled_at);
    ledger_decides_alone(second, second_answers, n);
}

/// Two deliveries are one action to the ledger exactly where they agree on
/// adapter, installation, conversation and event, whatever else differs between
/// them.
pub proof fn fingerprint_identifies_the_action(
    first: ProductInboundEnvelope,
    second: ProductInboundEnvelope,
)
    ensures
        fingerprint_of(first)@ == fingerprint_of(second)@ <==> {
            &&& first.adapter_id@ == second.adapter_id@
            &&& first.installation_id@ == second.installation_id@
            &&& first.source_binding_key@ == second.source_binding_key@
            &&& first.external_event_id@ == second.external_event_id@
        },
{
}

/// A ledger that fails transiently makes the run end with an error that the
/// adapter may retry.
pub proof fn transient_ledger_failure_is_retryable(
    envelope: ProductInboundEnvelope,
    answers: ProductWorkflowAnswers,
)
    requires
        answers.ledger matches Err(error) && error is Transient,
    ensures
        answers.workflow_result(envelope.payload) matches Err(error)
            && error.retryable(),
{
}

/// A new user message is acknowledged as its turn was answered: the turn's
/// outcome becomes the acknowledgement, and the turn's failure the error.
pub proof fn user_message_is_answered_by_its_turn(
    envelope: ProductInboundEnvelope,
    answers: ProductWorkflowAnswers,
    turn_answers: InboundTurnAnswers,
)
    requires
        envelope.payload is UserMessage,
        answers.find_new(),
        inbound_turn::turn_run_after(envelope, turn_answers, 7) == (InboundTurnRun::Done {
            result: answers.turn,
        })@,
    ensures
        answers.workflow_result(envelope.payload) == match turn_answers.turn_result() {
            Ok(outcome) => Ok::<ProductInboundAck, ProductAdapterErrorView>(
                inbound_turn::ack_of(outcome),
            ),
            Err(error) => Err(ProductAdapterErrorView::Workflow(error)),
        },
{
    inbound_turn::turn_run_ends(envelope, turn_answers, 7);
}

/// An answer moves a run on exactly where it is one to the pending question. A
/// run that is over takes no answer any more.
pub proof fn only_awaited_answers_move_a_workflow(
    run: ProductWorkflowRunView,
    answer: ProductWorkflowAnswer,
)
    ensures
        run.next(answer) == run <==> !run.awaits(answer),
        run is Done ==> !run.awaits(answer),
{
}

/// One delivery of an envelope, with the action that the ledger opens where the
/// envelope is new to it, and with what the services answer.
pub struct Delivery {
    pub envelope: ProductInboundEnvelope,
    pub opened: LedgerAction,
    pub turn: Result<InboundTurnOutcome, ProductWorkflowError>,
    pub settlement: Result<(), ProductWorkflowError>,
}

impl Delivery {
    /// What the services answer where the ledger remembers these settled actions:
    /// the ledger replays what it remembers and opens what it does not.
    pub open spec fn answers(
        self,
        settled: Map<ActionFingerprintKeyView, LedgerAction>,
    ) -> ProductWorkflowAnswers {
        let key = fingerprint_of(self.envelope)@;
        ProductWorkflowAnswers {
            ledger: Ok(
                if settled.contains_key(key) {
                    IdempotencyDecision::Replay(settled[key])
                } else {
                    IdempotencyDecision::New(self.opened)
                },
            ),
            turn: self.turn,
            settlement: self.settlement,
        }
    }

    /// What the adapter is told.
    pub open spec fn result(self, settled: Map<ActionFingerprintKeyView, LedgerAction>) -> Result<
        ProductInboundAck,
        ProductAdapterErrorView,
    > {
        self.answers(settled).workflow_result(self.envelope.payload)
    }

    /// The ledger is handed the action, and records it.
    pub open spec fn is_settled(self, settled: Map<ActionFingerprintKeyView, LedgerAction>) -> bool {
        &&& self.answers(settled).find_new()
        &&& self.answers(settled).dispatch_result(self.envelope.payload) is Ok
        &&& self.settlement is Ok
    }

    /// What the ledger remembers afterwards.
    pub open spec fn recorded(self, settled: Map<ActionFingerprintKeyView, LedgerAction>) -> Map<
        ActionFingerprintKeyView,
        LedgerAction,
    > {
        if self.is_settled(settled) {
            settled.insert(
                fingerprint_of(self.envelope)@,
                settled_action(
                    self.opened,
                    self.envelope.payload,
                    self.answers(settled).dispatch_result(self.envelope.payload)->Ok_0,
                ),
            )
        } else {
            settled
        }
    }
}

/// What the ledger records of a delivery is the action that the run hands it, and
/// the adapter is told the acknowledgement recorded in it.
pub proof fn recorded_action_is_the_settled_one(
    delivery: Delivery,
    settled: Map<ActionFingerprintKeyView, LedgerAction>,
)
    requires
        delivery.is_settled(settled),
    ensures
        ({
            let asked: nat = if delivery.envelope.payload is UserMessage { 2 } else { 1 };
            let run = workflow_run_after(delivery.envelope, delivery.answers(settled), asked);
            &&& run is Settle
            &&& delivery.recorded(settled) == settled.insert(
                fingerprint_of(delivery.envelope)@,
                run->Settle_action,
            )
            &&& run->Settle_action.outcome == Some(run->ack)
            &&& delivery.result(settled) == Ok::<ProductInboundAck, ProductAdapterErrorView>(
                run->ack,
            )
        }),
{
    let asked: nat = if delivery.envelope.payload is UserMessage { 2 } else { 1 };
    only_acknowledged_actions_are_settled(delivery.envelope, delivery.answers(settled), asked);
}

/// What a ledger that started out empty remembers after the first `n` deliveries.
pub open spec fn remembered(deliveries: Seq<Delivery>, n: int) -> Map<
    ActionFingerprintKeyView,
    LedgerAction,
>
    decreases n,
{
    if n <= 0 {
        Map::empty()
    } else {
        deliveries[n - 1].recorded(remembered(deliveries, n - 1))
    }
}

/// What a ledger remembers of an action never changes.
proof fn lemma_memory_lasts(
    deliveries: Seq<Delivery>,
    m: int,
    n: int,
    key: ActionFingerprintKeyView,
)
    requires
        0 <= m <= n <= deliveries.len(),
        remembered(deliveries, m).contains_key(key),
    ensures
        remembered(deliveries, n).contains_key(key),
        remembered(deliveries, n)[key] == remembered(deliveries, m)[key],
    decreases n - m,
{
    if m < n {
        lemma_memory_lasts(deliveries, m, n - 1, key);
    }
}

/// An action is carried out once. However many envelopes are delivered, and in
/// whatever order, once a delivery was acknowledged and recorded, every later
/// delivery of the same action is answered with a duplicate of that
/// acknowledgement, which is never itself a duplicate. The turn service does not
/// see that delivery, and nothing is settled by it.
pub proof fn recorded_action_is_never_repeated(
    deliveries: Seq<Delivery>,
    earlier: int,
    later: int,
    n: nat,
)
    requires
        0 <= earlier < later < deliveries.len(),
        fingerprint_of(deliveries[earlier].envelope)@ == fingerprint_of(deliveries[later].envelope)@,
        deliveries[earlier].is_settled(remembered(deliveries, earlier)),
    ensures
        deliveries[earlier].result(remembered(deliveries, earlier)) is Ok,
        !(deliveries[earlier].result(remembered(deliveries, earlier))->Ok_0 is Duplicate),
        deliveries[later].result(remembered(deliveries, later)) == Ok::<
            ProductInboundAck,
            ProductAdapterErrorView,
        >(
            ProductInboundAck::Duplicate {
                prior: Box::new(
                    deliveries[earlier].result(remembered(deliveries, earlier))->Ok_0,
                ),
            },
        ),
        !(workflow_run_after(
            deliveries[later].envelope,
            deliveries[later].answers(remembered(deliveries, later)),
            n,
        ) is AcceptUserMessage),
        !(workflow_run_after(
            deliveries[later].envelope,
            deliveries[later].answers(remembered(deliveries, later)),
            n,
        ) is Settle),
{
    let key = fingerprint_of(deliveries[earlier].envelope)@;
    assert(remembered(deliveries, earlier + 1).contains_key(key));
    lemma_memory_lasts(deliveries, earlier + 1, later, key);
    turn_service_sees_new_user_messages_only(
        deliveries[later].envelope,
        deliveries[later].answers(remembered(deliveries, later)),
        n,
    );
    only_acknowledged_actions_are_settled(
        deliveries[later].envelope,
        deliveries[later].answers(remembered(deliveries, later)),
        n,
    );
}

/// The ledger is asked about the envelope's own action: the key's adapter,
/// installation, conversation and event are each the envelope's, and so is the
/// time of receipt.
pub proof fn ledger_is_asked_about_the_envelopes_action(
    envelope: ProductInboundEnvelope,
    key: ActionFingerprintKey,
    begun: ProductWorkflowRun,
)
    requires
        call_ensures(fingerprint, (&envelope,), key),
        call_ensures(ProductWorkflowRun::begin, (envelope,), begun),
    ensures
        key.adapter_id == envelope.adapter_id,
        key.installation_id == envelope.installation_id,
        key.source_binding_key == envelope.source_binding_key,
        key.external_event_id == envelope.external_event_id,
        begun is ConsultLedger,
        begun->ConsultLedger_envelope == envelope,
        begun->fingerprint == key,
        begun->received_at == envelope.received_at,
{
}

/// A payload goes to the turn service exactly where it is a user message, and is
/// acknowledged on its own exactly where it is a no-op. Every command is refused
/// under its own name, and every other payload under its own kind.
pub proof fn payload_goes_where_its_kind_says(
    envelope: ProductInboundEnvelope,
    dispatch: PayloadDispatch,
)
    requires
        call_ensures(dispatch_payload, (&envelope,), dispatch),
    ensures
        dispatch is AcceptUserMessage <==> envelope.payload is UserMessage,
        dispatch is Finished && dispatch->result is Ok <==> envelope.payload is NoOp,
        envelope.payload is NoOp ==> dispatch->result->Ok_0 is NoOp,
        envelope.payload matches ProductInboundPayload::Command { command } ==> (
        dispatch->result matches Err(
            ProductWorkflowError::CommandRoutingUnavailable { command: refused },
        ) && refused@ == command@),
        envelope.payload is ApprovalResolution ==> (dispatch->result matches Err(
            ProductWorkflowError::UnsupportedActionKind { kind },
        ) && kind@ == "approval_resolution"@),
        envelope.payload is AuthResolution ==> (dispatch->result matches Err(
            ProductWorkflowError::UnsupportedActionKind { kind },
        ) && kind@ == "auth_resolution"@),
        envelope.payload is SubscriptionRequest ==> (dispatch->result matches Err(
            ProductWorkflowError::UnsupportedActionKind { kind },
        ) && kind@ == "subscription_request"@),
        envelope.payload is LinkedThreadAction ==> (dispatch->result matches Err(
            ProductWorkflowError::UnsupportedActionKind { kind },
        ) && kind@ == "linked_thread_action"@),
{
}

/// A new command is never swallowed: whatever it says, its run ends with the
/// refusal of that very command and is never at a settlement, so that the command
/// may be delivered again.
pub proof fn new_command_is_refused_and_not_settled(
    envelope: ProductInboundEnvelope,
    command: String,
    answers: ProductWorkflowAnswers,
    action: LedgerAction,
    n: nat,
)
    requires
        envelope.payload == (ProductInboundPayload::Command { command }),
        answers.ledger == Ok::<IdempotencyDecision, ProductWorkflowError>(
            IdempotencyDecision::New(action),
        ),
    ensures
        !(workflow_run_after(envelope, answers, n) is Settle),
        !(workflow_run_after(envelope, answers, n) is AcceptUserMessage),
        n >= 1 ==> workflow_run_after(envelope, answers, n) == (ProductWorkflowRunView::Done {
            result: Err(
                ProductAdapterErrorView::Workflow(
                    ProductWorkflowErrorView::CommandRoutingUnavailable { command: command@ },
                ),
            ),
        }),
    decreases n,
{
    if n > 1 {
        new_command_is_refused_and_not_settled(
            envelope,
            command,
            answers,
            action,
            (n - 1) as nat,
        );
    } else {
        reveal_with_fuel(workflow_run_after, 3);
    }
}

/// A run is acknowledged or settled only for cause: by the ledger's replay, by
/// the turn service for a user message, or because there was nothing to do. What
/// is settled without the turn service is a no-op, acknowledged as one.
pub proof fn only_a_no_op_is_settled_without_the_turn_service(
    envelope: ProductInboundEnvelope,
    answers: ProductWorkflowAnswers,
    n: nat,
)
    ensures
        workflow_run_after(envelope, answers, n) matches ProductWorkflowRunView::Settle {
            action,
            ack,
        } ==> {
            &&& envelope.payload is NoOp && ack is NoOp || envelope.payload is UserMessage
                && answers.turn is Ok
            &&& answers.ledger matches Ok(IdempotencyDecision::New(opened))
            &&& action.action_id == opened.action_id
            &&& action.outcome == Some(ack)
        },
        workflow_run_after(envelope, answers, n) matches ProductWorkflowRunView::Done {
            result: Ok(ack),
        } ==> {
            ||| answers.ledger matches Ok(IdempotencyDecision::Replay(_)) && ack is Duplicate
            ||| envelope.payload is UserMessage && answers.turn is Ok
            ||| envelope.payload is NoOp && ack is NoOp
        },
{
    if n < 3 {
        reveal_with_fuel(workflow_run_after, 4);
    } else {
        workflow_run_ends(envelope, answers, n);
    }
}

/// What the ledger says first decides how a run goes on. Its failure is passed on
/// as it is. A settled action is answered with a duplicate of the acknowledgement
/// recorded in it, or with an internal error where none is recorded.
pub proof fn ledger_failure_and_replay_end_the_run(
    envelope: ProductInboundEnvelope,
    fingerprint: ActionFingerprintKey,
    received_at: Timestamp,
    error: ProductWorkflowError,
    action: LedgerAction,
    failed: ProductWorkflowRun,
    replayed: ProductWorkflowRun,
)
    requires
        call_ensures(
            ProductWorkflowRun::step,
            (
                ProductWorkflowRun::ConsultLedger { envelope, fingerprint, received_at },
                ProductWorkflowAnswer::LedgerDecided(Err(error)),
            ),
            failed,
        ),
        call_ensures(
            ProductWorkflowRun::step,
            (
                ProductWorkflowRun::ConsultLedger { envelope, fingerprint, received_at },
                ProductWorkflowAnswer::LedgerDecided(Ok(IdempotencyDecision::Replay(action))),
            ),
            replayed,
        ),
    ensures
        failed is Done,
        failed->Done_result matches Err(ProductAdapterError::Workflow(told)) && told@ == error@,
        replayed is Done,
        action.outcome matches Some(prior) ==> (replayed->Done_result matches Ok(
            ProductInboundAck::Duplicate { prior: repeated },
        ) && *repeated == prior),
        action.outcome is None ==> (replayed->Done_result matches Err(
            ProductAdapterError::Internal { detail },
        ) && detail@ == "settled action missing outcome"@),
{
}

/// A new action is carried out by the kind of its payload. A user message is
/// handed to the turn service, with its own envelope and action. A no-op is
/// settled at once: the ledger gets its own action back, marked with what was
/// done and acknowledged. Everything else ends the run with a refusal.
pub proof fn new_action_is_carried_out_by_kind(
    envelope: ProductInboundEnvelope,
    fingerprint: ActionFingerprintKey,
    received_at: Timestamp,
    action: LedgerAction,
    after: ProductWorkflowRun,
)
    requires
        call_ensures(
            ProductWorkflowRun::step,
            (
                ProductWorkflowRun::ConsultLedger { envelope, fingerprint, received_at },
                ProductWorkflowAnswer::LedgerDecided(Ok(IdempotencyDecision::New(action))),
            ),
            after,
        ),
    ensures
        after is AcceptUserMessage <==> envelope.payload is UserMessage,
        after is Settle <==> envelope.payload is NoOp,
        after is AcceptUserMessage ==> after->AcceptUserMessage_envelope == envelope
            && after->AcceptUserMessage_action == action,
        after is Settle ==> after->ack is NoOp && after->Settle_action == (LedgerAction {
            action_id: action.action_id,
            dispatch_kind: Some(ActionDispatchKind::NoOp),
            outcome: Some(ProductInboundAck::NoOp),
        }),
        after is Done ==> (after->Done_result matches Err(told) && told is Workflow),
        envelope.payload matches ProductInboundPayload::Command { command } ==> after is Done && (
        after->Done_result matches Err(
            ProductAdapterError::Workflow(
                ProductWorkflowError::CommandRoutingUnavailable { command: refused },
            ),
        ) && refused@ == command@),
        envelope.payload is ApprovalResolution ==> after is Done && (
        after->Done_result matches Err(
            ProductAdapterError::Workflow(ProductWorkflowError::UnsupportedActionKind { kind }),
        ) && kind@ == "approval_resolution"@),
        envelope.payload is AuthResolution ==> after is Done && (after->Done_result matches Err(
            ProductAdapterError::Workflow(ProductWorkflowError::UnsupportedActionKind { kind }),
        ) && kind@ == "auth_resolution"@),
        envelope.payload is SubscriptionRequest ==> after is Done && (
        after->Done_result matches Err(
            ProductAdapterError::Workflow(ProductWorkflowError::UnsupportedActionKind { kind }),
        ) && kind@ == "subscription_request"@),
        envelope.payload is LinkedThreadAction ==> after is Done && (
        after->Done_result matches Err(
            ProductAdapterError::Workflow(ProductWorkflowError::UnsupportedActionKind { kind }),
        ) && kind@ == "linked_thread_action"@),
{
}

/// The turn service decides how a user message is answered. A taken or deferred
/// turn is settled: the ledger gets its own action back, marked as a user message
/// and with the acknowledgement, which names the turn's own message and run. A
/// failure is passed on as it is, and nothing is settled.
pub proof fn turn_decides_how_a_message_is_answered(
    envelope: ProductInboundEnvelope,
    action: LedgerAction,
    answered: Result<InboundTurnOutcome, ProductWorkflowError>,
    after: ProductWorkflowRun,
)
    requires
        envelope.payload is UserMessage,
        call_ensures(
            ProductWorkflowRun::step,
            (
                ProductWorkflowRun::AcceptUserMessage { envelope, action },
                ProductWorkflowAnswer::UserMessageAccepted(answered),
            ),
            after,
        ),
    ensures
        after is Settle <==> answered is Ok,
        after is Done <==> answered is Err,
        after is Settle ==> after->Settle_action == (LedgerAction {
            action_id: action.action_id,
            dispatch_kind: Some(ActionDispatchKind::UserMessage),
            outcome: Some(after->ack),
        }),
        answered matches Ok(
            InboundTurnOutcome::Submitted { accepted_message_ref, submitted_run_id, .. },
        ) ==> after->ack == (ProductInboundAck::Accepted {
            accepted_message_ref,
            submitted_run_id,
        }),
        answered matches Ok(
            InboundTurnOutcome::DeferredBusy { accepted_message_ref, active_run_id, .. },
        ) ==> after->ack == (ProductInboundAck::DeferredBusy {
            accepted_message_ref,
            active_run_id,
        }),
        answered matches Err(error) ==> (after->Done_result matches Err(
            ProductAdapterError::Workflow(told),
        ) && told@ == error@),
{
}

/// The adapter is told the acknowledgement that was to be settled, whether or not
/// the ledger recorded it.
pub proof fn acknowledgement_does_not_wait_for_the_ledger(
    action: LedgerAction,
    ack: ProductInboundAck,
    settlement: Result<(), ProductWorkflowError>,
    after: ProductWorkflowRun,
)
    requires
        call_ensures(
            ProductWorkflowRun::step,
            (
                ProductWorkflowRun::Settle { action, ack },
                ProductWorkflowAnswer::LedgerSettled(settlement),
            ),
            after,
        ),
    ensures
        after is Done,
        after->Done_result == Ok::<ProductInboundAck, ProductAdapterError>(ack),
{
}

/// Only the service that a run is waiting on can move it. Any other answer leaves
/// the run as it was, and a run that is over stays over.
pub proof fn workflow_waits_for_the_asked_service(
    before: ProductWorkflowRun,
    answer: ProductWorkflowAnswer,
    after: ProductWorkflowRun,
)
    requires
        call_ensures(ProductWorkflowRun::step, (before, answer), after),
        before is ConsultLedger ==> !(answer is LedgerDecided),
        before is AcceptUserMessage ==> !(answer is UserMessageAccepted),
        before is Settle ==> !(answer is LedgerSettled),
    ensures
        after@ == before@,
{
}

/// Reading a run keeps all of it: two runs that read alike stand at the same
/// question, about the same values, or are over with the same result.
pub proof fn workflow_view_keeps_everything(first: ProductWorkflowRun, second: ProductWorkflowRun)
    requires
        first@ == second@,
    ensures
        !(first is Done) ==> second == first,
        first is Done ==> second is Done,
        first is Done ==> (first->Done_result matches Ok(ack) ==> second->Done_result == Ok::<
            ProductInboundAck,
            ProductAdapterError,
        >(ack)),
        first is Done ==> (first->Done_result matches Err(error) ==> (
        second->Done_result matches Err(other) && other@ == error@)),
{
}

/// Every projection subscription is refused, in the same words for every
/// envelope.
pub proof fn projection_subscription_is_always_refused<S: ?Sized, L: ?Sized, R>(
    workflow: DefaultProductWorkflow<S, L>,
    envelope: ProductInboundEnvelope,
    result: Result<R, ProductAdapterError>,
)
    requires
        call_ensures(
            DefaultProductWorkflow::<S, L>::resolve_projection_subscription::<R>,
            (&workflow, envelope),
            result,
        ),
    ensures
        result matches Err(ProductAdapterError::Internal { detail }) && detail@
            == "projection subscription resolution not yet implemented"@,
{
}

/// A workflow hands back the turn service and the ledger that it was composed
/// from.
pub proof fn workflow_hands_back_its_services<S: ?Sized, L: ?Sized>(
    turns: Arc<S>,
    ledger: Arc<L>,
    workflow: DefaultProductWorkflow<S, L>,
    handed_turns: &Arc<S>,
    handed_ledger: &Arc<L>,
)
    requires
        call_ensures(DefaultProductWorkflow::<S, L>::new, (turns, ledger), workflow),
        call_ensures(
            DefaultProductWorkflow::<S, L>::inbound_turn_service,
            (&workflow,),
            handed_turns,
        ),
        call_ensures(
            DefaultProductWorkflow::<S, L>::idempotency_ledger,
            (&workflow,),
            handed_ledger,
        ),
    ensures
        *handed_turns == turns,
        *handed_ledger == ledger,
{
}

} // verus!
