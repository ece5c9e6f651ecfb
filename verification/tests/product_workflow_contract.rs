//! Contract tests of the product workflow.

use std::collections::HashMap;
use std::sync::Arc;

use ironclaw_turn_flow::action::{
    ActionDispatchKind, ActionFingerprintKey, IdempotencyDecision, LedgerAction,
};
use ironclaw_turn_flow::adapters::{
    ExternalActorRef, ExternalConversationRef, ProductAdapterError, ProductInboundAck,
    ProductInboundEnvelope, ProductInboundPayload, VerifiedAuthClaim,
};
use ironclaw_turn_flow::binding::ResolvedBinding;
use ironclaw_turn_flow::error::ProductWorkflowError;
use ironclaw_turn_flow::inbound_turn::InboundTurnOutcome;
use ironclaw_turn_flow::turns::{AcceptedMessageRef, Timestamp, TurnRunId};
use ironclaw_turn_flow::workflow::{
    dispatch_payload, DefaultProductWorkflow, PayloadDispatch, ProductWorkflowAnswer,
    ProductWorkflowRun,
};

fn envelope_with(event_suffix: &str, payload: ProductInboundPayload) -> ProductInboundEnvelope {
    ProductInboundEnvelope {
        adapter_id: "test_adapter".into(),
        installation_id: "install_alpha".into(),
        external_event_id: format!("evt:{event_suffix}"),
        external_actor_ref: ExternalActorRef {
            kind: "test".into(),
            id: "user1".into(),
            display_name: None,
        },
        external_conversation_ref: ExternalConversationRef {
            space_id: None,
            conversation_id: "conv1".into(),
            topic_id: None,
            message_id: None,
        },
        auth_claim: VerifiedAuthClaim {
            scheme: "shared_secret_header".into(),
            parameter: Some("X-Secret".into()),
            subject: "install_alpha".into(),
        },
        source_binding_key: "install_alpha/conv1".into(),
        received_at: Timestamp {
            seconds: 1_700_000_000,
            nanos: 0,
        },
        payload,
    }
}

fn sample_envelope(event_suffix: &str) -> ProductInboundEnvelope {
    envelope_with(
        event_suffix,
        ProductInboundPayload::UserMessage {
            text: "hello".into(),
            attachments: vec![],
            trigger_reason: "direct_chat".into(),
        },
    )
}

fn sample_noop_envelope(event_suffix: &str) -> ProductInboundEnvelope {
    envelope_with(event_suffix, ProductInboundPayload::NoOp)
}

fn fingerprint_text(key: &ActionFingerprintKey) -> String {
    format!(
        "{}|{}|{}|{}",
        key.adapter_id, key.installation_id, key.source_binding_key, key.external_event_id
    )
}

/// A turn service and a ledger in memory.
#[derive(Default)]
struct Services {
    accepted: Vec<ProductInboundEnvelope>,
    turn_failure: Option<ProductWorkflowError>,
    active_run: Option<TurnRunId>,
    ledger: HashMap<String, LedgerAction>,
    pending: HashMap<String, String>,
    consulted: Vec<(ActionFingerprintKey, Timestamp)>,
    ledger_failure: Option<ProductWorkflowError>,
    settle_failure: Option<ProductWorkflowError>,
    settled: Vec<LedgerAction>,
}

impl Services {
    fn begin_or_replay(
        &mut self,
        key: &ActionFingerprintKey,
        received_at: Timestamp,
    ) -> Result<IdempotencyDecision, ProductWorkflowError> {
        self.consulted.push((key.clone(), received_at));
        if let Some(error) = &self.ledger_failure {
            return Err(error.clone());
        }
        let text = fingerprint_text(key);
        if let Some(action) = self.ledger.get(&text) {
            return Ok(IdempotencyDecision::Replay(action.clone()));
        }
        let action_id = format!("action-{}", self.pending.len());
        self.pending.insert(action_id.clone(), text);
        Ok(IdempotencyDecision::New(LedgerAction {
            action_id,
            dispatch_kind: None,
            outcome: None,
        }))
    }

    fn accept_user_message(
        &mut self,
        envelope: &ProductInboundEnvelope,
    ) -> Result<InboundTurnOutcome, ProductWorkflowError> {
        self.accepted.push(envelope.clone());
        if let Some(error) = &self.turn_failure {
            return Err(error.clone());
        }
        let accepted_message_ref = AcceptedMessageRef {
            text: format!("msg:{}", envelope.external_event_id),
        };
        let binding = ResolvedBinding {
            tenant_id: "tenant1".into(),
            user_id: "host_user1".into(),
            agent_id: None,
            project_id: None,
            thread_id: "thread1".into(),
        };
        Ok(match &self.active_run {
            Some(active_run_id) => InboundTurnOutcome::DeferredBusy {
                accepted_message_ref,
                active_run_id: active_run_id.clone(),
                binding,
            },
            None => InboundTurnOutcome::Submitted {
                accepted_message_ref,
                submitted_run_id: TurnRunId {
                    text: "run-1".into(),
                },
                binding,
            },
        })
    }

    fn settle(&mut self, action: &LedgerAction) -> Result<(), ProductWorkflowError> {
        if let Some(error) = &self.settle_failure {
            return Err(error.clone());
        }
        let text = self.pending[&action.action_id].clone();
        self.ledger.insert(text, action.clone());
        self.settled.push(action.clone());
        Ok(())
    }

    fn accept_inbound(
        &mut self,
        envelope: ProductInboundEnvelope,
    ) -> Result<ProductInboundAck, ProductAdapterError> {
        let mut run = ProductWorkflowRun::begin(envelope);
        loop {
            let answer = match &run {
                ProductWorkflowRun::ConsultLedger {
                    fingerprint,
                    received_at,
                    ..
                } => ProductWorkflowAnswer::LedgerDecided(
                    self.begin_or_replay(fingerprint, *received_at),
                ),
                ProductWorkflowRun::AcceptUserMessage { envelope, .. } => {
                    ProductWorkflowAnswer::UserMessageAccepted(self.accept_user_message(envelope))
                }
                ProductWorkflowRun::Settle { action, .. } => {
                    ProductWorkflowAnswer::LedgerSettled(self.settle(action))
                }
                ProductWorkflowRun::Done { .. } => break,
            };
            run = run.step(answer);
        }
        match run {
            ProductWorkflowRun::Done { result } => result,
            _ => unreachable!(),
        }
    }
}

#[test]
fn user_message_dispatches_through_inbound_turn_service() {
    let mut services = Services::default();
    let envelope = sample_envelope("1");

    let ack = services.accept_inbound(envelope.clone()).expect("accept");

    assert!(matches!(ack, ProductInboundAck::Accepted { .. }));
    assert_eq!(services.accepted.len(), 1);
    assert_eq!(services.settled.len(), 1);
    assert_eq!(services.accepted, vec![envelope]);
}

#[test]
fn turn_service_is_handed_the_whole_message() {
    let mut services = Services::default();
    let envelope = envelope_with(
        "whole",
        ProductInboundPayload::UserMessage {
            text: "look".into(),
            attachments: vec!["photo.png".into(), "notes.txt".into()],
            trigger_reason: "mention".into(),
        },
    );
    services.accept_inbound(envelope.clone()).expect("accept");
    assert_eq!(services.accepted, vec![envelope]);
}

#[test]
fn noop_returns_noop_ack() {
    let mut services = Services::default();
    let envelope = sample_noop_envelope("noop1");

    let ack = services.accept_inbound(envelope).expect("accept");

    assert!(matches!(ack, ProductInboundAck::NoOp));
    assert_eq!(services.accepted.len(), 0);
    assert_eq!(services.settled.len(), 1);
}

#[test]
fn duplicate_envelope_replays_prior_outcome() {
    let mut services = Services::default();

    // First submission.
    let envelope = sample_envelope("dup1");
    let first_ack = services
        .accept_inbound(envelope.clone())
        .expect("first accept");
    assert!(matches!(first_ack, ProductInboundAck::Accepted { .. }));
    assert_eq!(services.accepted.len(), 1);

    // Second submission of same envelope.
    let second_ack = services.accept_inbound(envelope).expect("second accept");
    assert!(matches!(second_ack, ProductInboundAck::Duplicate { .. }));
    // The turn service is not asked a second time.
    assert_eq!(services.accepted.len(), 1);

    assert_eq!(
        second_ack,
        ProductInboundAck::Duplicate {
            prior: Box::new(first_ack)
        }
    );
    assert_eq!(services.settled.len(), 1);
}

#[test]
fn ledger_transient_failure_surfaces_retryable_error() {
    let mut services = Services {
        ledger_failure: Some(ProductWorkflowError::Transient {
            reason: "db timeout".into(),
        }),
        ..Services::default()
    };

    let envelope = sample_envelope("fail1");
    let err = services.accept_inbound(envelope).expect_err("should fail");
    assert!(err.is_retryable());

    assert_eq!(
        err,
        ProductAdapterError::Workflow(ProductWorkflowError::Transient {
            reason: "db timeout".into()
        })
    );
    assert!(services.accepted.is_empty());
    assert!(services.settled.is_empty());
}

#[test]
fn ledger_is_consulted_about_the_envelope() {
    let mut services = Services::default();
    let envelope = sample_envelope("ask");
    services.accept_inbound(envelope.clone()).expect("accept");
    assert_eq!(
        services.consulted,
        vec![(
            ActionFingerprintKey {
                adapter_id: "test_adapter".into(),
                installation_id: "install_alpha".into(),
                source_binding_key: "install_alpha/conv1".into(),
                external_event_id: "evt:ask".into(),
            },
            envelope.received_at,
        )]
    );
}

#[test]
fn settled_action_records_kind_and_acknowledgement() {
    let mut services = Services::default();
    let ack = services
        .accept_inbound(sample_envelope("rec"))
        .expect("accept");
    assert_eq!(
        ack,
        ProductInboundAck::Accepted {
            accepted_message_ref: AcceptedMessageRef {
                text: "msg:evt:rec".into()
            },
            submitted_run_id: TurnRunId {
                text: "run-1".into()
            },
        }
    );
    assert_eq!(
        services.settled,
        vec![LedgerAction {
            action_id: "action-0".into(),
            dispatch_kind: Some(ActionDispatchKind::UserMessage),
            outcome: Some(ack),
        }]
    );

    services
        .accept_inbound(sample_noop_envelope("rec2"))
        .expect("accept");
    assert_eq!(
        services.settled[1].dispatch_kind,
        Some(ActionDispatchKind::NoOp)
    );
}

#[test]
fn failed_settlement_does_not_change_the_acknowledgement() {
    let mut services = Services {
        settle_failure: Some(ProductWorkflowError::Transient {
            reason: "db timeout".into(),
        }),
        ..Services::default()
    };
    let ack = services
        .accept_inbound(sample_noop_envelope("unsettled"))
        .expect("accept");
    assert_eq!(ack, ProductInboundAck::NoOp);
    assert!(services.settled.is_empty());
}

#[test]
fn failed_turn_is_not_settled() {
    let mut services = Services {
        turn_failure: Some(ProductWorkflowError::TurnSubmissionRejected {
            reason: "run profile is disabled".into(),
        }),
        ..Services::default()
    };
    let err = services
        .accept_inbound(sample_envelope("refused"))
        .expect_err("should fail");
    assert_eq!(
        err,
        ProductAdapterError::Workflow(ProductWorkflowError::TurnSubmissionRejected {
            reason: "run profile is disabled".into()
        })
    );
    assert!(!err.is_retryable());
    assert!(services.settled.is_empty());

    // The envelope is still new when it is delivered again.
    services.turn_failure = None;
    let ack = services
        .accept_inbound(sample_envelope("refused"))
        .expect("accept");
    assert!(matches!(ack, ProductInboundAck::Accepted { .. }));
    assert_eq!(services.accepted.len(), 2);
}

#[test]
fn deferred_message_is_acknowledged_and_settled() {
    let mut services = Services {
        active_run: Some(TurnRunId {
            text: "run-9".into(),
        }),
        ..Services::default()
    };
    let ack = services
        .accept_inbound(sample_envelope("busy"))
        .expect("accept");
    assert_eq!(
        ack,
        ProductInboundAck::DeferredBusy {
            accepted_message_ref: AcceptedMessageRef {
                text: "msg:evt:busy".into()
            },
            active_run_id: TurnRunId {
                text: "run-9".into()
            },
        }
    );
    assert_eq!(services.settled.len(), 1);
    assert_eq!(services.settled[0].outcome, Some(ack.clone()));

    // The message is in its thread: delivering it again does not stage it twice.
    services.active_run = None;
    assert_eq!(
        services
            .accept_inbound(sample_envelope("busy"))
            .expect("accept"),
        ProductInboundAck::Duplicate {
            prior: Box::new(ack)
        }
    );
    assert_eq!(services.accepted.len(), 1);
}

#[test]
fn settled_action_without_outcome_is_an_internal_error() {
    let envelope = sample_envelope("lost");
    let run = ProductWorkflowRun::begin(envelope).step(ProductWorkflowAnswer::LedgerDecided(Ok(
        IdempotencyDecision::Replay(LedgerAction {
            action_id: "action-7".into(),
            dispatch_kind: Some(ActionDispatchKind::UserMessage),
            outcome: None,
        }),
    )));
    assert_eq!(
        run,
        ProductWorkflowRun::Done {
            result: Err(ProductAdapterError::Internal {
                detail: "settled action missing outcome".into()
            })
        }
    );
    match run {
        ProductWorkflowRun::Done { result: Err(error) } => assert!(!error.is_retryable()),
        _ => unreachable!(),
    }
}

fn refusal_of(payload: ProductInboundPayload) -> ProductWorkflowError {
    let mut services = Services::default();
    let envelope = envelope_with("refused", payload);
    let err = services
        .accept_inbound(envelope.clone())
        .expect_err("refused");
    assert!(services.accepted.is_empty());
    assert!(services.settled.is_empty());
    let error = match err {
        ProductAdapterError::Workflow(error) => error,
        ProductAdapterError::Internal { .. } => panic!("expected a workflow error"),
    };
    assert_eq!(
        dispatch_payload(&envelope),
        PayloadDispatch::Finished {
            result: Err(error.clone())
        }
    );
    error
}

#[test]
fn payloads_without_a_service_are_refused() {
    assert_eq!(
        refusal_of(ProductInboundPayload::Command {
            command: "/help".into()
        }),
        ProductWorkflowError::CommandRoutingUnavailable {
            command: "/help".into()
        }
    );
    let unsupported = |kind: &str| ProductWorkflowError::UnsupportedActionKind { kind: kind.into() };
    assert_eq!(
        refusal_of(ProductInboundPayload::ApprovalResolution),
        unsupported("approval_resolution")
    );
    assert_eq!(
        refusal_of(ProductInboundPayload::AuthResolution),
        unsupported("auth_resolution")
    );
    assert_eq!(
        refusal_of(ProductInboundPayload::SubscriptionRequest),
        unsupported("subscription_request")
    );
    assert_eq!(
        refusal_of(ProductInboundPayload::LinkedThreadAction),
        unsupported("linked_thread_action")
    );
}

#[test]
fn dispatch_kind_is_the_payloads_kind() {
    let kinds = [
        (
            ProductInboundPayload::UserMessage {
                text: "a".into(),
                attachments: vec![],
                trigger_reason: "direct_chat".into(),
            },
            ActionDispatchKind::UserMessage,
        ),
        (
            ProductInboundPayload::Command {
                command: "b".into(),
            },
            ActionDispatchKind::Command,
        ),
        (
            ProductInboundPayload::ApprovalResolution,
            ActionDispatchKind::ApprovalResolution,
        ),
        (
            ProductInboundPayload::AuthResolution,
            ActionDispatchKind::AuthResolution,
        ),
        (
            ProductInboundPayload::SubscriptionRequest,
            ActionDispatchKind::SubscriptionRequest,
        ),
        (
            ProductInboundPayload::LinkedThreadAction,
            ActionDispatchKind::LinkedThreadAction,
        ),
        (ProductInboundPayload::NoOp, ActionDispatchKind::NoOp),
    ];
    for (payload, kind) in kinds {
        assert_eq!(ActionDispatchKind::from_payload(&payload), kind);
    }
}

#[test]
fn projection_subscriptions_are_refused() {
    let workflow: DefaultProductWorkflow<str, [u8]> =
        DefaultProductWorkflow::new(Arc::from("turns"), Arc::from(vec![1u8, 2]));
    assert_eq!(&**workflow.inbound_turn_service(), "turns");
    assert_eq!(&**workflow.idempotency_ledger(), &[1u8, 2]);

    let refused: Result<(), ProductAdapterError> =
        workflow.resolve_projection_subscription(sample_envelope("sub"));
    assert_eq!(
        refused,
        Err(ProductAdapterError::Internal {
            detail: "projection subscription resolution not yet implemented".into()
        })
    );
}

#[test]
fn redelivered_event_is_the_same_action() {
    let mut services = Services::default();
    let first = services
        .accept_inbound(sample_envelope("again"))
        .expect("accept");

    let mut redelivered = sample_envelope("again");
    redelivered.received_at.seconds += 60;
    redelivered.payload = ProductInboundPayload::NoOp;
    let duplicate = ProductInboundAck::Duplicate {
        prior: Box::new(first),
    };
    assert_eq!(
        services.accept_inbound(redelivered).expect("accept"),
        duplicate
    );

    let other = services
        .accept_inbound(sample_envelope("other"))
        .expect("accept");
    assert!(matches!(other, ProductInboundAck::Accepted { .. }));

    // A duplicate of a duplicate is still answered with the first outcome.
    assert_eq!(
        services
            .accept_inbound(sample_envelope("again"))
            .expect("accept"),
        duplicate
    );
    assert_eq!(services.accepted.len(), 2);
}

#[test]
fn unasked_answer_leaves_the_workflow_unchanged() {
    let envelope = sample_envelope("early");
    let run = ProductWorkflowRun::begin(envelope.clone())
        .step(ProductWorkflowAnswer::LedgerSettled(Ok(())));
    assert_eq!(run, ProductWorkflowRun::begin(envelope));
}
