//! Contract tests of the user-message path.

use ironclaw_turn_flow::adapters::{
    ExternalActorRef, ExternalConversationRef, ProductInboundAck, ProductInboundEnvelope,
    ProductInboundPayload, VerifiedAuthClaim,
};
use ironclaw_turn_flow::binding::{ResolveBindingRequest, ResolvedBinding, StageMessageRequest};
use ironclaw_turn_flow::error::ProductWorkflowError;
use ironclaw_turn_flow::inbound_turn::{
    DefaultInboundTurnService, InboundTurnAnswer, InboundTurnOutcome, InboundTurnRun,
};
use ironclaw_turn_flow::turns::{
    AcceptedMessageRef, IdempotencyKey, ReplyTargetBindingRef, SourceBindingRef,
    SubmitTurnRequest, SubmitTurnResponse, Timestamp, TurnActor, TurnReferences, TurnRefusal,
    TurnRunId, TurnScope,
};

fn sample_user_message_envelope(event_suffix: &str) -> ProductInboundEnvelope {
    ProductInboundEnvelope {
        adapter_id: "test_adapter".into(),
        installation_id: "install_alpha".into(),
        external_event_id: format!("evt:{event_suffix}"),
        external_actor_ref: ExternalActorRef {
            kind: "test".into(),
            id: "user1".into(),
            display_name: None,
        },
        external_conversation_ref: ExternalConversationRef {
            space_id: None,
            conversation_id: "conv1".into(),
            topic_id: None,
            message_id: None,
        },
        auth_claim: VerifiedAuthClaim {
            scheme: "shared_secret_header".into(),
            parameter: Some("X-Secret".into()),
            subject: "install_alpha".into(),
        },
        source_binding_key: "install_alpha/conv1".into(),
        received_at: Timestamp {
            seconds: 1_700_000_000,
            nanos: 25,
        },
        payload: ProductInboundPayload::UserMessage {
            text: "hello world".into(),
            attachments: vec![],
            trigger_reason: "direct_chat".into(),
        },
    }
}

fn sample_binding() -> ResolvedBinding {
    ResolvedBinding {
        tenant_id: "tenant1".into(),
        user_id: "host_user1".into(),
        agent_id: Some("agent1".into()),
        project_id: None,
        thread_id: "thread1".into(),
    }
}

/// Services with scripted answers that record what they were asked.
struct Services {
    binding: Result<ResolvedBinding, ProductWorkflowError>,
    refused_check: Option<&'static str>,
    staging: Result<(), ProductWorkflowError>,
    submission: Result<TurnRunId, TurnRefusal>,
    asked: Vec<String>,
    binding_requests: Vec<ResolveBindingRequest>,
    staged: Vec<StageMessageRequest>,
    submitted: Vec<SubmitTurnRequest>,
}

impl Services {
    fn willing() -> Self {
        Services {
            binding: Ok(sample_binding()),
            refused_check: None,
            staging: Ok(()),
            submission: Ok(TurnRunId {
                text: "run-1".into(),
            }),
            asked: vec![],
            binding_requests: vec![],
            staged: vec![],
            submitted: vec![],
        }
    }

    fn check(&mut self, name: &'static str, candidate: &str) -> Result<String, String> {
        self.asked.push(format!("{name}={candidate}"));
        if self.refused_check == Some(name) {
            Err("too odd".into())
        } else {
            Ok(candidate.into())
        }
    }

    fn accept_user_message(
        &mut self,
        envelope: &ProductInboundEnvelope,
    ) -> Result<InboundTurnOutcome, ProductWorkflowError> {
        let mut run = InboundTurnRun::begin(envelope.clone());
        loop {
            let answer = match &run {
                InboundTurnRun::ResolveBinding { request, .. } => {
                    self.asked.push("binding".into());
                    self.binding_requests.push(request.clone());
                    InboundTurnAnswer::BindingResolved(match &self.binding {
                        Ok(binding) => Ok(binding.clone()),
                        Err(error) => Err(error.clone()),
                    })
                }
                InboundTurnRun::CheckSourceBindingRef { candidate, .. } => {
                    InboundTurnAnswer::SourceBindingRefChecked(
                        self.check("source", candidate)
                            .map(|text| SourceBindingRef { text }),
                    )
                }
                InboundTurnRun::CheckAcceptedMessageRef { candidate, .. } => {
                    InboundTurnAnswer::AcceptedMessageRefChecked(
                        self.check("message", candidate)
                            .map(|text| AcceptedMessageRef { text }),
                    )
                }
                InboundTurnRun::CheckReplyTargetBindingRef { candidate, .. } => {
                    InboundTurnAnswer::ReplyTargetBindingRefChecked(
                        self.check("reply", candidate)
                            .map(|text| ReplyTargetBindingRef { text }),
                    )
                }
                InboundTurnRun::CheckIdempotencyKey { candidate, .. } => {
                    InboundTurnAnswer::IdempotencyKeyChecked(
                        self.check("key", candidate)
                            .map(|text| IdempotencyKey { text }),
                    )
                }
                InboundTurnRun::StageMessage { request, .. } => {
                    self.asked.push("stage".into());
                    self.staged.push(request.clone());
                    InboundTurnAnswer::MessageStaged(self.staging.clone())
                }
                InboundTurnRun::SubmitTurn { request, .. } => {
                    self.asked.push("submit".into());
                    self.submitted.push(request.clone());
                    InboundTurnAnswer::TurnSubmitted(
                        self.submission
                            .clone()
                            .map(|run_id| SubmitTurnResponse::Accepted { run_id }),
                    )
                }
                InboundTurnRun::Done { .. } => break,
            };
            run = run.step(answer);
        }
        match run {
            InboundTurnRun::Done { result } => result,
            _ => unreachable!(),
        }
    }
}

#[test]
fn user_message_resolves_binding_and_submits_turn() {
    let mut services = Services::willing();
    let envelope = sample_user_message_envelope("turn1");
    let outcome: InboundTurnOutcome = services.accept_user_message(&envelope).expect("submit");

    match &outcome {
        InboundTurnOutcome::Submitted { binding, .. } => {
            assert!(!binding.tenant_id.is_empty());
            assert!(!binding.user_id.is_empty());
            assert!(!binding.thread_id.is_empty());
        }
        _ => panic!("expected Submitted, got {outcome:?}"),
    }

    let ack = outcome.to_ack();
    assert!(matches!(ack, ProductInboundAck::Accepted { .. }));
}

#[test]
fn binding_failure_surfaces_workflow_error() {
    let mut services = Services::willing();
    services.binding = Err(ProductWorkflowError::BindingResolutionFailed {
        reason: "no tenant found".into(),
    });

    let envelope = sample_user_message_envelope("fail1");
    let err = services
        .accept_user_message(&envelope)
        .expect_err("should fail");

    assert!(matches!(
        err,
        ProductWorkflowError::BindingResolutionFailed { .. }
    ));
    assert_eq!(services.asked, vec!["binding"]);
}

#[test]
fn submitted_turn_carries_envelope_and_binding() {
    let mut services = Services::willing();
    let envelope = sample_user_message_envelope("turn2");
    let outcome = services.accept_user_message(&envelope).expect("submit");

    assert_eq!(
        services.asked,
        vec![
            "binding",
            "source=install_alpha/conv1",
            "message=msg:evt:turn2",
            "reply=reply:install_alpha/conv1",
            "key=turn:test_adapter:install_alpha:evt:turn2",
            "stage",
            "submit",
        ]
    );
    assert_eq!(
        services.binding_requests,
        vec![ResolveBindingRequest {
            adapter_id: envelope.adapter_id.clone(),
            installation_id: envelope.installation_id.clone(),
            external_actor_ref: envelope.external_actor_ref.clone(),
            external_conversation_ref: envelope.external_conversation_ref.clone(),
            auth_claim: envelope.auth_claim.clone(),
        }]
    );

    assert_eq!(services.submitted.len(), 1);
    let request = &services.submitted[0];
    assert_eq!(request.scope.tenant_id, "tenant1");
    assert_eq!(request.scope.agent_id.as_deref(), Some("agent1"));
    assert_eq!(request.scope.project_id, None);
    assert_eq!(request.scope.thread_id, "thread1");
    assert_eq!(request.actor.user_id, "host_user1");
    assert_eq!(request.accepted_message_ref.text, "msg:evt:turn2");
    assert_eq!(request.source_binding_ref.text, "install_alpha/conv1");
    assert_eq!(
        request.reply_target_binding_ref.text,
        "reply:install_alpha/conv1"
    );
    assert_eq!(request.requested_run_profile, None);
    assert_eq!(
        request.idempotency_key.text,
        "turn:test_adapter:install_alpha:evt:turn2"
    );
    assert_eq!(request.received_at, envelope.received_at);

    assert_eq!(
        outcome,
        InboundTurnOutcome::Submitted {
            accepted_message_ref: AcceptedMessageRef {
                text: "msg:evt:turn2".into()
            },
            submitted_run_id: TurnRunId {
                text: "run-1".into()
            },
            binding: sample_binding(),
        }
    );
}

fn refusal_of(check: &'static str) -> (ProductWorkflowError, usize) {
    let mut services = Services::willing();
    services.refused_check = Some(check);
    let error = services
        .accept_user_message(&sample_user_message_envelope("odd"))
        .expect_err("refused");
    assert!(services.staged.is_empty());
    assert!(services.submitted.is_empty());
    (error, services.asked.len())
}

#[test]
fn first_unusable_reference_ends_the_run() {
    assert_eq!(
        refusal_of("source"),
        (
            ProductWorkflowError::BindingResolutionFailed {
                reason: "invalid source binding ref: too odd".into()
            },
            2
        )
    );
    assert_eq!(
        refusal_of("message"),
        (
            ProductWorkflowError::TurnSubmissionRejected {
                reason: "invalid accepted message ref: too odd".into()
            },
            3
        )
    );
    assert_eq!(
        refusal_of("reply"),
        (
            ProductWorkflowError::TurnSubmissionRejected {
                reason: "invalid reply target binding ref: too odd".into()
            },
            4
        )
    );
    assert_eq!(
        refusal_of("key"),
        (
            ProductWorkflowError::TurnSubmissionRejected {
                reason: "invalid idempotency key: too odd".into()
            },
            5
        )
    );
}

#[test]
fn staged_message_carries_envelope_and_binding() {
    let mut services = Services::willing();
    let mut envelope = sample_user_message_envelope("turn3");
    envelope.payload = ProductInboundPayload::UserMessage {
        text: "hello world".into(),
        attachments: vec!["photo.png".into(), "notes.txt".into()],
        trigger_reason: "mention".into(),
    };
    services.accept_user_message(&envelope).expect("submit");
    assert_eq!(
        services.staged,
        vec![StageMessageRequest {
            scope: TurnScope {
                tenant_id: "tenant1".into(),
                agent_id: Some("agent1".into()),
                project_id: None,
                thread_id: "thread1".into(),
            },
            actor: TurnActor {
                user_id: "host_user1".into(),
            },
            references: TurnReferences {
                source_binding_ref: SourceBindingRef {
                    text: "install_alpha/conv1".into(),
                },
                accepted_message_ref: AcceptedMessageRef {
                    text: "msg:evt:turn3".into(),
                },
                reply_target_binding_ref: ReplyTargetBindingRef {
                    text: "reply:install_alpha/conv1".into(),
                },
                idempotency_key: IdempotencyKey {
                    text: "turn:test_adapter:install_alpha:evt:turn3".into(),
                },
            },
            external_event_id: "evt:turn3".into(),
            payload: ProductInboundPayload::UserMessage {
                text: "hello world".into(),
                attachments: vec!["photo.png".into(), "notes.txt".into()],
                trigger_reason: "mention".into(),
            },
        }]
    );

    // The turn refers to the staged message, in the same thread.
    assert_eq!(services.submitted.len(), 1);
    let staged = &services.staged[0];
    let submitted = &services.submitted[0];
    assert_eq!(
        submitted.accepted_message_ref,
        staged.references.accepted_message_ref
    );
    assert_eq!(submitted.scope, staged.scope);
    assert_eq!(submitted.actor, staged.actor);
}

#[test]
fn staging_failure_is_handed_on_and_nothing_is_submitted() {
    let mut services = Services::willing();
    let failure = ProductWorkflowError::Transient {
        reason: "thread store is down".into(),
    };
    services.staging = Err(failure.clone());
    let error = services
        .accept_user_message(&sample_user_message_envelope("unstaged"))
        .expect_err("not staged");
    assert_eq!(error, failure);
    assert_eq!(services.staged.len(), 1);
    assert!(services.submitted.is_empty());
    assert_eq!(services.asked.len(), 6);
}

#[test]
fn coordinator_refusal_is_a_rejected_submission() {
    let mut services = Services::willing();
    services.submission = Err(TurnRefusal::Rejected {
        reason: "run profile is disabled".into(),
    });
    let error = services
        .accept_user_message(&sample_user_message_envelope("refused"))
        .expect_err("refused");
    assert_eq!(
        error,
        ProductWorkflowError::TurnSubmissionRejected {
            reason: "run profile is disabled".into()
        }
    );
}

#[test]
fn busy_thread_defers_the_message() {
    let mut services = Services::willing();
    services.submission = Err(TurnRefusal::ThreadBusy {
        active_run_id: TurnRunId {
            text: "run-9".into(),
        },
    });
    let outcome = services
        .accept_user_message(&sample_user_message_envelope("busy"))
        .expect("deferred");
    assert_eq!(
        outcome,
        InboundTurnOutcome::DeferredBusy {
            accepted_message_ref: AcceptedMessageRef {
                text: "msg:evt:busy".into()
            },
            active_run_id: TurnRunId {
                text: "run-9".into()
            },
            binding: sample_binding(),
        }
    );
    assert_eq!(
        outcome.to_ack(),
        ProductInboundAck::DeferredBusy {
            accepted_message_ref: AcceptedMessageRef {
                text: "msg:evt:busy".into()
            },
            active_run_id: TurnRunId {
                text: "run-9".into()
            },
        }
    );
    assert_eq!(services.staged.len(), 1);
}

#[test]
fn deferred_outcome_is_acknowledged_as_deferred() {
    let outcome = InboundTurnOutcome::DeferredBusy {
        accepted_message_ref: AcceptedMessageRef {
            text: "msg:evt:1".into(),
        },
        active_run_id: TurnRunId {
            text: "run-9".into(),
        },
        binding: sample_binding(),
    };
    assert_eq!(
        outcome.to_ack(),
        ProductInboundAck::DeferredBusy {
            accepted_message_ref: AcceptedMessageRef {
                text: "msg:evt:1".into()
            },
            active_run_id: TurnRunId {
                text: "run-9".into()
            },
        }
    );
}

#[test]
fn unasked_answer_leaves_the_run_unchanged() {
    let envelope = sample_user_message_envelope("early");
    let run = InboundTurnRun::begin(envelope.clone()).step(InboundTurnAnswer::TurnSubmitted(Err(
        TurnRefusal::Rejected {
            reason: "not asked".into(),
        },
    )));
    assert_eq!(run, InboundTurnRun::begin(envelope.clone()));
    let run = run.step(InboundTurnAnswer::MessageStaged(Ok(())));
    assert_eq!(run, InboundTurnRun::begin(envelope.clone()));
}

#[test]
fn reference_texts_follow_event_and_conversation() {
    let candidates = |envelope: &ProductInboundEnvelope| {
        let mut services = Services::willing();
        services.accept_user_message(envelope).expect("submit");
        services.asked
    };
    let first = sample_user_message_envelope("a");
    let mut redelivered = first.clone();
    redelivered.received_at.seconds += 60;
    redelivered.payload = ProductInboundPayload::UserMessage {
        text: "edited".into(),
        attachments: vec!["photo.png".into()],
        trigger_reason: "mention".into(),
    };
    assert_eq!(candidates(&first), candidates(&redelivered));

    let other_event = candidates(&sample_user_message_envelope("b"));
    assert_ne!(candidates(&first)[2], other_event[2]);
    assert_eq!(candidates(&first)[3], other_event[3]);
    assert_ne!(candidates(&first)[4], other_event[4]);
}

#[test]
fn service_keeps_what_it_was_composed_from() {
    let service = DefaultInboundTurnService::new("bindings", 7u8);
    assert_eq!(*service.binding_service(), "bindings");
    assert_eq!(*service.turn_coordinator(), 7);
}
