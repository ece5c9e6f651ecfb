//! Tests of the text-only loop driver on a host with scripted services.

use std::sync::Arc;

use ironclaw_turn_flow::run_profile::{
    AgentLoopDriverDescriptor, AgentLoopDriverError, AgentLoopDriverRunRequest, AgentLoopHostError,
    AgentLoopHostErrorKind, AssistantReply, CapabilityCallCandidate, HostErrorKindNames,
    HostFailure, LoopCompletionKind, LoopExit, LoopExitId, LoopFailureKind, LoopMessageRef,
    LoopModelMessage, LoopModelRequest, LoopModelResponse, LoopPromptBundle,
    LoopPromptBundleRequest, LoopRunContext, ParentLoopOutput, PromptMode, ResolvedRunProfile,
};
use ironclaw_turn_flow::text_loop_driver::{
    completed_final_reply, final_reply_exit_candidate, loop_failure_kind_name, map_host_error,
    validate_run_request, TextLoopAnswer, TextLoopRun, TextOnlyModelReplyDriver,
    TextOnlyModelReplyDriverConfig,
};
use ironclaw_turn_flow::text_loop_host::{
    TextOnlyLoopHost, TextOnlyLoopHostConfig, ThreadScope,
};
use ironclaw_turn_flow::turns::{TurnId, TurnRunId, TurnScope};

fn kind_names() -> HostErrorKindNames {
    HostErrorKindNames {
        invalid_invocation: "invalid_invocation".into(),
        scope_mismatch: "scope_mismatch".into(),
        unavailable: "unavailable".into(),
        cancelled: "cancelled".into(),
        transcript_write_failed: "transcript_write_failed".into(),
        budget_exceeded: "budget_exceeded".into(),
        policy_denied: "policy_denied".into(),
        checkpoint_rejected: "checkpoint_rejected".into(),
        unauthorized: "unauthorized".into(),
        stale_surface: "stale_surface".into(),
        internal: "internal".into(),
    }
}

fn host_failure(kind: AgentLoopHostErrorKind, message: &str) -> HostFailure {
    kind_names().named(AgentLoopHostError {
        kind,
        message: message.into(),
    })
}

/// What a host reports as a run goes on.
#[derive(Debug, PartialEq, Eq)]
enum Milestone {
    PromptBundleBuilt,
    ModelStarted {
        requested_model_profile_id: Option<String>,
    },
    ModelCompleted {
        effective_model_profile_id: String,
    },
    AssistantReplyFinalized {
        message_ref: LoopMessageRef,
    },
}

impl Milestone {
    fn kind_name(&self) -> &'static str {
        match self {
            Milestone::PromptBundleBuilt => "prompt_bundle_built",
            Milestone::ModelStarted { .. } => "model_started",
            Milestone::ModelCompleted { .. } => "model_completed",
            Milestone::AssistantReplyFinalized { .. } => "assistant_reply_finalized",
        }
    }
}

/// A thread with one user message, a model gateway and a transcript.
struct ThreadFixture {
    user_content: String,
    run_context: LoopRunContext,
    prompt_failure: Option<AgentLoopHostErrorKind>,
    gateway: Result<ParentLoopOutput, HostFailure>,
    transcript_failure: Option<AgentLoopHostErrorKind>,
    exit_id_refused: bool,
    prompt_requests: Vec<LoopPromptBundleRequest>,
    gateway_requests: Vec<LoopModelRequest>,
    assistant_messages: Vec<String>,
    exit_candidates: Vec<String>,
    milestones: Vec<Milestone>,
}

fn resolved_profile(loop_driver: AgentLoopDriverDescriptor) -> ResolvedRunProfile {
    ResolvedRunProfile {
        loop_driver,
        model_profile_id: "interactive_model".into(),
        settings: "{\"run_class\":\"interactive\"}".into(),
    }
}

impl ThreadFixture {
    fn new_with_user_content(user_content: &str) -> Self {
        ThreadFixture {
            user_content: user_content.into(),
            run_context: LoopRunContext {
                scope: TurnScope {
                    tenant_id: "tenant-reborn-driver".into(),
                    agent_id: Some("agent-reborn-driver".into()),
                    project_id: Some("project-reborn-driver".into()),
                    thread_id: "thread-reborn-driver".into(),
                },
                turn_id: TurnId {
                    text: "turn-1".into(),
                },
                run_id: TurnRunId {
                    text: "run-1".into(),
                },
                resolved_run_profile: resolved_profile(
                    TextOnlyModelReplyDriver::default().descriptor(),
                ),
            },
            prompt_failure: None,
            gateway: Ok(ParentLoopOutput::AssistantReply(AssistantReply {
                content: "unset".into(),
            })),
            transcript_failure: None,
            exit_id_refused: false,
            prompt_requests: vec![],
            gateway_requests: vec![],
            assistant_messages: vec![],
            exit_candidates: vec![],
            milestones: vec![],
        }
    }

    fn reply(mut self, content: &str) -> Self {
        self.gateway = Ok(ParentLoopOutput::AssistantReply(AssistantReply {
            content: content.into(),
        }));
        self
    }

    fn deny(mut self, raw_detail: &str) -> Self {
        self.gateway = Err(host_failure(
            AgentLoopHostErrorKind::PolicyDenied,
            raw_detail,
        ));
        self
    }

    fn capability_calls(mut self) -> Self {
        self.gateway = Ok(ParentLoopOutput::CapabilityCalls(vec![
            CapabilityCallCandidate {
                surface_version: "surface-v1".into(),
                capability_id: "demo.echo".into(),
                input_ref: "input:opaque-tool-call".into(),
            },
        ]));
        self
    }

    fn host(&self) -> TextOnlyLoopHost<str, str, str> {
        TextOnlyLoopHost::new(
            Arc::from("threads"),
            ThreadScope {
                tenant_id: "tenant-reborn-driver".into(),
                agent_id: "agent-reborn-driver".into(),
                project_id: Some("project-reborn-driver".into()),
                owner_user_id: Some("user-reborn-driver".into()),
                mission_id: None,
            },
            self.run_context.clone(),
            Arc::from("gateway"),
            Arc::from("milestones"),
            TextOnlyLoopHostConfig::default(),
        )
    }

    fn answer(&mut self, run: &TextLoopRun) -> Option<TextLoopAnswer> {
        Some(match run {
            TextLoopRun::BuildPromptBundle { request, .. } => {
                self.prompt_requests.push(request.clone());
                TextLoopAnswer::PromptBundleBuilt(match self.prompt_failure {
                    Some(kind) => Err(host_failure(kind, "RAW_PROMPT_ERROR")),
                    None => {
                        self.milestones.push(Milestone::PromptBundleBuilt);
                        Ok(LoopPromptBundle {
                            messages: vec![LoopModelMessage {
                                role: "user".into(),
                                content_ref: self.user_content.clone(),
                            }],
                            surface_version: Some("surface-v1".into()),
                        })
                    }
                })
            }
            TextLoopRun::StreamModel { request, .. } => {
                self.gateway_requests.push(request.clone());
                self.milestones.push(Milestone::ModelStarted {
                    requested_model_profile_id: request.model_preference.clone(),
                });
                let default_model = &self.run_context.resolved_run_profile.model_profile_id;
                TextLoopAnswer::ModelStreamed(match &self.gateway {
                    Ok(output) => {
                        self.milestones.push(Milestone::ModelCompleted {
                            effective_model_profile_id: request
                                .model_preference
                                .as_ref()
                                .unwrap_or(default_model)
                                .clone(),
                        });
                        Ok(LoopModelResponse {
                            output: output.clone(),
                        })
                    }
                    Err(failure) => Err(failure.clone()),
                })
            }
            TextLoopRun::FinalizeReply { request, .. } => {
                TextLoopAnswer::ReplyFinalized(match self.transcript_failure {
                    Some(kind) => Err(host_failure(kind, "RAW_TRANSCRIPT_ERROR")),
                    None => {
                        self.assistant_messages.push(request.reply.content.clone());
                        let message_ref = LoopMessageRef {
                            text: format!("msg:{}", self.assistant_messages.len()),
                        };
                        self.milestones.push(Milestone::AssistantReplyFinalized {
                            message_ref: message_ref.clone(),
                        });
                        Ok(message_ref)
                    }
                })
            }
            TextLoopRun::CheckExitId { candidate, .. } => {
                self.exit_candidates.push(candidate.clone());
                TextLoopAnswer::ExitIdChecked(if self.exit_id_refused {
                    Err("too odd".into())
                } else {
                    Ok(LoopExitId {
                        text: candidate.clone(),
                    })
                })
            }
            TextLoopRun::Done { .. } => return None,
        })
    }

    fn milestone_names(&self) -> Vec<&'static str> {
        self.milestones.iter().map(Milestone::kind_name).collect()
    }

    fn run(
        &mut self,
        driver: &TextOnlyModelReplyDriver,
        request: AgentLoopDriverRunRequest,
    ) -> Result<LoopExit, AgentLoopDriverError> {
        let host = self.host();
        let mut run = driver.begin_run(request, host.run_context());
        while let Some(answer) = self.answer(&run) {
            run = run.step(answer);
        }
        match run {
            TextLoopRun::Done { result } => result,
            _ => unreachable!(),
        }
    }
}

fn driver_request(context: &LoopRunContext) -> AgentLoopDriverRunRequest {
    AgentLoopDriverRunRequest {
        turn_id: context.turn_id.clone(),
        run_id: context.run_id.clone(),
        resolved_run_profile: context.resolved_run_profile.clone(),
    }
}

fn assert_outputs_hide_sentinels(debug: String) {
    for forbidden in [
        "RAW_PROMPT_TEXT_SENTINEL",
        "RAW_ASSISTANT_CONTENT_SENTINEL",
        "RAW_PROVIDER_ERROR",
        "invalid api key",
        "sk-prompt-secret",
        "sk-output-secret",
        "sk-provider-secret",
        "/host/path",
        "tool_input",
    ] {
        assert!(!debug.contains(forbidden), "value leaked {forbidden}");
    }
}

fn assert_driver_error_hides_sentinels(error: &AgentLoopDriverError) {
    let debug = format!("{error:?}");
    for forbidden in [
        "RAW_PROMPT_TEXT_SENTINEL",
        "RAW_PROVIDER_ERROR",
        "invalid api key",
        "sk-provider-secret",
        "/host/path",
        "tool_input",
    ] {
        assert!(
            !debug.contains(forbidden),
            "driver error leaked {forbidden}"
        );
    }
}

#[test]
fn text_only_model_reply_driver_runs_context_model_transcript_path() {
    let mut fixture = ThreadFixture::new_with_user_content(
        "RAW_PROMPT_TEXT_SENTINEL sk-prompt-secret /host/path tool_input",
    )
    .reply("RAW_ASSISTANT_CONTENT_SENTINEL sk-output-secret /host/path tool_input");
    let request = driver_request(&fixture.run_context);
    let exit = fixture
        .run(&TextOnlyModelReplyDriver::default(), request)
        .unwrap();

    let LoopExit::Completed(completed) = exit;
    assert_eq!(completed.completion_kind, LoopCompletionKind::FinalReply);
    assert_eq!(completed.result_refs, Vec::<String>::new());
    assert_eq!(completed.reply_message_refs.len(), 1);
    assert_eq!(completed.final_checkpoint_id, None);
    assert_eq!(completed.usage_summary_ref, None);
    assert_eq!(completed.exit_id.text, "exit:run-1-final-reply");
    let reply_ref = completed.reply_message_refs[0].clone();
    assert_eq!(reply_ref.text, format!("msg:{}", 1));

    assert_eq!(
        fixture.assistant_messages,
        vec!["RAW_ASSISTANT_CONTENT_SENTINEL sk-output-secret /host/path tool_input"]
    );

    assert_eq!(fixture.gateway_requests.len(), 1);
    assert_eq!(fixture.gateway_requests[0].messages.len(), 1);
    assert_eq!(
        fixture.gateway_requests[0].messages[0].content_ref,
        "RAW_PROMPT_TEXT_SENTINEL sk-prompt-secret /host/path tool_input"
    );
    assert_eq!(
        fixture.gateway_requests[0].surface_version.as_deref(),
        Some("surface-v1")
    );
    assert_eq!(fixture.gateway_requests[0].model_preference, None);

    assert_eq!(
        fixture.milestones,
        vec![
            Milestone::PromptBundleBuilt,
            Milestone::ModelStarted {
                requested_model_profile_id: None,
            },
            Milestone::ModelCompleted {
                effective_model_profile_id: fixture
                    .run_context
                    .resolved_run_profile
                    .model_profile_id
                    .clone(),
            },
            Milestone::AssistantReplyFinalized {
                message_ref: reply_ref,
            },
        ]
    );
    assert_outputs_hide_sentinels(format!("{:?}", fixture.milestones));
    assert_outputs_hide_sentinels(format!("{completed:?}"));
}

#[test]
fn text_only_model_reply_driver_builds_prompt_bundle_before_model_request() {
    let mut fixture =
        ThreadFixture::new_with_user_content("prompt bundle source").reply("model reply");
    let driver = TextOnlyModelReplyDriver::new(TextOnlyModelReplyDriverConfig { context_limit: 1 });
    let request = driver_request(&fixture.run_context);
    fixture.run(&driver, request).unwrap();

    assert_eq!(
        fixture.milestone_names(),
        vec![
            "prompt_bundle_built",
            "model_started",
            "model_completed",
            "assistant_reply_finalized",
        ]
    );
    assert_eq!(
        fixture.prompt_requests,
        vec![LoopPromptBundleRequest {
            mode: PromptMode::TextOnly,
            context_cursor: None,
            surface_version: None,
            checkpoint_state_ref: None,
            max_messages: Some(1),
        }]
    );
}

#[test]
fn text_only_model_reply_driver_rejects_mismatched_run_profile_driver() {
    let mut fixture =
        ThreadFixture::new_with_user_content("hello mismatch").reply("should not be called");
    fixture.run_context.resolved_run_profile = resolved_profile(AgentLoopDriverDescriptor {
        driver_id: "reborn:interactive-default".into(),
        version: 1,
    });
    let request = driver_request(&fixture.run_context);
    let error = fixture
        .run(&TextOnlyModelReplyDriver::default(), request)
        .unwrap_err();

    assert!(matches!(error, AgentLoopDriverError::InvalidRequest { .. }));
    assert!(fixture.gateway_requests.is_empty());
    assert!(fixture.milestones.is_empty());
    assert!(fixture.prompt_requests.is_empty());
    assert_driver_error_hides_sentinels(&error);
}

#[test]
fn text_only_model_reply_driver_sanitizes_model_failures_and_skips_transcript_write() {
    let mut fixture = ThreadFixture::new_with_user_content("RAW_PROMPT_TEXT_SENTINEL").deny(
        "RAW_PROVIDER_ERROR invalid api key sk-provider-secret /host/path tool_input",
    );
    let request = driver_request(&fixture.run_context);
    let error = fixture
        .run(&TextOnlyModelReplyDriver::default(), request)
        .unwrap_err();

    assert!(matches!(
        error,
        AgentLoopDriverError::Failed { ref reason_kind } if reason_kind == "model_error"
    ));
    assert_driver_error_hides_sentinels(&error);
    assert!(fixture.assistant_messages.is_empty());
    assert_eq!(
        fixture.milestones,
        vec![
            Milestone::PromptBundleBuilt,
            Milestone::ModelStarted {
                requested_model_profile_id: None,
            },
        ]
    );
    assert_outputs_hide_sentinels(format!("{:?}", fixture.milestones));
}

#[test]
fn text_only_model_reply_driver_rejects_capability_calls_without_dispatching_tools() {
    let mut fixture = ThreadFixture::new_with_user_content("hello needs tool").capability_calls();
    let request = driver_request(&fixture.run_context);
    let error = fixture
        .run(&TextOnlyModelReplyDriver::default(), request)
        .unwrap_err();

    assert!(matches!(
        error,
        AgentLoopDriverError::Failed { ref reason_kind } if reason_kind == "invalid_model_output"
    ));
    assert!(fixture.assistant_messages.is_empty());
    assert_eq!(
        fixture.milestone_names(),
        vec!["prompt_bundle_built", "model_started", "model_completed"]
    );
}

#[test]
fn default_driver_limits_prompts_to_sixteen_messages() {
    assert_eq!(TextOnlyModelReplyDriverConfig::default().context_limit, 16);
    let mut fixture = ThreadFixture::new_with_user_content("hello").reply("hi");
    let request = driver_request(&fixture.run_context);
    fixture
        .run(&TextOnlyModelReplyDriver::default(), request)
        .unwrap();
    assert_eq!(fixture.prompt_requests[0].max_messages, Some(16));
}

#[test]
fn prompt_limit_keeps_the_low_bits_of_the_context_limit() {
    let limit_of = |context_limit: usize| {
        let mut fixture = ThreadFixture::new_with_user_content("hello").reply("hi");
        let request = driver_request(&fixture.run_context);
        fixture
            .run(
                &TextOnlyModelReplyDriver::new(TextOnlyModelReplyDriverConfig { context_limit }),
                request,
            )
            .unwrap();
        fixture.prompt_requests[0].max_messages
    };
    assert_eq!(limit_of(0), Some(0));
    assert_eq!(limit_of(u32::MAX as usize), Some(u32::MAX));
    assert_eq!(limit_of(0x1_0000_0005), Some(5));
}

#[test]
fn descriptor_names_the_text_only_driver() {
    assert_eq!(
        TextOnlyModelReplyDriver::default().descriptor(),
        AgentLoopDriverDescriptor {
            driver_id: "reborn:text-only-model-reply".into(),
            version: 1,
        }
    );
}

#[test]
fn request_must_match_the_hosts_run() {
    let fixture = ThreadFixture::new_with_user_content("hello");
    let context = &fixture.run_context;
    let descriptor = TextOnlyModelReplyDriver::default().descriptor();
    let refused = |request: &AgentLoopDriverRunRequest| {
        validate_run_request(request, context, &descriptor).unwrap_err()
    };
    let invalid = |reason: &str| AgentLoopDriverError::InvalidRequest {
        reason: reason.into(),
    };
    let request = driver_request(context);
    assert_eq!(validate_run_request(&request, context, &descriptor), Ok(()));

    let mut other_turn = request.clone();
    other_turn.turn_id.text = "turn-2".into();
    let mut other_run = request.clone();
    other_run.run_id.text = "run-2".into();
    let other_context = invalid("driver request does not match loop host run context");
    assert_eq!(refused(&other_turn), other_context);
    assert_eq!(refused(&other_run), other_context);

    let other_profile = invalid("driver request profile does not match loop host run context");
    let mut other_settings = request.clone();
    other_settings.resolved_run_profile.settings = "{}".into();
    assert_eq!(refused(&other_settings), other_profile);
    let mut other_model = request.clone();
    other_model.resolved_run_profile.model_profile_id = "batch_model".into();
    assert_eq!(refused(&other_model), other_profile);
    let mut other_version = request.clone();
    other_version.resolved_run_profile.loop_driver.version = 2;
    assert_eq!(refused(&other_version), other_profile);

    let mut newer = context.clone();
    newer.resolved_run_profile.loop_driver.version = 2;
    assert_eq!(
        validate_run_request(&driver_request(&newer), &newer, &descriptor),
        Err(invalid(
            "driver request profile is not assigned to the text-only model reply driver"
        ))
    );
}

#[test]
fn prompt_failure_ends_the_run_before_the_model() {
    let mut fixture = ThreadFixture::new_with_user_content("hello").reply("hi");
    fixture.prompt_failure = Some(AgentLoopHostErrorKind::ScopeMismatch);
    let request = driver_request(&fixture.run_context);
    assert_eq!(
        fixture.run(&TextOnlyModelReplyDriver::default(), request),
        Err(AgentLoopDriverError::InvalidRequest {
            reason: "prompt: scope_mismatch".into()
        })
    );
    assert!(fixture.gateway_requests.is_empty());
}

#[test]
fn transcript_failure_is_reported_by_kind() {
    let mut fixture = ThreadFixture::new_with_user_content("hello").reply("hi");
    fixture.transcript_failure = Some(AgentLoopHostErrorKind::TranscriptWriteFailed);
    let request = driver_request(&fixture.run_context);
    assert_eq!(
        fixture.run(&TextOnlyModelReplyDriver::default(), request.clone()),
        Err(AgentLoopDriverError::Failed {
            reason_kind: "transcript_write_failed".into()
        })
    );
    fixture.transcript_failure = Some(AgentLoopHostErrorKind::Cancelled);
    assert_eq!(
        fixture.run(&TextOnlyModelReplyDriver::default(), request),
        Err(AgentLoopDriverError::Unavailable {
            reason: "transcript: cancelled".into()
        })
    );
    assert!(fixture.exit_candidates.is_empty());
}

#[test]
fn unusable_exit_id_is_a_driver_bug() {
    let mut fixture = ThreadFixture::new_with_user_content("hello").reply("hi");
    fixture.exit_id_refused = true;
    let request = driver_request(&fixture.run_context);
    assert_eq!(
        fixture.run(&TextOnlyModelReplyDriver::default(), request),
        Err(AgentLoopDriverError::Failed {
            reason_kind: "driver_bug".into()
        })
    );
    assert_eq!(fixture.exit_candidates, vec!["exit:run-1-final-reply"]);
    assert_eq!(fixture.assistant_messages, vec!["hi"]);
}

#[test]
fn exit_candidates_differ_between_runs() {
    let run = |text: &str| TurnRunId { text: text.into() };
    assert_eq!(
        final_reply_exit_candidate(&run("r")),
        "exit:r-final-reply"
    );
    assert_ne!(
        final_reply_exit_candidate(&run("r")),
        final_reply_exit_candidate(&run("r-final-reply"))
    );
}

#[test]
fn completion_needs_an_exit_id() {
    let reply_ref = LoopMessageRef {
        text: "msg:1".into(),
    };
    let completed = completed_final_reply(
        Ok(LoopExitId {
            text: "exit:1".into(),
        }),
        reply_ref.clone(),
    )
    .unwrap();
    assert_eq!(completed.reply_message_refs, vec![reply_ref.clone()]);
    assert_eq!(completed.exit_id.text, "exit:1");
    assert_eq!(
        completed_final_reply(Err("too odd".into()), reply_ref),
        Err(AgentLoopDriverError::Failed {
            reason_kind: "driver_bug".into()
        })
    );
}

#[test]
fn host_errors_are_reported_by_kind_and_stage() {
    let report = |kind| map_host_error("model", &host_failure(kind, "RAW"));
    let failed = |name: &str| AgentLoopDriverError::Failed {
        reason_kind: name.into(),
    };
    assert_eq!(
        report(AgentLoopHostErrorKind::InvalidInvocation),
        AgentLoopDriverError::InvalidRequest {
            reason: "model: invalid_invocation".into()
        }
    );
    assert_eq!(
        report(AgentLoopHostErrorKind::ScopeMismatch),
        AgentLoopDriverError::InvalidRequest {
            reason: "model: scope_mismatch".into()
        }
    );
    assert_eq!(
        report(AgentLoopHostErrorKind::Unavailable),
        AgentLoopDriverError::Unavailable {
            reason: "model: unavailable".into()
        }
    );
    assert_eq!(
        report(AgentLoopHostErrorKind::Cancelled),
        AgentLoopDriverError::Unavailable {
            reason: "model: cancelled".into()
        }
    );
    assert_eq!(
        report(AgentLoopHostErrorKind::TranscriptWriteFailed),
        failed("transcript_write_failed")
    );
    assert_eq!(
        report(AgentLoopHostErrorKind::BudgetExceeded),
        failed("model_error")
    );
    assert_eq!(
        report(AgentLoopHostErrorKind::PolicyDenied),
        failed("model_error")
    );
    assert_eq!(
        report(AgentLoopHostErrorKind::CheckpointRejected),
        failed("checkpoint_rejected")
    );
    assert_eq!(
        report(AgentLoopHostErrorKind::Unauthorized),
        failed("driver_bug")
    );
    assert_eq!(
        report(AgentLoopHostErrorKind::StaleSurface),
        failed("driver_bug")
    );
    assert_eq!(
        report(AgentLoopHostErrorKind::Internal),
        failed("driver_bug")
    );
}

#[test]
fn failure_kinds_have_names() {
    let names = [
        (LoopFailureKind::ModelError, "model_error"),
        (LoopFailureKind::ContextBuildFailed, "context_build_failed"),
        (
            LoopFailureKind::CapabilityProtocolError,
            "capability_protocol_error",
        ),
        (LoopFailureKind::IterationLimit, "iteration_limit"),
        (LoopFailureKind::InvalidModelOutput, "invalid_model_output"),
        (LoopFailureKind::CheckpointRejected, "checkpoint_rejected"),
        (
            LoopFailureKind::TranscriptWriteFailed,
            "transcript_write_failed",
        ),
        (LoopFailureKind::DriverBug, "driver_bug"),
        (
            LoopFailureKind::InterruptedUnexpectedly,
            "interrupted_unexpectedly",
        ),
    ];
    for (kind, name) in names {
        assert_eq!(loop_failure_kind_name(kind), name);
    }
}

#[test]
fn resume_is_refused() {
    assert_eq!(
        TextOnlyModelReplyDriver::default().resume("checkpoint-1"),
        Err(AgentLoopDriverError::InvalidRequest {
            reason: "text-only model reply driver does not support resume".into()
        })
    );
}

#[test]
fn unasked_answer_leaves_the_loop_unchanged() {
    let fixture = ThreadFixture::new_with_user_content("hello");
    let driver = TextOnlyModelReplyDriver::default();
    let begin = || driver.begin_run(driver_request(&fixture.run_context), &fixture.run_context);
    assert_eq!(
        begin().step(TextLoopAnswer::ExitIdChecked(Err("not asked".into()))),
        begin()
    );
}

#[test]
fn host_messages_do_not_change_the_report() {
    for kind in [
        AgentLoopHostErrorKind::Unavailable,
        AgentLoopHostErrorKind::Internal,
    ] {
        assert_eq!(
            map_host_error("prompt", &host_failure(kind, "one thing")),
            map_host_error("prompt", &host_failure(kind, "another thing"))
        );
    }
}

#[test]
fn contents_do_not_change_the_result() {
    let result_of = |user_content: &str, reply: &str| {
        let mut fixture = ThreadFixture::new_with_user_content(user_content).reply(reply);
        let request = driver_request(&fixture.run_context);
        fixture.run(&TextOnlyModelReplyDriver::default(), request)
    };
    assert_eq!(result_of("question", "answer"), result_of("hello", ""));
}

#[test]
fn failures_of_one_kind_are_reported_alike_at_every_stage() {
    let kinds = [
        (
            AgentLoopHostErrorKind::InvalidInvocation,
            "invalid_invocation",
        ),
        (AgentLoopHostErrorKind::ScopeMismatch, "scope_mismatch"),
        (AgentLoopHostErrorKind::Unavailable, "unavailable"),
        (AgentLoopHostErrorKind::Cancelled, "cancelled"),
        (
            AgentLoopHostErrorKind::TranscriptWriteFailed,
            "transcript_write_failed",
        ),
        (AgentLoopHostErrorKind::BudgetExceeded, "budget_exceeded"),
        (AgentLoopHostErrorKind::PolicyDenied, "policy_denied"),
        (
            AgentLoopHostErrorKind::CheckpointRejected,
            "checkpoint_rejected",
        ),
        (AgentLoopHostErrorKind::Unauthorized, "unauthorized"),
        (AgentLoopHostErrorKind::StaleSurface, "stale_surface"),
        (AgentLoopHostErrorKind::Internal, "internal"),
    ];
    for (kind, name) in kinds {
        let first = host_failure(kind, "RAW_PROVIDER_ERROR");
        let second = host_failure(kind, "sk-provider-secret");
        assert_eq!(first.kind_name, name);
        assert_eq!(first.error.message, "RAW_PROVIDER_ERROR");
        for stage in ["prompt", "model", "transcript"] {
            assert_eq!(
                map_host_error(stage, &first),
                map_host_error(stage, &second)
            );
        }
    }
}
