//! Text-only loop driver.
//!
//! The driver is deliberately narrow: it asks the host to build a text prompt
//! bundle, streams one host-managed model response, accepts only a final
//! assistant reply, and finalizes that reply through the transcript. Capability
//! calls are rejected.
use vstd::prelude::*;
use vstd::string::*;

use crate::run_profile::{
    AgentLoopDriverDescriptor, AgentLoopDriverDescriptorView, AgentLoopDriverError,
    AgentLoopDriverErrorView, AgentLoopDriverRunRequest, AgentLoopHostErrorKind, AssistantReply,
    FinalizeAssistantMessage, HostErrorKindNames, HostFailure, LoopCompleted, LoopCompletedView,
    LoopCompletionKind, LoopExit, LoopExitId, LoopExitView, LoopFailureKind, LoopMessageRef,
    LoopModelRequest, LoopModelResponse, LoopPromptBundle, LoopPromptBundleRequest,
    LoopRunContext, ParentLoopOutput, PromptMode,
};
use crate::turns::TurnRunId;

verus! {

const TEXT_ONLY_DRIVER_ID: &'static str = "reborn:text-only-model-reply";

const TEXT_ONLY_DRIVER_VERSION: u64 = 1;

const DEFAULT_CONTEXT_LIMIT: usize = 16;

#[derive(Debug, Clone, Copy, PartialEq, Eq)]
pub struct TextOnlyModelReplyDriverConfig {
    /// How many messages a prompt may hold.
    pub context_limit: usize,
}

impl Default for TextOnlyModelReplyDriverConfig {
    fn default() -> (config: Self)
        ensures
            config.context_limit == 16,
    {
        TextOnlyModelReplyDriverConfig { context_limit: DEFAULT_CONTEXT_LIMIT }
    }
}

#[derive(Debug, Clone)]
pub struct TextOnlyModelReplyDriver {
    config: TextOnlyModelReplyDriverConfig,
}

/// The descriptor of the text-only driver.
pub open spec fn text_only_descriptor() -> AgentLoopDriverDescriptorView {
    AgentLoopDriverDescriptorView { driver_id: "reborn:text-only-model-reply"@, version: 1 }
}

/// The name of a failure kind.
pub open spec fn failure_name(kind: LoopFailureKind) -> Seq<char> {
    match kind {
        LoopFailureKind::ModelError => "model_error"@,
        LoopFailureKind::ContextBuildFailed => "context_build_failed"@,
        LoopFailureKind::CapabilityProtocolError => "capability_protocol_error"@,
        LoopFailureKind::IterationLimit => "iteration_limit"@,
        LoopFailureKind::InvalidModelOutput => "invalid_model_output"@,
        LoopFailureKind::CheckpointRejected => "checkpoint_rejected"@,
        LoopFailureKind::TranscriptWriteFailed => "transcript_write_failed"@,
        LoopFailureKind::DriverBug => "driver_bug"@,
        LoopFailureKind::InterruptedUnexpectedly => "interrupted_unexpectedly"@,
    }
}

/// The name under which a failure kind is reported.
pub fn loop_failure_kind_name(kind: LoopFailureKind) -> (name: &'static str)
    ensures
        name@ == failure_name(kind),
{
    match kind {
        LoopFailureKind::ModelError => "model_error",
        LoopFailureKind::ContextBuildFailed => "context_build_failed",
        LoopFailureKind::CapabilityProtocolError => "capability_protocol_error",
        LoopFailureKind::IterationLimit => "iteration_limit",
        LoopFailureKind::InvalidModelOutput => "invalid_model_output",
        LoopFailureKind::CheckpointRejected => "checkpoint_rejected",
        LoopFailureKind::TranscriptWriteFailed => "transcript_write_failed",
        LoopFailureKind::DriverBug => "driver_bug",
        LoopFailureKind::InterruptedUnexpectedly => "interrupted_unexpectedly",
    }
}

/// A run that failed in the named way.
pub open spec fn failure(kind: LoopFailureKind) -> AgentLoopDriverErrorView {
    AgentLoopDriverErrorView::Failed { reason_kind: failure_name(kind) }
}

fn failed(kind: LoopFailureKind) -> (error: AgentLoopDriverError)
    ensures
        error@ == failure(kind),
{
    AgentLoopDriverError::Failed { reason_kind: loop_failure_kind_name(kind).to_string() }
}

/// What a host failure at some stage of a run is reported as. The host's message
/// is no part of it.
pub open spec fn host_failure_error(
    stage: Seq<char>,
    failed: HostFailure,
) -> AgentLoopDriverErrorView {
    let reason = stage + ": "@ + failed.kind_name@;
    match failed.error.kind {
        AgentLoopHostErrorKind::InvalidInvocation | AgentLoopHostErrorKind::ScopeMismatch => {
            AgentLoopDriverErrorView::InvalidRequest { reason }
        },
        AgentLoopHostErrorKind::Unavailable | AgentLoopHostErrorKind::Cancelled => {
            AgentLoopDriverErrorView::Unavailable { reason }
        },
        AgentLoopHostErrorKind::TranscriptWriteFailed => {
            failure(LoopFailureKind::TranscriptWriteFailed)
        },
        AgentLoopHostErrorKind::BudgetExceeded | AgentLoopHostErrorKind::PolicyDenied => {
            failure(LoopFailureKind::ModelError)
        },
        AgentLoopHostErrorKind::CheckpointRejected => failure(LoopFailureKind::CheckpointRejected),
        AgentLoopHostErrorKind::Unauthorized
        | AgentLoopHostErrorKind::StaleSurface
        | AgentLoopHostErrorKind::Internal => failure(LoopFailureKind::DriverBug),
    }
}

/// Reports a host failure at some stage of a run.
pub fn map_host_error(stage: &str, failure: &HostFailure) -> (error: AgentLoopDriverError)
    ensures
        error@ == host_failure_error(stage@, *failure),
{
    let reason = stage.to_string().concat(": ").concat(failure.kind_name.as_str());
    match failure.error.kind {
        AgentLoopHostErrorKind::InvalidInvocation | AgentLoopHostErrorKind::ScopeMismatch => {
            AgentLoopDriverError::InvalidRequest { reason }
        },
        AgentLoopHostErrorKind::Unavailable | AgentLoopHostErrorKind::Cancelled => {
            AgentLoopDriverError::Unavailable { reason }
        },
        AgentLoopHostErrorKind::TranscriptWriteFailed => {
            failed(LoopFailureKind::TranscriptWriteFailed)
        },
        AgentLoopHostErrorKind::BudgetExceeded | AgentLoopHostErrorKind::PolicyDenied => {
            failed(LoopFailureKind::ModelError)
        },
        AgentLoopHostErrorKind::CheckpointRejected => failed(LoopFailureKind::CheckpointRejected),
        AgentLoopHostErrorKind::Unauthorized
        | AgentLoopHostErrorKind::StaleSurface
        | AgentLoopHostErrorKind::Internal => failed(LoopFailureKind::DriverBug),
    }
}

/// Why a run request is refused on a host, where it is: it is for another turn or
/// run, it carries another profile, or its profile names another driver.
pub open spec fn request_refusal(
    request: AgentLoopDriverRunRequest,
    context: LoopRunContext,
    descriptor: AgentLoopDriverDescriptorView,
) -> Option<Seq<char>> {
    if request.turn_id.text@ != context.turn_id.text@ || request.run_id.text@
        != context.run_id.text@ {
        Some("driver request does not match loop host run context"@)
    } else if request.resolved_run_profile@ != context.resolved_run_profile@ {
        Some("driver request profile does not match loop host run context"@)
    } else if request.resolved_run_profile@.loop_driver != descriptor {
        Some("driver request profile is not assigned to the text-only model reply driver"@)
    } else {
        None
    }
}

fn invalid_request(reason: &str) -> (error: AgentLoopDriverError)
    ensures
        error@ == (AgentLoopDriverErrorView::InvalidRequest { reason: reason@ }),
{
    AgentLoopDriverError::InvalidRequest { reason: reason.to_string() }
}

/// Holds a run request against the run that the host was set up for.
pub fn validate_run_request(
    request: &AgentLoopDriverRunRequest,
    context: &LoopRunContext,
    descriptor: &AgentLoopDriverDescriptor,
) -> (result: Result<(), AgentLoopDriverError>)
    ensures
        match request_refusal(*request, *context, descriptor@) {
            None => result is Ok,
            Some(reason) => result matches Err(error) && error@ == (
            AgentLoopDriverErrorView::InvalidRequest { reason }),
        },
{
    if request.turn_id.text != context.turn_id.text || request.run_id.text != context.run_id.text {
        return Err(invalid_request("driver request does not match loop host run context"));
    }
    if !request.resolved_run_profile.same_as(&context.resolved_run_profile) {
        return Err(invalid_request("driver request profile does not match loop host run context"));
    }
    if !request.resolved_run_profile.loop_driver.same_as(descriptor) {
        return Err(
            invalid_request(
                "driver request profile is not assigned to the text-only model reply driver",
            ),
        );
    }
    Ok(())
}

/// The text that identifies the exit of a run that ended in a final reply.
pub open spec fn exit_text(run_id: TurnRunId) -> Seq<char> {
    "exit:"@ + run_id.text@ + "-final-reply"@
}

/// The exit of a run that ended in one final reply and nothing else.
pub open spec fn final_reply_exit(
    exit_id: LoopExitId,
    reply_ref: LoopMessageRef,
) -> LoopCompletedView {
    LoopCompletedView {
        completion_kind: LoopCompletionKind::FinalReply,
        reply_message_refs: seq![reply_ref],
        result_refs: seq![],
        final_checkpoint_id: None,
        usage_summary_ref: None,
        exit_id,
    }
}

/// The candidate for the exit id of a run that ended in a final reply.
pub fn final_reply_exit_candidate(run_id: &TurnRunId) -> (candidate: String)
    ensures
        candidate@ == exit_text(*run_id),
{
    "exit:".to_string().concat(run_id.text.as_str()).concat("-final-reply")
}

/// Completes a run with its reply, where its exit id passed the check. An exit id
/// that did not pass is the driver's own fault.
pub fn completed_final_reply(
    exit_id: Result<LoopExitId, String>,
    reply_ref: LoopMessageRef,
) -> (result: Result<LoopCompleted, AgentLoopDriverError>)
    ensures
        match exit_id {
            Ok(id) => result matches Ok(completed) && completed@ == final_reply_exit(id, reply_ref),
            Err(_) => result matches Err(error) && error@ == failure(LoopFailureKind::DriverBug),
        },
{
    match exit_id {
        Ok(exit_id) => {
            let completed = LoopCompleted {
                completion_kind: LoopCompletionKind::FinalReply,
                reply_message_refs: vec![reply_ref],
                result_refs: Vec::new(),
                final_checkpoint_id: None,
                usage_summary_ref: None,
                exit_id,
            };
            assert(completed@.reply_message_refs =~= seq![reply_ref]);
            assert(completed@.result_refs =~= seq![]);
            Ok(completed)
        },
        Err(_) => Err(failed(LoopFailureKind::DriverBug)),
    }
}

/// The message limit that a prompt is requested with: the low 32 bits of the
/// context limit.
pub open spec fn prompt_message_limit(context_limit: usize) -> int {
    context_limit as int % 0x1_0000_0000
}

/// The prompt that a driver with this context limit asks for.
pub open spec fn prompt_request(context_limit: usize) -> LoopPromptBundleRequest {
    LoopPromptBundleRequest {
        mode: PromptMode::TextOnly,
        context_cursor: None,
        surface_version: None,
        checkpoint_state_ref: None,
        max_messages: Some(prompt_message_limit(context_limit) as u32),
    }
}

/// Where a run stands. Every variant but `Done` is a question to the host: its
/// `request` or `candidate` is what is asked, and its other fields are what
/// earlier answers brought.
#[allow(inconsistent_fields)]
#[derive(Debug, PartialEq, Eq)]
pub enum TextLoopRun {
    /// What is the prompt?
    BuildPromptBundle { run_id: TurnRunId, request: LoopPromptBundleRequest },
    /// What does the model respond to the prompt?
    StreamModel { run_id: TurnRunId, request: LoopModelRequest },
    /// Under which reference is the reply in the transcript?
    FinalizeReply { run_id: TurnRunId, request: FinalizeAssistantMessage },
    /// Is the candidate a loop exit id?
    CheckExitId { reply_ref: LoopMessageRef, candidate: String },
    /// The run is over.
    Done { result: Result<LoopExit, AgentLoopDriverError> },
}

/// A [`TextLoopRun`] with its candidate, exit and error read as sequences.
#[allow(inconsistent_fields)]
pub enum TextLoopRunView {
    BuildPromptBundle { run_id: TurnRunId, request: LoopPromptBundleRequest },
    StreamModel { run_id: TurnRunId, request: LoopModelRequest },
    FinalizeReply { run_id: TurnRunId, request: FinalizeAssistantMessage },
    CheckExitId { reply_ref: LoopMessageRef, candidate: Seq<char> },
    Done { result: Result<LoopExitView, AgentLoopDriverErrorView> },
}

impl View for TextLoopRun {
    type V = TextLoopRunView;

    open spec fn view(&self) -> TextLoopRunView {
        match *self {
            TextLoopRun::BuildPromptBundle { run_id, request } => {
                TextLoopRunView::BuildPromptBundle { run_id, request }
            },
            TextLoopRun::StreamModel { run_id, request } => {
                TextLoopRunView::StreamModel { run_id, request }
            },
            TextLoopRun::FinalizeReply { run_id, request } => {
                TextLoopRunView::FinalizeReply { run_id, request }
            },
            TextLoopRun::CheckExitId { reply_ref, candidate } => {
                TextLoopRunView::CheckExitId { reply_ref, candidate: candidate@ }
            },
            TextLoopRun::Done { result } => TextLoopRunView::Done {
                result: match result {
                    Ok(exit) => Ok(exit@),
                    Err(error) => Err(error@),
                },
            },
        }
    }
}

/// The answer to a question of a [`TextLoopRun`].
#[derive(Debug, PartialEq, Eq)]
pub enum TextLoopAnswer {
    PromptBundleBuilt(Result<LoopPromptBundle, HostFailure>),
    ModelStreamed(Result<LoopModelResponse, HostFailure>),
    ReplyFinalized(Result<LoopMessageRef, HostFailure>),
    ExitIdChecked(Result<LoopExitId, String>),
}

/// The end of a run that an error stops.
pub open spec fn given_up(error: AgentLoopDriverErrorView) -> TextLoopRunView {
    TextLoopRunView::Done { result: Err(error) }
}

/// The run of a request, before the host was asked anything: a refused request
/// ends at once.
pub open spec fn text_loop_begun(
    config: TextOnlyModelReplyDriverConfig,
    request: AgentLoopDriverRunRequest,
    context: LoopRunContext,
) -> TextLoopRunView {
    match request_refusal(request, context, text_only_descriptor()) {
        Some(reason) => given_up(AgentLoopDriverErrorView::InvalidRequest { reason }),
        None => TextLoopRunView::BuildPromptBundle {
            run_id: request.run_id,
            request: prompt_request(config.context_limit),
        },
    }
}

impl TextLoopRunView {
    /// The answer is one to the pending question.
    pub open spec fn awaits(self, answer: TextLoopAnswer) -> bool {
        ||| self is BuildPromptBundle && answer is PromptBundleBuilt
        ||| self is StreamModel && answer is ModelStreamed
        ||| self is FinalizeReply && answer is ReplyFinalized
        ||| self is CheckExitId && answer is ExitIdChecked
    }

    /// The run that an answer leads to. An answer to a question that is not
    /// pending changes nothing.
    pub open spec fn next(self, answer: TextLoopAnswer) -> TextLoopRunView {
        match (self, answer) {
            (
                TextLoopRunView::BuildPromptBundle { run_id, .. },
                TextLoopAnswer::PromptBundleBuilt(answered),
            ) => match answered {
                Err(failed) => given_up(host_failure_error("prompt"@, failed)),
                Ok(bundle) => TextLoopRunView::StreamModel {
                    run_id,
                    request: LoopModelRequest {
                        messages: bundle.messages,
                        surface_version: bundle.surface_version,
                        model_preference: None,
                    },
                },
            },
            (
                TextLoopRunView::StreamModel { run_id, .. },
                TextLoopAnswer::ModelStreamed(answered),
            ) => match answered {
                Err(failed) => given_up(host_failure_error("model"@, failed)),
                Ok(response) => match response.output {
                    ParentLoopOutput::CapabilityCalls(_) => given_up(
                        failure(LoopFailureKind::InvalidModelOutput),
                    ),
                    ParentLoopOutput::AssistantReply(reply) => TextLoopRunView::FinalizeReply {
                        run_id,
                        request: FinalizeAssistantMessage { reply },
                    },
                },
            },
            (
                TextLoopRunView::FinalizeReply { run_id, .. },
                TextLoopAnswer::ReplyFinalized(answered),
            ) => match answered {
                Err(failed) => given_up(host_failure_error("transcript"@, failed)),
                Ok(reply_ref) => TextLoopRunView::CheckExitId {
                    reply_ref,
                    candidate: exit_text(run_id),
                },
            },
            (
                TextLoopRunView::CheckExitId { reply_ref, .. },
                TextLoopAnswer::ExitIdChecked(answered),
            ) => match answered {
                Err(_) => given_up(failure(LoopFailureKind::DriverBug)),
                Ok(exit_id) => TextLoopRunView::Done {
                    result: Ok(LoopExitView::Completed(final_reply_exit(exit_id, reply_ref))),
                },
            },
            (unchanged, _) => unchanged,
        }
    }
}

impl TextOnlyModelReplyDriver {
    /// The configuration that this driver was made with.
    pub closed spec fn spec_config(self) -> TextOnlyModelReplyDriverConfig {
        self.config
    }

    pub fn new(config: TextOnlyModelReplyDriverConfig) -> (driver: Self)
        ensures
            driver.spec_config() == config,
    {
        TextOnlyModelReplyDriver { config }
    }

    /// Names this driver. Run profiles are assigned to it by this descriptor.
    pub fn descriptor(&self) -> (descriptor: AgentLoopDriverDescriptor)
        ensures
            descriptor@ == text_only_descriptor(),
    {
        AgentLoopDriverDescriptor {
            driver_id: TEXT_ONLY_DRIVER_ID.to_string(),
            version: TEXT_ONLY_DRIVER_VERSION,
        }
    }

    /// Begins the run of a request on a host that was set up for `context`.
    pub fn begin_run(
        &self,
        request: AgentLoopDriverRunRequest,
        context: &LoopRunContext,
    ) -> (run: TextLoopRun)
        ensures
            run@ == text_loop_begun(self.spec_config(), request, *context),
    {
        match validate_run_request(&request, context, &self.descriptor()) {
            Err(error) => TextLoopRun::Done { result: Err(error) },
            Ok(()) => {
                let limit: usize = self.config.context_limit;
                let max_messages: u32 = limit as u32;
                proof {
                    let wide: u64 = limit as u64;
                    assert(wide as u32 == wide % 0x1_0000_0000) by (bit_vector);
                }
                TextLoopRun::BuildPromptBundle {
                    run_id: request.run_id,
                    request: LoopPromptBundleRequest {
                        mode: PromptMode::TextOnly,
                        context_cursor: None,
                        surface_version: None,
                        checkpoint_state_ref: None,
                        max_messages: Some(max_messages),
                    },
                }
            },
        }
    }

    /// Refuses to resume a run, whatever the request.
    pub fn resume<R>(&self, _request: R) -> (result: Result<LoopExit, AgentLoopDriverError>)
        ensures
            result matches Err(error) && error@ == (AgentLoopDriverErrorView::InvalidRequest {
                reason: "text-only model reply driver does not support resume"@,
            }),
    {
        Err(invalid_request("text-only model reply driver does not support resume"))
    }
}

impl Default for TextOnlyModelReplyDriver {
    fn default() -> (driver: Self)
        ensures
            driver.spec_config().context_limit == 16,
    {
        TextOnlyModelReplyDriver { config: TextOnlyModelReplyDriverConfig::default() }
    }
}

impl TextLoopRun {
    /// Takes the answer to the pending question.
    pub fn step(self, answer: TextLoopAnswer) -> (run: Self)
        ensures
            run@ == self@.next(answer),
    {
        match (self, answer) {
            (
                TextLoopRun::BuildPromptBundle { run_id, .. },
                TextLoopAnswer::PromptBundleBuilt(answered),
            ) => match answered {
                Err(failure) => TextLoopRun::Done {
                    result: Err(map_host_error("prompt", &failure)),
                },
                Ok(bundle) => TextLoopRun::StreamModel {
                    run_id,
                    request: LoopModelRequest {
                        messages: bundle.messages,
                        surface_version: bundle.surface_version,
                        model_preference: None,
                    },
                },
            },
            (
                TextLoopRun::StreamModel { run_id, .. },
                TextLoopAnswer::ModelStreamed(answered),
            ) => match answered {
                Err(failure) => TextLoopRun::Done {
                    result: Err(map_host_error("model", &failure)),
                },
                Ok(response) => match response.output {
                    ParentLoopOutput::CapabilityCalls(_) => TextLoopRun::Done {
                        result: Err(failed(LoopFailureKind::InvalidModelOutput)),
                    },
                    ParentLoopOutput::AssistantReply(reply) => TextLoopRun::FinalizeReply {
                        run_id,
                        request: FinalizeAssistantMessage { reply },
                    },
                },
            },
            (
                TextLoopRun::FinalizeReply { run_id, .. },
                TextLoopAnswer::ReplyFinalized(answered),
            ) => match answered {
                Err(failure) => TextLoopRun::Done {
                    result: Err(map_host_error("transcript", &failure)),
                },
                Ok(reply_ref) => TextLoopRun::CheckExitId {
                    reply_ref,
                    candidate: final_reply_exit_candidate(&run_id),
                },
            },
            (
                TextLoopRun::CheckExitId { reply_ref, .. },
                TextLoopAnswer::ExitIdChecked(answered),
            ) => match completed_final_reply(answered, reply_ref) {
                Ok(completed) => TextLoopRun::Done { result: Ok(LoopExit::Completed(completed)) },
                Err(error) => TextLoopRun::Done { result: Err(error) },
            },
            (unchanged, _) => unchanged,
        }
    }
}

/// Everything that a host answers in the course of one run: one answer to each
/// question that the run may ask.
pub struct TextLoopAnswers {
    pub prompt: Result<LoopPromptBundle, HostFailure>,
    pub model: Result<LoopModelResponse, HostFailure>,
    pub transcript: Result<LoopMessageRef, HostFailure>,
    pub exit_id: Result<LoopExitId, String>,
}

/// A host call went well, or failed under the name that the kind of its error has
/// among these names.
pub open spec fn named_from<A>(names: HostErrorKindNames, result: Result<A, HostFailure>) -> bool {
    result matches Err(failure) ==> names.gave_name_to(failure)
}

/// Both host calls went well, or both failed with the same kind of error.
pub open spec fn same_kind<A>(
    first: Result<A, HostFailure>,
    second: Result<A, HostFailure>,
) -> bool {
    match (first, second) {
        (Ok(_), Ok(_)) => true,
        (Err(f), Err(g)) => f.error.kind == g.error.kind,
        _ => false,
    }
}

/// Both host calls went well, or both failed with the same kind of error under
/// the same name.
pub open spec fn failed_alike<A>(
    first: Result<A, HostFailure>,
    second: Result<A, HostFailure>,
) -> bool {
    match (first, second) {
        (Ok(_), Ok(_)) => true,
        (Err(f), Err(g)) => f.error.kind == g.error.kind && f.kind_name@ == g.kind_name@,
        _ => false,
    }
}

impl TextLoopAnswers {
    /// The answer to the question that a run is waiting on.
    pub open spec fn to_question(self, run: TextLoopRunView) -> TextLoopAnswer {
        match run {
            TextLoopRunView::BuildPromptBundle { .. } => {
                TextLoopAnswer::PromptBundleBuilt(self.prompt)
            },
            TextLoopRunView::StreamModel { .. } => TextLoopAnswer::ModelStreamed(self.model),
            TextLoopRunView::FinalizeReply { .. } => {
                TextLoopAnswer::ReplyFinalized(self.transcript)
            },
            TextLoopRunView::CheckExitId { .. } | TextLoopRunView::Done { .. } => {
                TextLoopAnswer::ExitIdChecked(self.exit_id)
            },
        }
    }

    /// The model responded with a final reply.
    pub open spec fn bring_a_reply(self) -> bool {
        self.model matches Ok(response) && response.output is AssistantReply
    }

    /// What a run of an admitted request ends with: the first failure, in the
    /// order in which the questions are asked, or the exit with its final reply.
    pub open spec fn loop_result(self) -> Result<LoopExitView, AgentLoopDriverErrorView> {
        if self.prompt is Err {
            Err(host_failure_error("prompt"@, self.prompt->Err_0))
        } else if self.model is Err {
            Err(host_failure_error("model"@, self.model->Err_0))
        } else if !self.bring_a_reply() {
            Err(failure(LoopFailureKind::InvalidModelOutput))
        } else if self.transcript is Err {
            Err(host_failure_error("transcript"@, self.transcript->Err_0))
        } else if self.exit_id is Err {
            Err(failure(LoopFailureKind::DriverBug))
        } else {
            Ok(
                LoopExitView::Completed(
                    final_reply_exit(self.exit_id->Ok_0, self.transcript->Ok_0),
                ),
            )
        }
    }

    /// The host names its failures by these names.
    pub open spec fn are_named_from(self, names: HostErrorKindNames) -> bool {
        &&& named_from(names, self.prompt)
        &&& named_from(names, self.model)
        &&& named_from(names, self.transcript)
    }

    /// Two hosts that bring the same sort of response, and the same references
    /// where they bring any.
    pub open spec fn succeed_alike(self, other: Self) -> bool {
        &&& self.bring_a_reply() == other.bring_a_reply()
        &&& self.transcript is Ok && other.transcript is Ok ==> self.transcript->Ok_0
            == other.transcript->Ok_0
        &&& self.exit_id is Ok <==> other.exit_id is Ok
        &&& self.exit_id is Ok ==> self.exit_id->Ok_0 == other.exit_id->Ok_0
    }

    /// Two hosts that fail with the same kinds of errors, if at all, and otherwise
    /// differ at most in the contents of the prompt, the reply and the capability
    /// calls.
    pub open spec fn same_kinds_throughout(self, other: Self) -> bool {
        &&& same_kind(self.prompt, other.prompt)
        &&& same_kind(self.model, other.model)
        &&& same_kind(self.transcript, other.transcript)
        &&& self.succeed_alike(other)
    }

    /// Two hosts that differ at most in the contents of the prompt, the reply and
    /// the capability calls, and in the messages of their failures.
    pub open spec fn alike_but_for_contents(self, other: Self) -> bool {
        &&& failed_alike(self.prompt, other.prompt)
        &&& failed_alike(self.model, other.model)
        &&& failed_alike(self.transcript, other.transcript)
        &&& self.succeed_alike(other)
    }
}

/// The run that started as `begun`, after `n` of its questions were answered.
pub open spec fn text_loop_after(
    begun: TextLoopRunView,
    answers: TextLoopAnswers,
    n: nat,
) -> TextLoopRunView
    decreases n,
{
    if n == 0 {
        begun
    } else {
        let before = text_loop_after(begun, answers, (n - 1) as nat);
        before.next(answers.to_question(before))
    }
}

/// A refused request ends at once, with the reason of its refusal: the host is
/// never asked anything.
pub proof fn refused_request_asks_nothing(
    config: TextOnlyModelReplyDriverConfig,
    request: AgentLoopDriverRunRequest,
    context: LoopRunContext,
    answers: TextLoopAnswers,
    n: nat,
)
    requires
        request_refusal(request, context, text_only_descriptor()) is Some,
    ensures
        text_loop_after(text_loop_begun(config, request, context), answers, n) == given_up(
            AgentLoopDriverErrorView::InvalidRequest {
                reason: request_refusal(request, context, text_only_descriptor())->0,
            },
        ),
    decreases n,
{
    if n > 0 {
        refused_request_asks_nothing(config, request, context, answers, (n - 1) as nat);
    }
}

/// A request whose profile is assigned to another driver is always refused.
pub proof fn mismatched_driver_is_refused(
    request: AgentLoopDriverRunRequest,
    context: LoopRunContext,
)
    requires
        request.resolved_run_profile@.loop_driver != text_only_descriptor(),
    ensures
        request_refusal(request, context, text_only_descriptor()) is Some,
{
}

/// A request that repeats the host's own turn, run and profile is admitted
/// exactly where that profile is assigned to this driver.
pub proof fn matching_request_is_admitted(
    request: AgentLoopDriverRunRequest,
    context: LoopRunContext,
)
    requires
        request.turn_id.text@ == context.turn_id.text@,
        request.run_id.text@ == context.run_id.text@,
        request.resolved_run_profile@ == context.resolved_run_profile@,
    ensures
        request_refusal(request, context, text_only_descriptor()) is None
            <==> context.resolved_run_profile@.loop_driver == text_only_descriptor(),
{
}

/// Every admitted run is over after at most four answers, with the result that
/// its answers determine, and stays so.
pub proof fn text_loop_ends(
    config: TextOnlyModelReplyDriverConfig,
    request: AgentLoopDriverRunRequest,
    context: LoopRunContext,
    answers: TextLoopAnswers,
    n: nat,
)
    requires
        request_refusal(request, context, text_only_descriptor()) is None,
        n >= 4,
    ensures
        text_loop_after(text_loop_begun(config, request, context), answers, n) == (
        TextLoopRunView::Done { result: answers.loop_result() }),
    decreases n,
{
    if n == 4 {
        reveal_with_fuel(text_loop_after, 5);
    } else {
        text_loop_ends(config, request, context, answers, (n - 1) as nat);
    }
}

/// An admitted run asks its questions in one order, each at most once, and each
/// only where the one before it went well: the prompt under the driver's message
/// limit; the model, with exactly the prompt that was built and no preferred
/// model; the transcript, with exactly the model's reply; and the exit id of the
/// run. So a run that the model fails, or in which the model calls capabilities,
/// writes nothing to the transcript, and no capability is ever called.
pub proof fn questions_come_in_order(
    config: TextOnlyModelReplyDriverConfig,
    request: AgentLoopDriverRunRequest,
    context: LoopRunContext,
    answers: TextLoopAnswers,
    n: nat,
)
    requires
        request_refusal(request, context, text_only_descriptor()) is None,
    ensures
        ({
            let run = text_loop_after(text_loop_begun(config, request, context), answers, n);
            &&& run is BuildPromptBundle <==> n == 0
            &&& run is StreamModel <==> n == 1 && answers.prompt is Ok
            &&& run is FinalizeReply <==> n == 2 && answers.prompt is Ok && answers.bring_a_reply()
            &&& run is CheckExitId <==> n == 3 && answers.prompt is Ok && answers.bring_a_reply()
                && answers.transcript is Ok
            &&& run is BuildPromptBundle ==> run == (TextLoopRunView::BuildPromptBundle {
                run_id: request.run_id,
                request: prompt_request(config.context_limit),
            })
            &&& run is StreamModel ==> run == (TextLoopRunView::StreamModel {
                run_id: request.run_id,
                request: LoopModelRequest {
                    messages: answers.prompt->Ok_0.messages,
                    surface_version: answers.prompt->Ok_0.surface_version,
                    model_preference: None,
                },
            })
            &&& run is FinalizeReply ==> run == (TextLoopRunView::FinalizeReply {
                run_id: request.run_id,
                request: FinalizeAssistantMessage {
                    reply: answers.model->Ok_0.output->AssistantReply_0,
                },
            })
            &&& run is CheckExitId ==> run == (TextLoopRunView::CheckExitId {
                reply_ref: answers.transcript->Ok_0,
                candidate: exit_text(request.run_id),
            })
        }),
{
    if n < 4 {
        reveal_with_fuel(text_loop_after, 5);
    } else {
        text_loop_ends(config, request, context, answers, n);
    }
}

/// A model response that calls capabilities is invalid output.
pub proof fn capability_calls_are_rejected(answers: TextLoopAnswers)
    requires
        answers.prompt is Ok,
        answers.model matches Ok(response) && response.output is CapabilityCalls,
    ensures
        answers.loop_result() == Err::<LoopExitView, AgentLoopDriverErrorView>(
            failure(LoopFailureKind::InvalidModelOutput),
        ),
{
}

/// A run is completed exactly where the prompt was built, the model replied, the
/// reply was finalized and the exit id passed. The exit then names that one reply
/// and nothing else.
pub proof fn completed_run_names_its_one_reply(answers: TextLoopAnswers)
    ensures
        answers.loop_result() is Ok <==> {
            &&& answers.prompt is Ok
            &&& answers.bring_a_reply()
            &&& answers.transcript is Ok
            &&& answers.exit_id is Ok
        },
        answers.loop_result() matches Ok(exit) ==> {
            let completed = exit->Completed_0;
            &&& completed.completion_kind == LoopCompletionKind::FinalReply
            &&& completed.reply_message_refs == seq![answers.transcript->Ok_0]
            &&& completed.result_refs.len() == 0
            &&& completed.final_checkpoint_id is None
            &&& completed.usage_summary_ref is None
            &&& completed.exit_id == answers.exit_id->Ok_0
        },
{
}

/// What a driver reports of a host failure depends on the stage, on the kind of
/// the error and on the name given to it, never on the error's message.
pub proof fn host_messages_are_never_reported(
    stage: Seq<char>,
    first: HostFailure,
    second: HostFailure,
)
    requires
        first.error.kind == second.error.kind,
        first.kind_name@ == second.kind_name@,
    ensures
        host_failure_error(stage, first) == host_failure_error(stage, second),
{
}

/// Where a host names the kinds of its errors, what a driver reports of a failure
/// depends on the stage and on the kind alone: failures of one kind are reported
/// alike at every stage.
pub proof fn failures_of_one_kind_are_reported_alike(
    names: HostErrorKindNames,
    stage: Seq<char>,
    first: HostFailure,
    second: HostFailure,
)
    requires
        names.gave_name_to(first),
        names.gave_name_to(second),
        first.error.kind == second.error.kind,
    ensures
        host_failure_error(stage, first) == host_failure_error(stage, second),
{
    host_messages_are_never_reported(stage, first, second);
}

/// Where a host names the kinds of its errors, the result of a run reveals of the
/// failures nothing but their kinds, and nothing of the prompt, the reply or the
/// capability calls.
pub proof fn result_reveals_only_kinds(
    names: HostErrorKindNames,
    first: TextLoopAnswers,
    second: TextLoopAnswers,
)
    requires
        first.are_named_from(names),
        second.are_named_from(names),
        first.same_kinds_throughout(second),
    ensures
        first.loop_result() == second.loop_result(),
{
    result_hides_contents(first, second);
}

/// The result of a run reveals nothing of the prompt, of the reply, of the
/// capability calls or of the messages of host failures: hosts that differ in
/// those alone end runs with the same result.
pub proof fn result_hides_contents(first: TextLoopAnswers, second: TextLoopAnswers)
    requires
        first.alike_but_for_contents(second),
    ensures
        first.loop_result() == second.loop_result(),
{
}

/// Exits are identified alike exactly where their runs are the same.
pub proof fn exit_text_identifies_the_run(first: TurnRunId, second: TurnRunId)
    ensures
        exit_text(first) == exit_text(second) <==> first.text@ == second.text@,
{
    let prefix = "exit:"@;
    let suffix = "-final-reply"@;
    if exit_text(first) == exit_text(second) {
        let start = prefix.len() as int;
        assert(exit_text(first).len() == start + first.text@.len() + suffix.len());
        assert(exit_text(second).len() == start + second.text@.len() + suffix.len());
        assert(exit_text(first).subrange(start, start + first.text@.len()) =~= first.text@);
        assert(exit_text(second).subrange(start, start + second.text@.len()) =~= second.text@);
    }
}

/// An answer moves a run on exactly where it is one to the pending question. A
/// run that is over takes no answer any more.
pub proof fn only_awaited_answers_move_a_loop(run: TextLoopRunView, answer: TextLoopAnswer)
    ensures
        run.next(answer) == run <==> !run.awaits(answer),
        run is Done ==> !run.awaits(answer),
{
}

/// A request is admitted exactly on the host that was set up for it: turn, run
/// and every setting of the profile are the host's own, and the profile is
/// assigned to this very version of this very driver.
pub proof fn request_is_admitted_only_on_its_own_host(
    request: AgentLoopDriverRunRequest,
    context: LoopRunContext,
    descriptor: AgentLoopDriverDescriptor,
    result: Result<(), AgentLoopDriverError>,
)
    requires
        call_ensures(validate_run_request, (&request, &context, &descriptor), result),
    ensures
        result is Ok <==> {
            &&& request.turn_id.text@ == context.turn_id.text@
            &&& request.run_id.text@ == context.run_id.text@
            &&& request.resolved_run_profile.model_profile_id@
                == context.resolved_run_profile.model_profile_id@
            &&& request.resolved_run_profile.settings@ == context.resolved_run_profile.settings@
            &&& request.resolved_run_profile.loop_driver.driver_id@
                == context.resolved_run_profile.loop_driver.driver_id@
            &&& request.resolved_run_profile.loop_driver.version
                == context.resolved_run_profile.loop_driver.version
            &&& request.resolved_run_profile.loop_driver.driver_id@ == descriptor.driver_id@
            &&& request.resolved_run_profile.loop_driver.version == descriptor.version
        },
{
}

/// A refused request is told the first thing that is wrong with it: another turn
/// or run, then another profile, then another driver.
pub proof fn refused_request_is_told_the_first_mismatch(
    request: AgentLoopDriverRunRequest,
    context: LoopRunContext,
    descriptor: AgentLoopDriverDescriptor,
    result: Result<(), AgentLoopDriverError>,
)
    requires
        call_ensures(validate_run_request, (&request, &context, &descriptor), result),
    ensures
        result matches Err(error) ==> error is InvalidRequest,
        request.turn_id.text@ != context.turn_id.text@ || request.run_id.text@
            != context.run_id.text@ ==> (result matches Err(
            AgentLoopDriverError::InvalidRequest { reason },
        ) && reason@ == "driver request does not match loop host run context"@),
        request.turn_id.text@ == context.turn_id.text@ && request.run_id.text@
            == context.run_id.text@ && (request.resolved_run_profile.model_profile_id@
            != context.resolved_run_profile.model_profile_id@
            || request.resolved_run_profile.settings@ != context.resolved_run_profile.settings@
            || request.resolved_run_profile.loop_driver.driver_id@
            != context.resolved_run_profile.loop_driver.driver_id@
            || request.resolved_run_profile.loop_driver.version
            != context.resolved_run_profile.loop_driver.version) ==> (result matches Err(
            AgentLoopDriverError::InvalidRequest { reason },
        ) && reason@ == "driver request profile does not match loop host run context"@),
        request.turn_id.text@ == context.turn_id.text@ && request.run_id.text@
            == context.run_id.text@ && request.resolved_run_profile@
            == context.resolved_run_profile@ && (
        request.resolved_run_profile.loop_driver.driver_id@ != descriptor.driver_id@
            || request.resolved_run_profile.loop_driver.version != descriptor.version) ==> (
        result matches Err(AgentLoopDriverError::InvalidRequest { reason }) && reason@
            == "driver request profile is not assigned to the text-only model reply driver"@),
{
}

/// The driver is known by one id and version, whatever its configuration.
pub proof fn driver_goes_by_one_name(
    driver: TextOnlyModelReplyDriver,
    descriptor: AgentLoopDriverDescriptor,
)
    requires
        call_ensures(TextOnlyModelReplyDriver::descriptor, (&driver,), descriptor),
    ensures
        descriptor.driver_id@ == "reborn:text-only-model-reply"@,
        descriptor.version == 1,
{
}

/// A driver begins a run exactly where the request is for the host's own turn,
/// run and profile, and the profile is assigned to this driver. It then asks for a
/// plain text prompt of at most as many messages as the driver was configured
/// with, read as 32 bits. Otherwise it gives the run up at once as an invalid
/// request.
pub proof fn driver_begins_only_its_own_runs(
    config: TextOnlyModelReplyDriverConfig,
    driver: TextOnlyModelReplyDriver,
    request: AgentLoopDriverRunRequest,
    context: LoopRunContext,
    begun: TextLoopRun,
)
    requires
        call_ensures(TextOnlyModelReplyDriver::new, (config,), driver),
        call_ensures(TextOnlyModelReplyDriver::begin_run, (&driver, request, &context), begun),
    ensures
        begun is BuildPromptBundle <==> {
            &&& request.turn_id.text@ == context.turn_id.text@
            &&& request.run_id.text@ == context.run_id.text@
            &&& request.resolved_run_profile.model_profile_id@
                == context.resolved_run_profile.model_profile_id@
            &&& request.resolved_run_profile.settings@ == context.resolved_run_profile.settings@
            &&& request.resolved_run_profile.loop_driver.driver_id@
                == context.resolved_run_profile.loop_driver.driver_id@
            &&& request.resolved_run_profile.loop_driver.version
                == context.resolved_run_profile.loop_driver.version
            &&& context.resolved_run_profile.loop_driver.driver_id@
                == "reborn:text-only-model-reply"@
            &&& context.resolved_run_profile.loop_driver.version == 1
        },
        begun is BuildPromptBundle || begun is Done,
        begun is Done ==> (begun->result matches Err(error) && error is InvalidRequest),
        request.turn_id.text@ != context.turn_id.text@ || request.run_id.text@
            != context.run_id.text@ ==> (begun->result matches Err(
            AgentLoopDriverError::InvalidRequest { reason },
        ) && reason@ == "driver request does not match loop host run context"@),
        begun is BuildPromptBundle ==> {
            &&& begun->BuildPromptBundle_run_id == request.run_id
            &&& begun->BuildPromptBundle_request.mode is TextOnly
            &&& begun->BuildPromptBundle_request.context_cursor is None
            &&& begun->BuildPromptBundle_request.surface_version is None
            &&& begun->BuildPromptBundle_request.checkpoint_state_ref is None
            &&& begun->BuildPromptBundle_request.max_messages matches Some(limit) && limit as int
                == config.context_limit as int % 0x1_0000_0000
        },
{
}

/// No request is ever resumed.
pub proof fn resuming_is_always_refused<R>(
    driver: TextOnlyModelReplyDriver,
    request: R,
    result: Result<LoopExit, AgentLoopDriverError>,
)
    requires
        call_ensures(TextOnlyModelReplyDriver::resume::<R>, (&driver, request), result),
    ensures
        result matches Err(AgentLoopDriverError::InvalidRequest { reason }) && reason@
            == "text-only model reply driver does not support resume"@,
{
}

/// A run that goes well, followed call by call. The model gets exactly the prompt
/// that the host built and no preferred model; the transcript gets exactly the
/// reply of the model; the exit is asked for under the run's own id; and the run
/// is completed with that exit id and that one reply, and nothing else.
pub proof fn reply_goes_from_prompt_to_exit(
    run_id: TurnRunId,
    prompt: LoopPromptBundleRequest,
    bundle: LoopPromptBundle,
    reply: AssistantReply,
    reply_ref: LoopMessageRef,
    exit_id: LoopExitId,
    prompted: TextLoopRun,
    replied: TextLoopRun,
    finalized: TextLoopRun,
    exited: TextLoopRun,
)
    requires
        call_ensures(
            TextLoopRun::step,
            (
                TextLoopRun::BuildPromptBundle { run_id, request: prompt },
                TextLoopAnswer::PromptBundleBuilt(Ok(bundle)),
            ),
            prompted,
        ),
        call_ensures(
            TextLoopRun::step,
            (
                prompted,
                TextLoopAnswer::ModelStreamed(
                    Ok(LoopModelResponse { output: ParentLoopOutput::AssistantReply(reply) }),
                ),
            ),
            replied,
        ),
        call_ensures(
            TextLoopRun::step,
            (replied, TextLoopAnswer::ReplyFinalized(Ok(reply_ref))),
            finalized,
        ),
        call_ensures(
            TextLoopRun::step,
            (finalized, TextLoopAnswer::ExitIdChecked(Ok(exit_id))),
            exited,
        ),
    ensures
        prompted is StreamModel,
        prompted->StreamModel_run_id == run_id,
        prompted->StreamModel_request.messages == bundle.messages,
        prompted->StreamModel_request.surface_version == bundle.surface_version,
        prompted->StreamModel_request.model_preference is None,
        replied is FinalizeReply,
        replied->FinalizeReply_run_id == run_id,
        replied->FinalizeReply_request.reply == reply,
        finalized is CheckExitId,
        finalized->reply_ref == reply_ref,
        finalized->candidate@ == "exit:"@ + run_id.text@ + "-final-reply"@,
        exited is Done,
        exited->result matches Ok(LoopExit::Completed(completed)) && {
            &&& completed.completion_kind is FinalReply
            &&& completed.reply_message_refs@ == seq![reply_ref]
            &&& completed.result_refs@.len() == 0
            &&& completed.final_checkpoint_id is None
            &&& completed.usage_summary_ref is None
            &&& completed.exit_id == exit_id
        },
{
}

/// The exit of a run is asked for under a text made of the run's own id.
pub proof fn exit_candidate_is_made_of_the_run_id(run_id: TurnRunId, candidate: String)
    requires
        call_ensures(final_reply_exit_candidate, (&run_id,), candidate),
    ensures
        candidate@ == "exit:"@ + run_id.text@ + "-final-reply"@,
{
}

/// A run whose exit id passed is completed with that id and its one reply. One
/// that did not pass is the driver's own fault, whatever the refusal says.
pub proof fn completion_needs_a_checked_exit_id(
    exit_id: Result<LoopExitId, String>,
    reply_ref: LoopMessageRef,
    result: Result<LoopCompleted, AgentLoopDriverError>,
)
    requires
        call_ensures(completed_final_reply, (exit_id, reply_ref), result),
    ensures
        exit_id matches Ok(id) ==> (result matches Ok(completed) && {
            &&& completed.completion_kind is FinalReply
            &&& completed.reply_message_refs@ == seq![reply_ref]
            &&& completed.result_refs@.len() == 0
            &&& completed.final_checkpoint_id is None
            &&& completed.usage_summary_ref is None
            &&& completed.exit_id == id
        }),
        exit_id is Err ==> (result matches Err(AgentLoopDriverError::Failed { reason_kind })
            && reason_kind@ == "driver_bug"@),
{
}

/// What a host failure is reported as follows from the kind of its error: a wrong
/// call is an invalid request and an absent or cancelled host is unavailable,
/// both told by stage and name; a rejected write or checkpoint fails as that; an
/// exceeded budget or a denied policy is the model's failure; and the rest is the
/// driver's own fault.
pub proof fn host_failure_is_reported_by_its_kind(
    stage: &str,
    host: HostFailure,
    reported: AgentLoopDriverError,
)
    requires
        call_ensures(map_host_error, (stage, &host), reported),
    ensures
        host.error.kind is InvalidInvocation || host.error.kind is ScopeMismatch ==> (
        reported matches AgentLoopDriverError::InvalidRequest { reason } && reason@ == stage@
            + ": "@ + host.kind_name@),
        host.error.kind is Unavailable || host.error.kind is Cancelled ==> (
        reported matches AgentLoopDriverError::Unavailable { reason } && reason@ == stage@ + ": "@
            + host.kind_name@),
        host.error.kind is TranscriptWriteFailed ==> (
        reported matches AgentLoopDriverError::Failed { reason_kind } && reason_kind@
            == "transcript_write_failed"@),
        host.error.kind is BudgetExceeded || host.error.kind is PolicyDenied ==> (
        reported matches AgentLoopDriverError::Failed { reason_kind } && reason_kind@
            == "model_error"@),
        host.error.kind is CheckpointRejected ==> (
        reported matches AgentLoopDriverError::Failed { reason_kind } && reason_kind@
            == "checkpoint_rejected"@),
        host.error.kind is Unauthorized || host.error.kind is StaleSurface
            || host.error.kind is Internal ==> (
        reported matches AgentLoopDriverError::Failed { reason_kind } && reason_kind@
            == "driver_bug"@),
{
}

/// A failure ends the run that meets it, and is reported under the stage at which
/// it came: a host failure as any failure of its kind, capability calls as
/// invalid output, and a refused exit id as the driver's own fault.
pub proof fn failure_ends_the_run_at_its_stage(
    before: TextLoopRun,
    answer: TextLoopAnswer,
    after: TextLoopRun,
    host: HostFailure,
    stage: &str,
    reported: AgentLoopDriverError,
)
    requires
        call_ensures(TextLoopRun::step, (before, answer), after),
        call_ensures(map_host_error, (stage, &host), reported),
    ensures
        before is BuildPromptBundle && answer == TextLoopAnswer::PromptBundleBuilt(Err(host))
            && stage@ == "prompt"@ ==> after is Done && (after->result matches Err(told) && told@
            == reported@),
        before is StreamModel && answer == TextLoopAnswer::ModelStreamed(Err(host)) && stage@
            == "model"@ ==> after is Done && (after->result matches Err(told) && told@
            == reported@),
        before is FinalizeReply && answer == TextLoopAnswer::ReplyFinalized(Err(host)) && stage@
            == "transcript"@ ==> after is Done && (after->result matches Err(told) && told@
            == reported@),
        before is StreamModel ==> (answer matches TextLoopAnswer::ModelStreamed(Ok(response)) ==> (
        response.output is CapabilityCalls ==> after is Done && (after->result matches Err(
            AgentLoopDriverError::Failed { reason_kind },
        ) && reason_kind@ == "invalid_model_output"@))),
        before is CheckExitId ==> (answer matches TextLoopAnswer::ExitIdChecked(Err(_))
            ==> after is Done && (after->result matches Err(
            AgentLoopDriverError::Failed { reason_kind },
        ) && reason_kind@ == "driver_bug"@)),
{
}

/// Only the answer that a run is waiting for can move it. Any other leaves the run
/// as it was, and a run that is over stays over.
pub proof fn loop_waits_for_the_asked_answer(
    before: TextLoopRun,
    answer: TextLoopAnswer,
    after: TextLoopRun,
)
    requires
        call_ensures(TextLoopRun::step, (before, answer), after),
        before is BuildPromptBundle ==> !(answer is PromptBundleBuilt),
        before is StreamModel ==> !(answer is ModelStreamed),
        before is FinalizeReply ==> !(answer is ReplyFinalized),
        before is CheckExitId ==> !(answer is ExitIdChecked),
    ensures
        after@ == before@,
{
}

/// Reading a run keeps all of it: two runs that read alike stand at the same
/// question, about the same values, or are over with the same result.
pub proof fn loop_view_keeps_everything(first: TextLoopRun, second: TextLoopRun)
    requires
        first@ == second@,
    ensures
        first is BuildPromptBundle ==> second == first,
        first is StreamModel ==> second == first,
        first is FinalizeReply ==> second == first,
        first matches TextLoopRun::CheckExitId { reply_ref, candidate } ==> {
            &&& second is CheckExitId
            &&& second->reply_ref == reply_ref
            &&& second->candidate@ == candidate@
        },
        first is Done ==> second is Done,
        first is Done ==> (first->result matches Ok(exit) ==> (second->result matches Ok(other)
            && other@ == exit@)),
        first is Done ==> (first->result matches Err(error) ==> (second->result matches Err(other)
            && other@ == error@)),
{
}

/// Each kind of failure is reported under its own name.
pub proof fn failures_are_reported_under_their_own_names(
    kind: LoopFailureKind,
    name: &'static str,
)
    requires
        call_ensures(loop_failure_kind_name, (kind,), name),
    ensures
        kind is ModelError <==> name@ == "model_error"@,
        kind is ContextBuildFailed <==> name@ == "context_build_failed"@,
        kind is CapabilityProtocolError <==> name@ == "capability_protocol_error"@,
        kind is IterationLimit <==> name@ == "iteration_limit"@,
        kind is InvalidModelOutput <==> name@ == "invalid_model_output"@,
        kind is CheckpointRejected <==> name@ == "checkpoint_rejected"@,
        kind is TranscriptWriteFailed <==> name@ == "transcript_write_failed"@,
        kind is DriverBug <==> name@ == "driver_bug"@,
        kind is InterruptedUnexpectedly <==> name@ == "interrupted_unexpectedly"@,
{
    reveal_strlit("model_error");
    reveal_strlit("context_build_failed");
    reveal_strlit("capability_protocol_error");
    reveal_strlit("iteration_limit");
    reveal_strlit("invalid_model_output");
    reveal_strlit("checkpoint_rejected");
    reveal_strlit("transcript_write_failed");
    reveal_strlit("driver_bug");
    reveal_strlit("interrupted_unexpectedly");
    assert("model_error"@.len() == 11);
    assert("context_build_failed"@.len() == 20);
    assert("capability_protocol_error"@.len() == 25);
    assert("iteration_limit"@.len() == 15);
    assert("invalid_model_output"@.len() == 20);
    assert("checkpoint_rejected"@.len() == 19);
    assert("transcript_write_failed"@.len() == 23);
    assert("driver_bug"@.len() == 10);
    assert("interrupted_unexpectedly"@.len() == 24);
    assert("context_build_failed"@[0] == 'c');
    assert("invalid_model_output"@[0] == 'i');
}

} // verus!
