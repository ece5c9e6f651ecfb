//! What passes between a loop driver and the host that it runs on.
use vstd::prelude::*;

use crate::turns::{TurnId, TurnRunId, TurnScope};

verus! {

/// Names one version of a loop driver.
#[derive(Debug, PartialEq, Eq)]
pub struct AgentLoopDriverDescriptor {
    pub driver_id: String,
    pub version: u64,
}

/// An [`AgentLoopDriverDescriptor`] with its string read as a character sequence.
pub struct AgentLoopDriverDescriptorView {
    pub driver_id: Seq<char>,
    pub version: u64,
}

impl View for AgentLoopDriverDescriptor {
    type V = AgentLoopDriverDescriptorView;

    open spec fn view(&self) -> AgentLoopDriverDescriptorView {
        AgentLoopDriverDescriptorView { driver_id: self.driver_id@, version: self.version }
    }
}

impl Clone for AgentLoopDriverDescriptor {
    fn clone(&self) -> (copy: Self)
        ensures
            copy == *self,
    {
        AgentLoopDriverDescriptor { driver_id: self.driver_id.clone(), version: self.version }
    }
}

impl AgentLoopDriverDescriptor {
    /// Whether both name the same version of the same driver.
    pub fn same_as(&self, other: &Self) -> (same: bool)
        ensures
            same == (self@ == other@),
    {
        self.driver_id == other.driver_id && self.version == other.version
    }
}

/// The settings that a run was resolved to: the driver, the model profile, and
/// all remaining settings in one canonical text.
#[derive(Debug, PartialEq, Eq)]
pub struct ResolvedRunProfile {
    pub loop_driver: AgentLoopDriverDescriptor,
    pub model_profile_id: String,
    pub settings: String,
}

/// A [`ResolvedRunProfile`] with its strings read as character sequences.
pub struct ResolvedRunProfileView {
    pub loop_driver: AgentLoopDriverDescriptorView,
    pub model_profile_id: Seq<char>,
    pub settings: Seq<char>,
}

impl View for ResolvedRunProfile {
    type V = ResolvedRunProfileView;

    open spec fn view(&self) -> ResolvedRunProfileView {
        ResolvedRunProfileView {
            loop_driver: self.loop_driver@,
            model_profile_id: self.model_profile_id@,
            settings: self.settings@,
        }
    }
}

impl Clone for ResolvedRunProfile {
    fn clone(&self) -> (copy: Self)
        ensures
            copy == *self,
    {
        ResolvedRunProfile {
            loop_driver: self.loop_driver.clone(),
            model_profile_id: self.model_profile_id.clone(),
            settings: self.settings.clone(),
        }
    }
}

impl ResolvedRunProfile {
    /// Whether both hold the same settings.
    pub fn same_as(&self, other: &Self) -> (same: bool)
        ensures
            same == (self@ == other@),
    {
        self.loop_driver.same_as(&other.loop_driver) && self.model_profile_id
            == other.model_profile_id && self.settings == other.settings
    }
}

/// What a driver is asked to run.
#[derive(Clone, Debug, PartialEq, Eq)]
pub struct AgentLoopDriverRunRequest {
    pub turn_id: TurnId,
    pub run_id: TurnRunId,
    pub resolved_run_profile: ResolvedRunProfile,
}

/// The run that a host was set up for.
#[derive(Debug, PartialEq, Eq)]
pub struct LoopRunContext {
    pub scope: TurnScope,
    pub turn_id: TurnId,
    pub run_id: TurnRunId,
    pub resolved_run_profile: ResolvedRunProfile,
}

impl Clone for LoopRunContext {
    fn clone(&self) -> (copy: Self)
        ensures
            copy == *self,
    {
        LoopRunContext {
            scope: self.scope.clone(),
            turn_id: self.turn_id.clone(),
            run_id: self.run_id.clone(),
            resolved_run_profile: self.resolved_run_profile.clone(),
        }
    }
}

/// Why a host refuses a call.
#[derive(Clone, Copy, Debug, PartialEq, Eq)]
pub enum AgentLoopHostErrorKind {
    InvalidInvocation,
    ScopeMismatch,
    Unavailable,
    Cancelled,
    TranscriptWriteFailed,
    BudgetExceeded,
    PolicyDenied,
    CheckpointRejected,
    Unauthorized,
    StaleSurface,
    Internal,
}

/// A refused host call.
#[derive(Clone, Debug, PartialEq, Eq)]
pub struct AgentLoopHostError {
    pub kind: AgentLoopHostErrorKind,
    pub message: String,
}

/// A refused host call, together with the name that the host gives to the kind of
/// its error.
#[derive(Clone, Debug, PartialEq, Eq)]
pub struct HostFailure {
    pub error: AgentLoopHostError,
    pub kind_name: String,
}

/// The names that a host gives to the kinds of its errors: one name to each kind.
#[derive(Clone, Debug, PartialEq, Eq)]
pub struct HostErrorKindNames {
    pub invalid_invocation: String,
    pub scope_mismatch: String,
    pub unavailable: String,
    pub cancelled: String,
    pub transcript_write_failed: String,
    pub budget_exceeded: String,
    pub policy_denied: String,
    pub checkpoint_rejected: String,
    pub unauthorized: String,
    pub stale_surface: String,
    pub internal: String,
}

impl HostErrorKindNames {
    /// The name of a kind.
    pub open spec fn name_of(self, kind: AgentLoopHostErrorKind) -> Seq<char> {
        match kind {
            AgentLoopHostErrorKind::InvalidInvocation => self.invalid_invocation@,
            AgentLoopHostErrorKind::ScopeMismatch => self.scope_mismatch@,
            AgentLoopHostErrorKind::Unavailable => self.unavailable@,
            AgentLoopHostErrorKind::Cancelled => self.cancelled@,
            AgentLoopHostErrorKind::TranscriptWriteFailed => self.transcript_write_failed@,
            AgentLoopHostErrorKind::BudgetExceeded => self.budget_exceeded@,
            AgentLoopHostErrorKind::PolicyDenied => self.policy_denied@,
            AgentLoopHostErrorKind::CheckpointRejected => self.checkpoint_rejected@,
            AgentLoopHostErrorKind::Unauthorized => self.unauthorized@,
            AgentLoopHostErrorKind::StaleSurface => self.stale_surface@,
            AgentLoopHostErrorKind::Internal => self.internal@,
        }
    }

    /// The failure goes by the name that the kind of its error has here.
    pub open spec fn gave_name_to(self, failure: HostFailure) -> bool {
        failure.kind_name@ == self.name_of(failure.error.kind)
    }

    /// The refused call of an error, under the name of the error's kind.
    pub fn named(&self, error: AgentLoopHostError) -> (failure: HostFailure)
        ensures
            failure.error == error,
            failure.kind_name@ == self.name_of(error.kind),
    {
        let kind_name = match error.kind {
            AgentLoopHostErrorKind::InvalidInvocation => self.invalid_invocation.clone(),
            AgentLoopHostErrorKind::ScopeMismatch => self.scope_mismatch.clone(),
            AgentLoopHostErrorKind::Unavailable => self.unavailable.clone(),
            AgentLoopHostErrorKind::Cancelled => self.cancelled.clone(),
            AgentLoopHostErrorKind::TranscriptWriteFailed => self.transcript_write_failed.clone(),
            AgentLoopHostErrorKind::BudgetExceeded => self.budget_exceeded.clone(),
            AgentLoopHostErrorKind::PolicyDenied => self.policy_denied.clone(),
            AgentLoopHostErrorKind::CheckpointRejected => self.checkpoint_rejected.clone(),
            AgentLoopHostErrorKind::Unauthorized => self.unauthorized.clone(),
            AgentLoopHostErrorKind::StaleSurface => self.stale_surface.clone(),
            AgentLoopHostErrorKind::Internal => self.internal.clone(),
        };
        HostFailure { error, kind_name }
    }
}

/// Why a driver gives a run up.
#[derive(Clone, Debug, PartialEq, Eq)]
pub enum AgentLoopDriverError {
    /// The driver was asked for something that it does not do.
    InvalidRequest { reason: String },
    /// The host cannot serve the run now.
    Unavailable { reason: String },
    /// The run failed, in the named way.
    Failed { reason_kind: String },
}

/// An [`AgentLoopDriverError`] with its strings read as character sequences.
pub enum AgentLoopDriverErrorView {
    InvalidRequest { reason: Seq<char> },
    Unavailable { reason: Seq<char> },
    Failed { reason_kind: Seq<char> },
}

impl View for AgentLoopDriverError {
    type V = AgentLoopDriverErrorView;

    open spec fn view(&self) -> AgentLoopDriverErrorView {
        match self {
            AgentLoopDriverError::InvalidRequest { reason } => {
                AgentLoopDriverErrorView::InvalidRequest { reason: reason@ }
            },
            AgentLoopDriverError::Unavailable { reason } => {
                AgentLoopDriverErrorView::Unavailable { reason: reason@ }
            },
            AgentLoopDriverError::Failed { reason_kind } => {
                AgentLoopDriverErrorView::Failed { reason_kind: reason_kind@ }
            },
        }
    }
}

/// The ways in which a run can fail.
#[derive(Clone, Copy, Debug, PartialEq, Eq)]
pub enum LoopFailureKind {
    ModelError,
    ContextBuildFailed,
    CapabilityProtocolError,
    IterationLimit,
    InvalidModelOutput,
    CheckpointRejected,
    TranscriptWriteFailed,
    DriverBug,
    InterruptedUnexpectedly,
}

/// What a prompt is built for.
#[derive(Clone, Copy, Debug, PartialEq, Eq)]
pub enum PromptMode {
    TextOnly,
}

/// A request to build a prompt.
#[derive(Clone, Debug, PartialEq, Eq)]
pub struct LoopPromptBundleRequest {
    pub mode: PromptMode,
    pub context_cursor: Option<String>,
    pub surface_version: Option<String>,
    pub checkpoint_state_ref: Option<String>,
    pub max_messages: Option<u32>,
}

/// One message of a prompt: its role, and a reference to its content.
#[derive(Clone, Debug, PartialEq, Eq)]
pub struct LoopModelMessage {
    pub role: String,
    pub content_ref: String,
}

/// A prompt as the host built it.
#[derive(Clone, Debug, PartialEq, Eq)]
pub struct LoopPromptBundle {
    pub messages: Vec<LoopModelMessage>,
    pub surface_version: Option<String>,
}

/// A request for one model response.
#[derive(Clone, Debug, PartialEq, Eq)]
pub struct LoopModelRequest {
    pub messages: Vec<LoopModelMessage>,
    pub surface_version: Option<String>,
    pub model_preference: Option<String>,
}

/// A final reply of the model.
#[derive(Clone, Debug, PartialEq, Eq)]
pub struct AssistantReply {
    pub content: String,
}

/// A capability that the model wants to call.
#[derive(Clone, Debug, PartialEq, Eq)]
pub struct CapabilityCallCandidate {
    pub surface_version: String,
    pub capability_id: String,
    pub input_ref: String,
}

/// What a model response comes to.
#[derive(Clone, Debug, PartialEq, Eq)]
pub enum ParentLoopOutput {
    AssistantReply(AssistantReply),
    CapabilityCalls(Vec<CapabilityCallCandidate>),
}

/// One model response.
#[derive(Clone, Debug, PartialEq, Eq)]
pub struct LoopModelResponse {
    pub output: ParentLoopOutput,
}

/// A request to write a reply to the transcript.
#[derive(Clone, Debug, PartialEq, Eq)]
pub struct FinalizeAssistantMessage {
    pub reply: AssistantReply,
}

/// Reference to a message of the transcript.
#[derive(Clone, Debug, PartialEq, Eq)]
pub struct LoopMessageRef {
    pub text: String,
}

/// Identity of a loop exit.
#[derive(Clone, Debug, PartialEq, Eq)]
pub struct LoopExitId {
    pub text: String,
}

/// How a loop was completed.
#[derive(Clone, Copy, Debug, PartialEq, Eq)]
pub enum LoopCompletionKind {
    FinalReply,
}

/// A completed loop.
#[derive(Clone, Debug, PartialEq, Eq)]
pub struct LoopCompleted {
    pub completion_kind: LoopCompletionKind,
    pub reply_message_refs: Vec<LoopMessageRef>,
    pub result_refs: Vec<String>,
    pub final_checkpoint_id: Option<String>,
    pub usage_summary_ref: Option<String>,
    pub exit_id: LoopExitId,
}

/// A [`LoopCompleted`] with its vectors read as sequences.
pub struct LoopCompletedView {
    pub completion_kind: LoopCompletionKind,
    pub reply_message_refs: Seq<LoopMessageRef>,
    pub result_refs: Seq<String>,
    pub final_checkpoint_id: Option<String>,
    pub usage_summary_ref: Option<String>,
    pub exit_id: LoopExitId,
}

impl View for LoopCompleted {
    type V = LoopCompletedView;

    open spec fn view(&self) -> LoopCompletedView {
        LoopCompletedView {
            completion_kind: self.completion_kind,
            reply_message_refs: self.reply_message_refs@,
            result_refs: self.result_refs@,
            final_checkpoint_id: self.final_checkpoint_id,
            usage_summary_ref: self.usage_summary_ref,
            exit_id: self.exit_id,
        }
    }
}

/// How a run left its loop.
#[derive(Clone, Debug, PartialEq, Eq)]
pub enum LoopExit {
    Completed(LoopCompleted),
}

/// A [`LoopExit`] with its vectors read as sequences.
pub enum LoopExitView {
    Completed(LoopCompletedView),
}

impl View for LoopExit {
    type V = LoopExitView;

    open spec fn view(&self) -> LoopExitView {
        match self {
            LoopExit::Completed(completed) => LoopExitView::Completed(completed@),
        }
    }
}

/// Drivers are taken for the same exactly where id and version agree.
pub proof fn same_driver_has_the_same_id_and_version(
    first: AgentLoopDriverDescriptor,
    second: AgentLoopDriverDescriptor,
    same: bool,
)
    requires
        call_ensures(AgentLoopDriverDescriptor::same_as, (&first, &second), same),
    ensures
        same <==> first.driver_id@ == second.driver_id@ && first.version == second.version,
{
}

/// Profiles are taken for the same exactly where driver, model profile and all
/// remaining settings agree.
pub proof fn same_profile_has_the_same_settings(
    first: ResolvedRunProfile,
    second: ResolvedRunProfile,
    same: bool,
)
    requires
        call_ensures(ResolvedRunProfile::same_as, (&first, &second), same),
    ensures
        same <==> {
            &&& first.loop_driver.driver_id@ == second.loop_driver.driver_id@
            &&& first.loop_driver.version == second.loop_driver.version
            &&& first.model_profile_id@ == second.model_profile_id@
            &&& first.settings@ == second.settings@
        },
{
}

/// A failure keeps its error, and goes by the name that the host gives to the
/// kind of that error and to no other.
pub proof fn failure_goes_by_the_name_of_its_kind(
    names: HostErrorKindNames,
    error: AgentLoopHostError,
    failure: HostFailure,
)
    requires
        call_ensures(HostErrorKindNames::named, (&names, error), failure),
    ensures
        failure.error == error,
        error.kind is InvalidInvocation ==> failure.kind_name@ == names.invalid_invocation@,
        error.kind is ScopeMismatch ==> failure.kind_name@ == names.scope_mismatch@,
        error.kind is Unavailable ==> failure.kind_name@ == names.unavailable@,
        error.kind is Cancelled ==> failure.kind_name@ == names.cancelled@,
        error.kind is TranscriptWriteFailed ==> failure.kind_name@
            == names.transcript_write_failed@,
        error.kind is BudgetExceeded ==> failure.kind_name@ == names.budget_exceeded@,
        error.kind is PolicyDenied ==> failure.kind_name@ == names.policy_denied@,
        error.kind is CheckpointRejected ==> failure.kind_name@ == names.checkpoint_rejected@,
        error.kind is Unauthorized ==> failure.kind_name@ == names.unauthorized@,
        error.kind is StaleSurface ==> failure.kind_name@ == names.stale_surface@,
        error.kind is Internal ==> failure.kind_name@ == names.internal@,
{
}

/// Reading a driver error keeps all of it: errors read alike exactly where they
/// are of the same kind and say the same.
pub proof fn driver_error_view_keeps_everything(
    first: AgentLoopDriverError,
    second: AgentLoopDriverError,
)
    ensures
        first@ == second@ <==> match first {
            AgentLoopDriverError::InvalidRequest { reason } => {
                second is InvalidRequest && second->InvalidRequest_reason@ == reason@
            },
            AgentLoopDriverError::Unavailable { reason } => {
                second is Unavailable && second->Unavailable_reason@ == reason@
            },
            AgentLoopDriverError::Failed { reason_kind } => {
                second is Failed && second->reason_kind@ == reason_kind@
            },
        },
{
}

/// Reading an exit keeps all of it.
pub proof fn exit_view_keeps_everything(first: LoopExit, second: LoopExit)
    ensures
        first@ == second@ <==> {
            let completed = first->Completed_0;
            let other = second->Completed_0;
            &&& completed.completion_kind == other.completion_kind
            &&& completed.reply_message_refs@ == other.reply_message_refs@
            &&& completed.result_refs@ == other.result_refs@
            &&& completed.final_checkpoint_id == other.final_checkpoint_id
            &&& completed.usage_summary_ref == other.usage_summary_ref
            &&& completed.exit_id == other.exit_id
        },
{
}

/// A copied run context is for the same scope, turn, run and profile, and a copied
/// profile holds the same settings for the same driver.
pub proof fn copied_run_context_is_the_same(
    context: LoopRunContext,
    profile: ResolvedRunProfile,
    descriptor: AgentLoopDriverDescriptor,
    context_copy: LoopRunContext,
    profile_copy: ResolvedRunProfile,
    descriptor_copy: AgentLoopDriverDescriptor,
)
    requires
        call_ensures(LoopRunContext::clone, (&context,), context_copy),
        call_ensures(ResolvedRunProfile::clone, (&profile,), profile_copy),
        call_ensures(AgentLoopDriverDescriptor::clone, (&descriptor,), descriptor_copy),
    ensures
        context_copy.scope == context.scope,
        context_copy.turn_id == context.turn_id,
        context_copy.run_id == context.run_id,
        context_copy.resolved_run_profile == context.resolved_run_profile,
        profile_copy.loop_driver == profile.loop_driver,
        profile_copy.model_profile_id == profile.model_profile_id,
        profile_copy.settings == profile.settings,
        descriptor_copy.driver_id == descriptor.driver_id,
        descriptor_copy.version == descriptor.version,
{
}

} // verus!
