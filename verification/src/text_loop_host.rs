//! Text-only loop host composition.
//!
//! One small factory for the context, prompt, model, transcript and empty
//! capability ports that the text-only loop needs. Each port is described by what
//! it is set up with.
use std::sync::Arc;

use vstd::prelude::*;
use vstd::string::*;

use crate::run_profile::{AgentLoopHostError, AgentLoopHostErrorKind, LoopRunContext};
use crate::turns::clone_option_string;

verus! {

#[derive(Debug, Clone, Copy, PartialEq, Eq)]
pub struct TextOnlyLoopHostConfig {
    /// How many messages the context may hold.
    pub max_context_messages: usize,
    /// How many messages a model request may hold.
    pub max_model_messages: usize,
}

impl Default for TextOnlyLoopHostConfig {
    fn default() -> (config: Self)
        ensures
            config.max_context_messages == 16,
            config.max_model_messages == 16,
    {
        TextOnlyLoopHostConfig { max_context_messages: 16, max_model_messages: 16 }
    }
}

/// The tenant, agent, project, owner and mission that a thread belongs to.
#[derive(Debug, PartialEq, Eq)]
pub struct ThreadScope {
    pub tenant_id: String,
    pub agent_id: String,
    pub project_id: Option<String>,
    pub owner_user_id: Option<String>,
    pub mission_id: Option<String>,
}

impl Clone for ThreadScope {
    fn clone(&self) -> (copy: Self)
        ensures
            copy == *self,
    {
        ThreadScope {
            tenant_id: self.tenant_id.clone(),
            agent_id: self.agent_id.clone(),
            project_id: clone_option_string(&self.project_id),
            owner_user_id: clone_option_string(&self.owner_user_id),
            mission_id: clone_option_string(&self.mission_id),
        }
    }
}

/// Loads the context of a run from its thread.
pub struct ThreadBackedLoopContextPort<S: ?Sized> {
    pub thread_service: Arc<S>,
    pub thread_scope: ThreadScope,
    pub run_context: LoopRunContext,
    pub max_messages: usize,
}

/// Builds prompts from a context.
pub struct HostManagedLoopPromptPort<S: ?Sized, M: ?Sized> {
    pub run_context: LoopRunContext,
    pub context: Arc<ThreadBackedLoopContextPort<S>>,
    pub milestone_sink: Arc<M>,
    pub default_message_limit: usize,
}

/// Sends prompts to the model gateway.
pub struct ThreadBackedLoopModelPort<S: ?Sized, G: ?Sized, M: ?Sized> {
    pub thread_service: Arc<S>,
    pub thread_scope: ThreadScope,
    pub run_context: LoopRunContext,
    pub gateway: Arc<G>,
    pub max_messages: usize,
    pub milestone_sink: Arc<M>,
}

/// Writes replies to the thread.
pub struct ThreadBackedLoopTranscriptPort<S: ?Sized, M: ?Sized> {
    pub thread_service: Arc<S>,
    pub thread_scope: ThreadScope,
    pub run_context: LoopRunContext,
    pub milestone_sink: Arc<M>,
}

/// Offers no capabilities.
#[derive(Debug, Clone, Copy, PartialEq, Eq)]
pub struct EmptyLoopCapabilityPort;

/// The ports of a text-only host over a thread service `S`, a model gateway `G`
/// and a milestone sink `M`.
pub struct TextOnlyLoopHostPorts<S: ?Sized, G: ?Sized, M: ?Sized> {
    pub context: Arc<ThreadBackedLoopContextPort<S>>,
    pub prompt: HostManagedLoopPromptPort<S, M>,
    pub model: ThreadBackedLoopModelPort<S, G, M>,
    pub transcript: ThreadBackedLoopTranscriptPort<S, M>,
    pub capabilities: EmptyLoopCapabilityPort,
}

/// Another handle to the value behind an [`Arc`].
///
/// Calls [`Arc::clone`]; the contract claims that the new handle points to the
/// same value.
#[verifier::external_body]
fn share<T: ?Sized>(handle: &Arc<T>) -> (copy: Arc<T>)
    ensures
        copy == *handle,
{
    Arc::clone(handle)
}

impl<S: ?Sized, G: ?Sized, M: ?Sized> TextOnlyLoopHostPorts<S, G, M> {
    /// The ports, set up for one run: every port serves the same run; the context
    /// is limited to `config.max_context_messages`, and so is the prompt by
    /// default; the model is limited to `config.max_model_messages`.
    pub open spec fn set_up_for(
        self,
        thread_service: Arc<S>,
        thread_scope: ThreadScope,
        run_context: LoopRunContext,
        gateway: Arc<G>,
        milestone_sink: Arc<M>,
        config: TextOnlyLoopHostConfig,
    ) -> bool {
        &&& *self.context == (ThreadBackedLoopContextPort {
            thread_service,
            thread_scope,
            run_context,
            max_messages: config.max_context_messages,
        })
        &&& self.prompt == (HostManagedLoopPromptPort {
            run_context,
            context: self.context,
            milestone_sink,
            default_message_limit: config.max_context_messages,
        })
        &&& self.model == (ThreadBackedLoopModelPort {
            thread_service,
            thread_scope,
            run_context,
            gateway,
            max_messages: config.max_model_messages,
            milestone_sink,
        })
        &&& self.transcript == (ThreadBackedLoopTranscriptPort {
            thread_service,
            thread_scope,
            run_context,
            milestone_sink,
        })
    }

    pub fn new(
        thread_service: Arc<S>,
        thread_scope: ThreadScope,
        run_context: LoopRunContext,
        gateway: Arc<G>,
        milestone_sink: Arc<M>,
        config: TextOnlyLoopHostConfig,
    ) -> (ports: Self)
        ensures
            ports.set_up_for(
                thread_service,
                thread_scope,
                run_context,
                gateway,
                milestone_sink,
                config,
            ),
    {
        let context = Arc::new(
            ThreadBackedLoopContextPort {
                thread_service: share(&thread_service),
                thread_scope: thread_scope.clone(),
                run_context: run_context.clone(),
                max_messages: config.max_context_messages,
            },
        );
        let prompt = HostManagedLoopPromptPort {
            run_context: run_context.clone(),
            context: share(&context),
            milestone_sink: share(&milestone_sink),
            default_message_limit: config.max_context_messages,
        };
        TextOnlyLoopHostPorts {
            context,
            prompt,
            model: ThreadBackedLoopModelPort {
                thread_service: share(&thread_service),
                thread_scope: thread_scope.clone(),
                run_context: run_context.clone(),
                gateway,
                max_messages: config.max_model_messages,
                milestone_sink: share(&milestone_sink),
            },
            transcript: ThreadBackedLoopTranscriptPort {
                thread_service,
                thread_scope,
                run_context,
                milestone_sink,
            },
            capabilities: EmptyLoopCapabilityPort,
        }
    }
}

/// A host that serves the text-only driver.
pub struct TextOnlyLoopHost<S: ?Sized, G: ?Sized, M: ?Sized> {
    pub ports: TextOnlyLoopHostPorts<S, G, M>,
}

/// What a host call that this host does not serve is told.
pub open spec fn refusal_text(method: Seq<char>) -> Seq<char> {
    "text-only loop host method "@ + method + " is unavailable"@
}

/// The error of a host call that is unavailable under the given method name.
pub open spec fn is_refusal_of(error: AgentLoopHostError, method: Seq<char>) -> bool {
    &&& error.kind == AgentLoopHostErrorKind::Unavailable
    &&& error.message@ == refusal_text(method)
}

/// The error for a method that the text-only host does not serve.
pub fn unsupported_text_only_host_method(method: &str) -> (error: AgentLoopHostError)
    ensures
        is_refusal_of(error, method@),
{
    AgentLoopHostError {
        kind: AgentLoopHostErrorKind::Unavailable,
        message: "text-only loop host method ".to_string().concat(method).concat(
            " is unavailable",
        ),
    }
}

impl<S: ?Sized, G: ?Sized, M: ?Sized> TextOnlyLoopHost<S, G, M> {
    pub fn new(
        thread_service: Arc<S>,
        thread_scope: ThreadScope,
        run_context: LoopRunContext,
        gateway: Arc<G>,
        milestone_sink: Arc<M>,
        config: TextOnlyLoopHostConfig,
    ) -> (host: Self)
        ensures
            host.ports.set_up_for(
                thread_service,
                thread_scope,
                run_context,
                gateway,
                milestone_sink,
                config,
            ),
    {
        TextOnlyLoopHost {
            ports: TextOnlyLoopHostPorts::new(
                thread_service,
                thread_scope,
                run_context,
                gateway,
                milestone_sink,
                config,
            ),
        }
    }

    pub fn from_ports(ports: TextOnlyLoopHostPorts<S, G, M>) -> (host: Self)
        ensures
            host.ports == ports,
    {
        TextOnlyLoopHost { ports }
    }

    /// The run that this host was set up for: that of its context.
    pub fn run_context(&self) -> (context: &LoopRunContext)
        ensures
            *context == self.ports.context.run_context,
    {
        &self.ports.context.run_context
    }

    /// Serves no inputs, whatever the cursor and the limit.
    pub fn poll_inputs<C, B>(&self, _after: C, _limit: usize) -> (result: Result<
        B,
        AgentLoopHostError,
    >)
        ensures
            result matches Err(error) && is_refusal_of(error, "poll_inputs"@),
    {
        Err(unsupported_text_only_host_method("poll_inputs"))
    }

    /// Takes no input for acknowledged.
    pub fn ack_inputs<C>(&self, _cursor: C) -> (result: Result<(), AgentLoopHostError>)
        ensures
            result matches Err(error) && is_refusal_of(error, "ack_inputs"@),
    {
        Err(unsupported_text_only_host_method("ack_inputs"))
    }

    /// Keeps no checkpoints.
    pub fn checkpoint<R, I>(&self, _request: R) -> (result: Result<I, AgentLoopHostError>)
        ensures
            result matches Err(error) && is_refusal_of(error, "checkpoint"@),
    {
        Err(unsupported_text_only_host_method("checkpoint"))
    }

    /// Emits no progress.
    pub fn emit_loop_progress<E>(&self, _event: E) -> (result: Result<(), AgentLoopHostError>)
        ensures
            result matches Err(error) && is_refusal_of(error, "emit_loop_progress"@),
    {
        Err(unsupported_text_only_host_method("emit_loop_progress"))
    }
}

/// All ports of a host that was set up for a run serve that run, on one thread
/// service and thread scope, and report to one milestone sink.
pub proof fn ports_serve_one_run<S: ?Sized, G: ?Sized, M: ?Sized>(
    ports: TextOnlyLoopHostPorts<S, G, M>,
    thread_service: Arc<S>,
    thread_scope: ThreadScope,
    run_context: LoopRunContext,
    gateway: Arc<G>,
    milestone_sink: Arc<M>,
    config: TextOnlyLoopHostConfig,
)
    requires
        ports.set_up_for(
            thread_service,
            thread_scope,
            run_context,
            gateway,
            milestone_sink,
            config,
        ),
    ensures
        ports.context.run_context == run_context,
        ports.prompt.run_context == ports.context.run_context,
        ports.model.run_context == ports.context.run_context,
        ports.transcript.run_context == ports.context.run_context,
        ports.prompt.context == ports.context,
        ports.model.thread_service == ports.context.thread_service,
        ports.transcript.thread_service == ports.context.thread_service,
        ports.model.thread_scope == ports.context.thread_scope,
        ports.transcript.thread_scope == ports.context.thread_scope,
        ports.model.milestone_sink == ports.prompt.milestone_sink,
        ports.transcript.milestone_sink == ports.prompt.milestone_sink,
        ports.prompt.default_message_limit == ports.context.max_messages,
{
}

/// Composing the ports hands every port exactly what it was given: the thread
/// service, the thread scope and the run to the context, the model and the
/// transcript; the milestone sink to whatever reports; the gateway to the model
/// alone; and each limit to the port that it limits.
pub proof fn ports_hold_what_they_were_composed_from<S: ?Sized, G: ?Sized, M: ?Sized>(
    thread_service: Arc<S>,
    thread_scope: ThreadScope,
    run_context: LoopRunContext,
    gateway: Arc<G>,
    milestone_sink: Arc<M>,
    config: TextOnlyLoopHostConfig,
    ports: TextOnlyLoopHostPorts<S, G, M>,
)
    requires
        call_ensures(
            TextOnlyLoopHostPorts::<S, G, M>::new,
            (thread_service, thread_scope, run_context, gateway, milestone_sink, config),
            ports,
        ),
    ensures
        ports.context.thread_scope == thread_scope,
        ports.model.thread_scope == thread_scope,
        ports.transcript.thread_scope == thread_scope,
        ports.context.run_context == run_context,
        ports.prompt.run_context == run_context,
        ports.model.run_context == run_context,
        ports.transcript.run_context == run_context,
        ports.context.thread_service == thread_service,
        ports.model.thread_service == thread_service,
        ports.transcript.thread_service == thread_service,
        ports.prompt.context == ports.context,
        ports.prompt.milestone_sink == milestone_sink,
        ports.model.milestone_sink == milestone_sink,
        ports.transcript.milestone_sink == milestone_sink,
        ports.model.gateway == gateway,
        ports.context.max_messages == config.max_context_messages,
        ports.prompt.default_message_limit == config.max_context_messages,
        ports.model.max_messages == config.max_model_messages,
{
}

/// A composed host serves the run, the thread scope and the services that it was
/// composed from, and says so when asked for its run.
pub proof fn host_serves_what_it_was_composed_from<S: ?Sized, G: ?Sized, M: ?Sized>(
    thread_service: Arc<S>,
    thread_scope: ThreadScope,
    run_context: LoopRunContext,
    gateway: Arc<G>,
    milestone_sink: Arc<M>,
    config: TextOnlyLoopHostConfig,
    host: TextOnlyLoopHost<S, G, M>,
    context: &LoopRunContext,
)
    requires
        call_ensures(
            TextOnlyLoopHost::<S, G, M>::new,
            (thread_service, thread_scope, run_context, gateway, milestone_sink, config),
            host,
        ),
        call_ensures(TextOnlyLoopHost::<S, G, M>::run_context, (&host,), context),
    ensures
        *context == run_context,
        host.ports.context.thread_scope == thread_scope,
        host.ports.model.thread_scope == thread_scope,
        host.ports.transcript.thread_scope == thread_scope,
        host.ports.context.run_context == run_context,
        host.ports.prompt.run_context == run_context,
        host.ports.model.run_context == run_context,
        host.ports.transcript.run_context == run_context,
        host.ports.context.thread_service == thread_service,
        host.ports.model.thread_service == thread_service,
        host.ports.transcript.thread_service == thread_service,
        host.ports.prompt.context == host.ports.context,
        host.ports.prompt.milestone_sink == milestone_sink,
        host.ports.model.milestone_sink == milestone_sink,
        host.ports.transcript.milestone_sink == milestone_sink,
        host.ports.model.gateway == gateway,
        host.ports.context.max_messages == config.max_context_messages,
        host.ports.prompt.default_message_limit == config.max_context_messages,
        host.ports.model.max_messages == config.max_model_messages,
{
}

/// A host made of given ports keeps them, and serves the run of their context.
pub proof fn host_keeps_its_ports<S: ?Sized, G: ?Sized, M: ?Sized>(
    ports: TextOnlyLoopHostPorts<S, G, M>,
    host: TextOnlyLoopHost<S, G, M>,
    context: &LoopRunContext,
)
    requires
        call_ensures(TextOnlyLoopHost::<S, G, M>::from_ports, (ports,), host),
        call_ensures(TextOnlyLoopHost::<S, G, M>::run_context, (&host,), context),
    ensures
        host.ports == ports,
        *context == ports.context.run_context,
{
}

/// A method that is not served is refused as unavailable, in words that name the
/// method and depend on nothing else.
pub proof fn refusal_names_the_method(method: &str, error: AgentLoopHostError)
    requires
        call_ensures(unsupported_text_only_host_method, (method,), error),
    ensures
        error.kind == AgentLoopHostErrorKind::Unavailable,
        error.message@ == "text-only loop host method "@ + method@ + " is unavailable"@,
{
}

/// Inputs, checkpoints and progress are refused on every host and for every
/// argument, each under its own method name.
pub proof fn text_only_host_serves_no_other_method<S: ?Sized, G: ?Sized, M: ?Sized, C, B, R, I, E>(
    host: TextOnlyLoopHost<S, G, M>,
    cursor: C,
    limit: usize,
    request: R,
    event: E,
    polled: Result<B, AgentLoopHostError>,
    acknowledged: Result<(), AgentLoopHostError>,
    checkpointed: Result<I, AgentLoopHostError>,
    emitted: Result<(), AgentLoopHostError>,
)
    requires
        call_ensures(
            TextOnlyLoopHost::<S, G, M>::poll_inputs::<C, B>,
            (&host, cursor, limit),
            polled,
        ),
        call_ensures(
            TextOnlyLoopHost::<S, G, M>::ack_inputs::<C>,
            (&host, cursor),
            acknowledged,
        ),
        call_ensures(
            TextOnlyLoopHost::<S, G, M>::checkpoint::<R, I>,
            (&host, request),
            checkpointed,
        ),
        call_ensures(
            TextOnlyLoopHost::<S, G, M>::emit_loop_progress::<E>,
            (&host, event),
            emitted,
        ),
    ensures
        polled is Err,
        polled->Err_0.kind == AgentLoopHostErrorKind::Unavailable,
        polled->Err_0.message@ == "text-only loop host method "@ + "poll_inputs"@
            + " is unavailable"@,
        acknowledged is Err,
        acknowledged->Err_0.kind == AgentLoopHostErrorKind::Unavailable,
        acknowledged->Err_0.message@ == "text-only loop host method "@ + "ack_inputs"@
            + " is unavailable"@,
        checkpointed is Err,
        checkpointed->Err_0.kind == AgentLoopHostErrorKind::Unavailable,
        checkpointed->Err_0.message@ == "text-only loop host method "@ + "checkpoint"@
            + " is unavailable"@,
        emitted is Err,
        emitted->Err_0.kind == AgentLoopHostErrorKind::Unavailable,
        emitted->Err_0.message@ == "text-only loop host method "@ + "emit_loop_progress"@
            + " is unavailable"@,
{
}

/// A copied thread scope has the same tenant, agent, project, owner and mission.
pub proof fn copied_thread_scope_is_the_same(scope: ThreadScope, copy: ThreadScope)
    requires
        call_ensures(ThreadScope::clone, (&scope,), copy),
    ensures
        copy.tenant_id == scope.tenant_id,
        copy.agent_id == scope.agent_id,
        copy.project_id == scope.project_id,
        copy.owner_user_id == scope.owner_user_id,
        copy.mission_id == scope.mission_id,
{
}

} // verus!
