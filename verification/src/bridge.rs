//! The bridge context: configuration, client slot, handle registry,
//! result queue and liveness cache, with the generic dispatch pattern,
//! the completion path and the per-tick drain pass.
//!
//! A dispatch call validates its arguments synchronously, registers a
//! single-use handle and describes one unit of background work; the
//! transport layer outside the library performs the round trip and
//! hands the typed result back through `complete`; the host's per-tick
//! drain pass removes every queued result and resolves each handle
//! exactly once.

use vstd::prelude::*;
use crate::config::DEFAULT_TIMEOUT_SECS;
use crate::config::ClientSettings;
use crate::config::OllamaConfig;
use crate::config::built_client;
use crate::config::spec_timeout;
use crate::handles::HandleRegistry;
use crate::handles::HandleStatus;
use crate::liveness::LivenessCache;
use crate::liveness::LivenessDecision;
use crate::model_name::normalize_model_name;
use crate::model_name::normalized_name;
use crate::outcome::Outcome;
use crate::protocol::ChatMessage;
use crate::protocol::EmbedInput;
use crate::protocol::HttpMethod;
use crate::protocol::HttpRequest;
use crate::protocol::OperationKind;
use crate::protocol::RequestBody;
use crate::protocol::build_chat_request;
use crate::protocol::build_embed_request;
use crate::protocol::build_generate_request;
use crate::protocol::build_show_request;
use crate::protocol::endpoint_method;
use crate::protocol::request_url;
use crate::protocol::spec_method;
use crate::protocol::spec_path;
use crate::queue::CallbackQueue;
use crate::queue::QueuedResult;
use crate::queue::queued_handle;

verus! {

/// The continuation argument of a dispatch call, as the host supplied
/// it: absent, present but not callable, or a proper continuation.
#[derive(Clone, Copy, PartialEq, Eq, Structural, Debug)]
pub enum CallbackArg {
    Absent,
    NotAFunction,
    Function,
}

/// The message-list argument of a chat dispatch: not a table at all, or
/// an ordered list of messages.
pub enum ChatMessagesArg {
    NotATable,
    Messages(Vec<ChatMessage>),
}

/// An argument fault detected synchronously, before any background work
/// starts.
#[derive(Clone, Copy, PartialEq, Eq, Structural, Debug)]
pub enum ValidationError {
    CallbackRequired,
    MessagesTableRequired,
}

impl ValidationError {
    /// The descriptive message surfaced synchronously to the host.
    pub fn message(&self) -> (m: &'static str)
        ensures
            *self is CallbackRequired ==> m@ == "Callback function is required"@,
            *self is MessagesTableRequired ==> m@ == "Second argument must be a table of messages"@,
    {
        match self {
            ValidationError::CallbackRequired => "Callback function is required",
            ValidationError::MessagesTableRequired => "Second argument must be a table of messages",
        }
    }
}

/// How the background unit turns the upstream reply into a typed
/// outcome.  The availability decoder remembers which normalized name
/// it looks for in the fetched listing.
pub enum Decoder {
    Generate,
    Chat,
    ListModels,
    ModelInfo,
    ModelAvailable { target: String },
    Embeddings,
    RunningModels,
}

/// One accepted dispatch: the registered handle and the described unit
/// of background work.
pub struct PendingDispatch {
    pub handle: usize,
    pub request: HttpRequest,
    pub decoder: Decoder,
}

/// A completion that the queue refused: the handle is not owed a
/// resolution, or a result for it is already queued.
#[derive(Clone, Copy, PartialEq, Eq, Structural, Debug)]
pub enum CompletionError {
    UnknownHandle,
    DuplicateCompletion,
}

/// The process-lifetime state of the bridge, explicitly constructed and
/// passed to every entry point.
pub struct Bridge {
    pub config: OllamaConfig,
    pub client: Option<ClientSettings>,
    pub registry: HandleRegistry,
    pub queue: CallbackQueue,
    pub liveness: LivenessCache,
}

/// The address a dispatch performed against `b` targets.
pub open spec fn dispatch_url(b: Bridge, kind: OperationKind) -> Seq<char> {
    b.config.base_url@ + spec_path(kind)
}

/// The registry after one drain pass over the queue `q`: every queued
/// handle is resolved, every other handle keeps its status.
pub open spec fn drained_registry(reg: Seq<HandleStatus>, q: Seq<QueuedResult>) -> Seq<HandleStatus> {
    Seq::new(reg.len(), |h: int| if queued_handle(q, h) { HandleStatus::Resolved } else { reg[h] })
}

impl Bridge {
    /// A cached client always reflects the current configuration,
    /// because replacing the configuration discards it.
    pub open spec fn client_consistent(self) -> bool {
        self.client matches Some(c) ==> c == built_client(self.config)
    }

    /// Every queued result is owed to a handle that is still active.
    pub open spec fn queued_handles_active(self) -> bool {
        forall|k: int| #![trigger self.queue@[k]]
            0 <= k < self.queue@.len() ==> self.registry.is_active(self.queue@[k].handle as int)
    }

    /// No two queued results share a handle, so a drain pass can never
    /// resolve a handle twice.
    pub open spec fn queued_handles_distinct(self) -> bool {
        forall|i: int, j: int|
            0 <= i < j < self.queue@.len() ==> self.queue@[i].handle != self.queue@[j].handle
    }

    pub open spec fn wf(self) -> bool {
        self.client_consistent() && self.queued_handles_active() && self.queued_handles_distinct()
    }

    pub fn new() -> (b: Bridge)
        ensures
            b.wf(),
            b.config.is_initial(),
            b.client is None,
            b.registry@ == Seq::<HandleStatus>::empty(),
            b.queue@ == Seq::<QueuedResult>::empty(),
            b.liveness == (LivenessCache { is_running: false, last_check: 0, first_check_done: false }),
    {
        Bridge {
            config: OllamaConfig::default(),
            client: None,
            registry: HandleRegistry::new(),
            queue: CallbackQueue::new(),
            liveness: LivenessCache::new(),
        }
    }

    /// The bridge after a configuration replacement: the new settings
    /// are installed and the cached client is discarded.
    pub open spec fn set_config_spec(self, base_url: String, timeout_secs: Option<u64>) -> Bridge {
        Bridge {
            config: OllamaConfig { base_url, timeout_secs: spec_timeout(timeout_secs) },
            client: None,
            registry: self.registry,
            queue: self.queue,
            liveness: self.liveness,
        }
    }

    /// Replaces the process-wide settings and discards the cached
    /// client, so the next operation builds a fresh one from the new
    /// settings.  The default timeout applies when none is named.
    pub fn set_config(&mut self, base_url: String, timeout_secs: Option<u64>)
        ensures
            *final(self) == old(self).set_config_spec(base_url, timeout_secs),
            old(self).wf() ==> final(self).wf(),
    {
        let t = match timeout_secs {
            Some(t) => t,
            None => DEFAULT_TIMEOUT_SECS,
        };
        self.config = OllamaConfig { base_url, timeout_secs: t };
        self.client = None;
    }

    /// Returns the shared client, building it from the current
    /// configuration when none is cached.
    pub fn acquire_client(&mut self) -> (c: ClientSettings)
        requires
            old(self).wf(),
        ensures
            final(self).wf(),
            c == built_client(old(self).config),
            final(self).client == Some(c),
            final(self).config == old(self).config,
            final(self).registry == old(self).registry,
            final(self).queue == old(self).queue,
            final(self).liveness == old(self).liveness,
    {
        match self.client {
            Some(c) => c,
            None => {
                let c = ClientSettings { timeout_secs: self.config.timeout_secs };
                self.client = Some(c);
                c
            },
        }
    }

    /// The state change and request shape common to every accepted
    /// dispatch: one fresh handle is registered, nothing is queued, and
    /// the request targets the current configuration.
    pub open spec fn dispatched(pre: Bridge, post: Bridge, p: PendingDispatch, kind: OperationKind) -> bool {
        &&& p.handle == pre.registry@.len()
        &&& post.registry@ == pre.registry@.push(HandleStatus::Active)
        &&& post.queue == pre.queue
        &&& post.liveness == pre.liveness
        &&& post.config == pre.config
        &&& post.client == Some(built_client(pre.config))
        &&& p.request.method == spec_method(kind)
        &&& p.request.url@ == dispatch_url(pre, kind)
        &&& p.request.timeout_secs == pre.config.timeout_secs
    }

    /// Registers a handle and describes the background unit of work for
    /// one validated operation.
    fn prepare(&mut self, kind: OperationKind, body: RequestBody, decoder: Decoder) -> (p: PendingDispatch)
        requires
            old(self).wf(),
        ensures
            final(self).wf(),
            Bridge::dispatched(*old(self), *final(self), p, kind),
            p.request.body == body,
            p.decoder == decoder,
    {
        let client = self.acquire_client();
        let url = request_url(self.config.base_url.as_str(), kind);
        let method = endpoint_method(kind);
        let handle = self.registry.register();
        PendingDispatch {
            handle,
            request: HttpRequest { method, url, timeout_secs: client.timeout_secs, body },
            decoder,
        }
    }

    /// Dispatches a single-shot text generation.
    pub fn dispatch_generate(
        &mut self,
        model: &str,
        prompt: String,
        system: Option<String>,
        callback: CallbackArg,
    ) -> (r: Result<PendingDispatch, ValidationError>)
        requires
            old(self).wf(),
        ensures
            final(self).wf(),
            !(callback is Function) ==> r == Err::<PendingDispatch, ValidationError>(
                ValidationError::CallbackRequired,
            ) && *final(self) == *old(self),
            callback is Function ==> (r matches Ok(p)
                && Bridge::dispatched(*old(self), *final(self), p, OperationKind::GenerateText)
                && (p.request.body matches RequestBody::Generate(g)
                    && g.model@ == normalized_name(model@)
                    && g.prompt == prompt
                    && g.stream == Some(false)
                    && g.system == system
                    && g.template is None
                    && g.context is None)
                && p.decoder is Generate),
    {
        if !matches!(callback, CallbackArg::Function) {
            return Err(ValidationError::CallbackRequired);
        }
        let body = RequestBody::Generate(build_generate_request(model, prompt, system));
        Ok(self.prepare(OperationKind::GenerateText, body, Decoder::Generate))
    }

    /// Dispatches a chat completion over an ordered message list.  A
    /// malformed message argument is rejected before the continuation
    /// is looked at, as is a missing continuation afterwards.
    pub fn dispatch_chat(
        &mut self,
        model: &str,
        messages: ChatMessagesArg,
        callback: CallbackArg,
    ) -> (r: Result<PendingDispatch, ValidationError>)
        requires
            old(self).wf(),
        ensures
            final(self).wf(),
            messages is NotATable ==> r == Err::<PendingDispatch, ValidationError>(
                ValidationError::MessagesTableRequired,
            ) && *final(self) == *old(self),
            messages is Messages && !(callback is Function) ==> r == Err::<
                PendingDispatch,
                ValidationError,
            >(ValidationError::CallbackRequired) && *final(self) == *old(self),
            messages matches ChatMessagesArg::Messages(ms) ==> (callback is Function ==> (r matches Ok(p)
                && Bridge::dispatched(*old(self), *final(self), p, OperationKind::Chat)
                && (p.request.body matches RequestBody::Chat(c)
                    && c.model@ == normalized_name(model@)
                    && c.messages == ms
                    && c.stream == Some(false))
                && p.decoder is Chat)),
    {
        let ms = match messages {
            ChatMessagesArg::NotATable => {
                return Err(ValidationError::MessagesTableRequired);
            },
            ChatMessagesArg::Messages(ms) => ms,
        };
        if !matches!(callback, CallbackArg::Function) {
            return Err(ValidationError::CallbackRequired);
        }
        let body = RequestBody::Chat(build_chat_request(model, ms));
        Ok(self.prepare(OperationKind::Chat, body, Decoder::Chat))
    }

    /// Dispatches a model listing.
    pub fn dispatch_list_models(&mut self, callback: CallbackArg) -> (r: Result<
        PendingDispatch,
        ValidationError,
    >)
        requires
            old(self).wf(),
        ensures
            final(self).wf(),
            !(callback is Function) ==> r == Err::<PendingDispatch, ValidationError>(
                ValidationError::CallbackRequired,
            ) && *final(self) == *old(self),
            callback is Function ==> (r matches Ok(p)
                && Bridge::dispatched(*old(self), *final(self), p, OperationKind::ListModels)
                && p.request.body is Empty
                && p.decoder is ListModels),
    {
        if !matches!(callback, CallbackArg::Function) {
            return Err(ValidationError::CallbackRequired);
        }
        Ok(self.prepare(OperationKind::ListModels, RequestBody::Empty, Decoder::ListModels))
    }

    /// Dispatches a model-details lookup.
    pub fn dispatch_model_info(&mut self, model: &str, callback: CallbackArg) -> (r: Result<
        PendingDispatch,
        ValidationError,
    >)
        requires
            old(self).wf(),
        ensures
            final(self).wf(),
            !(callback is Function) ==> r == Err::<PendingDispatch, ValidationError>(
                ValidationError::CallbackRequired,
            ) && *final(self) == *old(self),
            callback is Function ==> (r matches Ok(p)
                && Bridge::dispatched(*old(self), *final(self), p, OperationKind::ModelDetails)
                && (p.request.body matches RequestBody::Show(s)
                    && s.name@ == normalized_name(model@))
                && p.decoder is ModelInfo),
    {
        if !matches!(callback, CallbackArg::Function) {
            return Err(ValidationError::CallbackRequired);
        }
        let body = RequestBody::Show(build_show_request(model));
        Ok(self.prepare(OperationKind::ModelDetails, body, Decoder::ModelInfo))
    }

    /// Dispatches an availability check: the model listing is fetched
    /// and searched for the normalized name.
    pub fn dispatch_model_available(&mut self, model: &str, callback: CallbackArg) -> (r: Result<
        PendingDispatch,
        ValidationError,
    >)
        requires
            old(self).wf(),
        ensures
            final(self).wf(),
            !(callback is Function) ==> r == Err::<PendingDispatch, ValidationError>(
                ValidationError::CallbackRequired,
            ) && *final(self) == *old(self),
            callback is Function ==> (r matches Ok(p)
                && Bridge::dispatched(*old(self), *final(self), p, OperationKind::ListModels)
                && p.request.body is Empty
                && (p.decoder matches Decoder::ModelAvailable { target }
                    && target@ == normalized_name(model@))),
    {
        if !matches!(callback, CallbackArg::Function) {
            return Err(ValidationError::CallbackRequired);
        }
        let target = normalize_model_name(model);
        Ok(self.prepare(
            OperationKind::ListModels,
            RequestBody::Empty,
            Decoder::ModelAvailable { target },
        ))
    }

    /// Dispatches an embeddings request over one string or an array of
    /// strings.
    pub fn dispatch_embeddings(
        &mut self,
        model: &str,
        input: EmbedInput,
        callback: CallbackArg,
    ) -> (r: Result<PendingDispatch, ValidationError>)
        requires
            old(self).wf(),
        ensures
            final(self).wf(),
            !(callback is Function) ==> r == Err::<PendingDispatch, ValidationError>(
                ValidationError::CallbackRequired,
            ) && *final(self) == *old(self),
            callback is Function ==> (r matches Ok(p)
                && Bridge::dispatched(*old(self), *final(self), p, OperationKind::Embeddings)
                && (p.request.body matches RequestBody::Embed(e)
                    && e.model@ == normalized_name(model@)
                    && e.input == input
                    && e.truncate == Some(true))
                && p.decoder is Embeddings),
    {
        if !matches!(callback, CallbackArg::Function) {
            return Err(ValidationError::CallbackRequired);
        }
        let body = RequestBody::Embed(build_embed_request(model, input));
        Ok(self.prepare(OperationKind::Embeddings, body, Decoder::Embeddings))
    }

    /// Dispatches a running-model listing.
    pub fn dispatch_running_models(&mut self, callback: CallbackArg) -> (r: Result<
        PendingDispatch,
        ValidationError,
    >)
        requires
            old(self).wf(),
        ensures
            final(self).wf(),
            !(callback is Function) ==> r == Err::<PendingDispatch, ValidationError>(
                ValidationError::CallbackRequired,
            ) && *final(self) == *old(self),
            callback is Function ==> (r matches Ok(p)
                && Bridge::dispatched(*old(self), *final(self), p, OperationKind::RunningModels)
                && p.request.body is Empty
                && p.decoder is RunningModels),
    {
        if !matches!(callback, CallbackArg::Function) {
            return Err(ValidationError::CallbackRequired);
        }
        Ok(self.prepare(OperationKind::RunningModels, RequestBody::Empty, Decoder::RunningModels))
    }

    /// Describes the liveness probe round trip: the model-listing
    /// endpoint under the current configuration, with no handle and no
    /// queued result.
    pub fn probe_request(&mut self) -> (r: HttpRequest)
        requires
            old(self).wf(),
        ensures
            final(self).wf(),
            r.method is Get,
            r.url@ == dispatch_url(*old(self), OperationKind::ListModels),
            r.timeout_secs == old(self).config.timeout_secs,
            r.body is Empty,
            final(self).config == old(self).config,
            final(self).client == Some(built_client(old(self).config)),
            final(self).registry == old(self).registry,
            final(self).queue == old(self).queue,
            final(self).liveness == old(self).liveness,
    {
        let client = self.acquire_client();
        let url = request_url(self.config.base_url.as_str(), OperationKind::ListModels);
        HttpRequest {
            method: HttpMethod::Get,
            url,
            timeout_secs: client.timeout_secs,
            body: RequestBody::Empty,
        }
    }

    /// What one liveness query issued at `now` must do; no I/O happens
    /// here.
    pub fn liveness_query(&self, now: u64) -> (d: LivenessDecision)
        ensures
            d == self.liveness.decision(now),
    {
        self.liveness.query(now)
    }

    /// Records a completed liveness probe.
    pub fn record_liveness(&mut self, reachable: bool, now: u64)
        requires
            old(self).wf(),
        ensures
            final(self).wf(),
            final(self).liveness == old(self).liveness.recorded(reachable, now),
            final(self).config == old(self).config,
            final(self).client == old(self).client,
            final(self).registry == old(self).registry,
            final(self).queue == old(self).queue,
    {
        self.liveness.record_probe(reachable, now);
    }

    /// Marshals one completed operation into the queue.  A handle that
    /// is not owed a resolution, or that already has a queued result,
    /// is refused and the bridge is unchanged.
    pub fn complete(&mut self, handle: usize, outcome: Outcome) -> (r: Result<(), CompletionError>)
        requires
            old(self).wf(),
        ensures
            final(self).wf(),
            old(self).registry.is_active(handle as int) && !queued_handle(
                old(self).queue@,
                handle as int,
            ) ==> (r is Ok
                && final(self).queue@ == old(self).queue@.push((QueuedResult { handle, outcome }))
                && final(self).registry == old(self).registry
                && final(self).config == old(self).config
                && final(self).client == old(self).client
                && final(self).liveness == old(self).liveness),
            !old(self).registry.is_active(handle as int) ==> r == Err::<(), CompletionError>(
                CompletionError::UnknownHandle,
            ) && *final(self) == *old(self),
            old(self).registry.is_active(handle as int) && queued_handle(
                old(self).queue@,
                handle as int,
            ) ==> r == Err::<(), CompletionError>(CompletionError::DuplicateCompletion)
                && *final(self) == *old(self),
    {
        if !self.registry.is_active_handle(handle) {
            return Err(CompletionError::UnknownHandle);
        }
        if self.queue.holds_handle(handle) {
            return Err(CompletionError::DuplicateCompletion);
        }
        self.queue.push(QueuedResult { handle, outcome });
        Ok(())
    }

    /// The per-tick drain pass: atomically removes every queued result,
    /// in completion order, and resolves each handle exactly once.  The
    /// host invokes one continuation per returned entry; a failure
    /// inside one continuation cannot touch the other entries, which
    /// are already out of the queue and individually paired with their
    /// handles.
    pub fn drain(&mut self) -> (drained: Vec<QueuedResult>)
        requires
            old(self).wf(),
        ensures
            final(self).wf(),
            drained@ == old(self).queue@,
            final(self).queue@ == Seq::<QueuedResult>::empty(),
            final(self).registry@ == drained_registry(old(self).registry@, old(self).queue@),
            final(self).config == old(self).config,
            final(self).client == old(self).client,
            final(self).liveness == old(self).liveness,
    {
        let drained = self.queue.drain_all();
        let ghost reg0 = self.registry@;
        let ghost q0 = drained@;
        let ghost cfg0 = self.config;
        let ghost cl0 = self.client;
        let ghost lv0 = self.liveness;
        let n = drained.len();
        let mut k: usize = 0;
        while k < n
            invariant
                k <= n,
                n == q0.len(),
                drained@ == q0,
                self.queue@ == Seq::<QueuedResult>::empty(),
                self.config == cfg0,
                self.client == cl0,
                self.liveness == lv0,
                self.registry@.len() == reg0.len(),
                forall|i: int, j: int| 0 <= i < j < q0.len() ==> q0[i].handle != q0[j].handle,
                forall|i: int| #![trigger q0[i]]
                    0 <= i < q0.len() ==> 0 <= q0[i].handle < reg0.len()
                        && reg0[q0[i].handle as int] is Active,
                forall|h: int|
                    0 <= h < reg0.len() ==> self.registry@[h] == (if queued_handle(
                        q0.take(k as int),
                        h,
                    ) {
                        HandleStatus::Resolved
                    } else {
                        reg0[h]
                    }),
            decreases n - k,
        {
            let h = drained[k].handle;
            proof {
                assert(q0[k as int].handle == h);
                assert(!queued_handle(q0.take(k as int), h as int)) by {
                    if queued_handle(q0.take(k as int), h as int) {
                        let i = choose|i: int|
                            0 <= i < q0.take(k as int).len() && (#[trigger] q0.take(
                                k as int,
                            )[i]).handle == h as int;
                        assert(q0[i].handle == q0[k as int].handle);
                        assert(false);
                    }
                }
                assert(self.registry@[h as int] == reg0[h as int]);
            }
            self.registry.mark_resolved(h);
            proof {
                assert forall|hh: int| 0 <= hh < reg0.len() implies self.registry@[hh] == (
                if queued_handle(q0.take(k + 1 as int), hh) {
                    HandleStatus::Resolved
                } else {
                    reg0[hh]
                }) by {
                    lemma_queued_take_step(q0, k as int, hh);
                }
            }
            k += 1;
        }
        proof {
            assert(q0.take(n as int) =~= q0);
            assert(self.registry@ =~= drained_registry(reg0, q0));
        }
        drained
    }
}

/// A queued handle appears in the first `k + 1` entries exactly when it
/// appears in the first `k` or is the handle of entry `k`.
proof fn lemma_queued_take_step(q: Seq<QueuedResult>, k: int, h: int)
    requires
        0 <= k < q.len(),
    ensures
        queued_handle(q.take(k + 1), h) <==> (queued_handle(q.take(k), h) || q[k].handle == h),
{
    if queued_handle(q.take(k + 1), h) {
        let i = choose|i: int| 0 <= i < q.take(k + 1).len() && (#[trigger] q.take(k + 1)[i]).handle == h;
        if i < k {
            assert(q.take(k)[i].handle == h);
            assert(queued_handle(q.take(k), h));
        } else {
            assert(q[k].handle == h);
        }
    }
    if queued_handle(q.take(k), h) {
        let i = choose|i: int| 0 <= i < q.take(k).len() && (#[trigger] q.take(k)[i]).handle == h;
        assert(q.take(k + 1)[i].handle == h);
        assert(queued_handle(q.take(k + 1), h));
    }
    if q[k].handle == h {
        assert(q.take(k + 1)[k].handle == h);
        assert(queued_handle(q.take(k + 1), h));
    }
}

/// Exactly-once delivery of one drain pass: in a well-formed bridge the
/// queued entries carry pairwise-distinct handles, every such handle is
/// owed its resolution before the pass, the pass leaves each of them
/// resolved, and no other handle is touched.
pub proof fn lemma_drain_resolves_each_exactly_once(b: Bridge)
    requires
        b.wf(),
    ensures
        forall|i: int, j: int| 0 <= i < j < b.queue@.len() ==> b.queue@[i].handle != b.queue@[j].handle,
        forall|k: int| #![trigger b.queue@[k]]
            0 <= k < b.queue@.len() ==> b.registry.is_active(b.queue@[k].handle as int),
        forall|k: int| #![trigger b.queue@[k]]
            0 <= k < b.queue@.len() ==> drained_registry(b.registry@, b.queue@)[b.queue@[k].handle as int] is Resolved,
        forall|h: int|
            0 <= h < b.registry@.len() && !queued_handle(b.queue@, h) ==> drained_registry(
                b.registry@,
                b.queue@,
            )[h] == b.registry@[h],
{
}

/// The registry after `n` dispatch calls: `n` fresh handles, all
/// active, appended after the existing ones.
pub open spec fn registered_batch(reg0: Seq<HandleStatus>, n: nat) -> Seq<HandleStatus> {
    reg0 + Seq::new(n, |i: int| HandleStatus::Active)
}

/// The queue entries of a batch whose `k`-th operation was dispatched
/// under handle `len0 + k` and completed with `outcomes[k]`.
pub open spec fn completed_batch(len0: nat, outcomes: Seq<Outcome>) -> Seq<QueuedResult> {
    Seq::new(
        outcomes.len(),
        |k: int| QueuedResult { handle: (len0 + k) as usize, outcome: outcomes[k] },
    )
}

/// A batch registry is built one dispatch at a time: no dispatches
/// leave the registry as it was, and each further dispatch appends one
/// fresh active handle, exactly as `register` does.
pub proof fn lemma_registered_batch_step(reg0: Seq<HandleStatus>, n: nat)
    ensures
        registered_batch(reg0, 0) =~= reg0,
        registered_batch(reg0, n).push(HandleStatus::Active) =~= registered_batch(reg0, n + 1),
        registered_batch(reg0, n).len() == reg0.len() + n,
{
}

/// A batch queue is built one completion at a time: each further
/// completion appends the entry of the next fresh handle, exactly as
/// `complete` does.
pub proof fn lemma_completed_batch_step(len0: nat, outcomes: Seq<Outcome>, o: Outcome)
    ensures
        completed_batch(len0, Seq::<Outcome>::empty()) =~= Seq::<QueuedResult>::empty(),
        completed_batch(len0, outcomes).push(
            (QueuedResult { handle: (len0 + outcomes.len()) as usize, outcome: o }),
        ) =~= completed_batch(len0, outcomes.push(o)),
{
}

/// A batch of `n` concurrent dispatch calls registers the `n` fresh
/// pairwise-distinct handles `len0 .. len0 + n`; completing each of
/// them exactly once queues exactly `n` results, one per dispatch; and
/// the following drain pass delivers exactly those `n` entries and
/// resolves each of the `n` handles exactly once, touching no earlier
/// handle.
pub proof fn lemma_batch_dispatch_complete_drain(reg0: Seq<HandleStatus>, outcomes: Seq<Outcome>)
    requires
        reg0.len() + outcomes.len() <= usize::MAX,
    ensures
        ({
            let reg1 = registered_batch(reg0, outcomes.len());
            let entries = completed_batch(reg0.len(), outcomes);
            let reg2 = drained_registry(reg1, entries);
            &&& reg1.len() == reg0.len() + outcomes.len()
            &&& entries.len() == outcomes.len()
            &&& forall|k: int| #![trigger entries[k]]
                0 <= k < entries.len() ==> entries[k].handle == reg0.len() + k
                    && entries[k].outcome == outcomes[k]
            &&& forall|i: int, j: int|
                0 <= i < j < entries.len() ==> entries[i].handle != entries[j].handle
            &&& forall|k: int| #![trigger entries[k]]
                0 <= k < entries.len() ==> reg1[entries[k].handle as int] is Active
            &&& forall|k: int| #![trigger entries[k]]
                0 <= k < entries.len() ==> reg2[entries[k].handle as int] is Resolved
            &&& forall|h: int| 0 <= h < reg0.len() ==> reg2[h] == reg0[h]
        }),
{
    let reg1 = registered_batch(reg0, outcomes.len());
    let entries = completed_batch(reg0.len(), outcomes);
    let reg2 = drained_registry(reg1, entries);
    assert forall|h: int| 0 <= h < reg0.len() implies reg2[h] == reg0[h] by {
        assert(!queued_handle(entries, h)) by {
            if queued_handle(entries, h) {
                let i = choose|i: int| 0 <= i < entries.len() && (#[trigger] entries[i]).handle == h;
                assert(false);
            }
        }
        assert(reg1[h] == reg0[h]);
    }
    assert forall|k: int| #![trigger entries[k]]
        0 <= k < entries.len() implies reg2[entries[k].handle as int] is Resolved by {
        assert(entries[k].handle == reg0.len() + k);
        assert(queued_handle(entries, reg0.len() + k));
    }
}

/// Replacing the configuration discards any previously cached client:
/// directly after a replacement the client slot is empty, the next
/// operation builds its client from the new settings, and a dispatch
/// performed then targets the new base address.
pub proof fn lemma_dispatch_after_config_change(
    b: Bridge,
    base_url: String,
    timeout_secs: Option<u64>,
    kind: OperationKind,
)
    ensures
        ({
            let b2 = b.set_config_spec(base_url, timeout_secs);
            &&& b2.client is None
            &&& b2.config.base_url == base_url
            &&& built_client(b2.config).timeout_secs == spec_timeout(timeout_secs)
            &&& dispatch_url(b2, kind) == base_url@ + spec_path(kind)
        }),
{
}

} // verus!
