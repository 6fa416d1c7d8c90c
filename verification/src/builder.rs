//! Assembling a transport: which client strategy, which execution context,
//! and the order in which the pieces are put together.
//!
//! Creating a reactor, running the client strategy and starting a thread are
//! the embedder's work. What to do next, and what to make of a failure, is
//! decided here: [`Bootstrap`] takes what happened and answers with the next
//! step.

use vstd::prelude::*;
use crate::channel::{request_queue, CoreReceiver};
use crate::error::TransportError;
use crate::transport::HttpTransport;

verus! {

/// `tokio_core::reactor::Handle`, the handle of a reactor that somebody
/// else runs.
#[verifier::external_type_specification]
#[verifier::external_body]
pub struct ExReactorHandle(tokio_core::reactor::Handle);

/// The strategy that makes a plain HTTP client with default settings.
#[derive(Clone, Copy, Debug, PartialEq, Eq, Structural)]
pub struct DefaultClientBuilder;

/// The strategy that makes a client which speaks TLS.
#[derive(Clone, Copy, Debug, PartialEq, Eq, Structural)]
pub struct DefaultTlsClientBuilder;

/// Where the dispatch loop of a transport runs.
pub enum ExecutionContext {
    /// On a reactor that the embedder runs; this is its handle.
    Embedded(tokio_core::reactor::Handle),
    /// On a reactor of the transport's own, on a thread of its own.
    Standalone,
}

/// The two kinds of execution context.
#[derive(Clone, Copy, Debug, PartialEq, Eq, Structural)]
pub enum Mode {
    Embedded,
    Standalone,
}

/// Why a construction failed.
#[derive(Clone, Copy, Debug, PartialEq, Eq, Structural)]
pub enum Failure {
    /// The private reactor could not be created.
    Reactor,
    /// The client strategy failed.
    Client,
}

/// How far a construction has come.
#[derive(Clone, Copy, Debug, PartialEq, Eq, Structural)]
pub enum BuildStage {
    /// Nothing has been done.
    Start,
    /// The background thread is creating the private reactor.
    AwaitingCore,
    /// The client strategy is running against the reactor's handle.
    AwaitingClient,
    /// The client is there; the transport can be handed out.
    Ready,
    /// The construction has failed.
    Failed(Failure),
}

/// What happened during a construction.
#[derive(Clone, Copy, Debug, PartialEq, Eq, Structural)]
pub enum BuildEvent {
    /// `build` was called.
    Begin,
    /// The private reactor was created.
    CoreCreated,
    /// The private reactor could not be created.
    CoreFailed,
    /// The client strategy returned a client.
    ClientBuilt,
    /// The client strategy returned an error.
    ClientFailed,
}

/// What is to be done next in a construction.
#[derive(Clone, Copy, Debug, PartialEq, Eq, Structural)]
pub enum BuildAct {
    /// Start the background thread and create the private reactor on it. The
    /// calling thread waits for that thread's report, and for nothing else.
    SpawnThread,
    /// Run the client strategy against the reactor's handle.
    BuildClient,
    /// Hand out the transport and start the dispatch loop: as one more task
    /// of the embedder's reactor, or as the sole task that drives the private
    /// reactor until the request queue ends.
    StartLoop,
    /// Report the failure; a background thread ends right after.
    Fail,
    /// The event cannot come at this stage: nothing is to be done.
    Nothing,
}

/// The stage that follows `stage` on `event`.
pub open spec fn next_stage(mode: Mode, stage: BuildStage, event: BuildEvent) -> BuildStage {
    match (stage, event) {
        (BuildStage::Start, BuildEvent::Begin) => match mode {
            Mode::Embedded => BuildStage::AwaitingClient,
            Mode::Standalone => BuildStage::AwaitingCore,
        },
        (BuildStage::AwaitingCore, BuildEvent::CoreCreated) => BuildStage::AwaitingClient,
        (BuildStage::AwaitingCore, BuildEvent::CoreFailed) => BuildStage::Failed(Failure::Reactor),
        (BuildStage::AwaitingClient, BuildEvent::ClientBuilt) => BuildStage::Ready,
        (BuildStage::AwaitingClient, BuildEvent::ClientFailed) => BuildStage::Failed(
            Failure::Client,
        ),
        _ => stage,
    }
}

/// What is to be done when `event` comes at `stage`.
pub open spec fn act_on(mode: Mode, stage: BuildStage, event: BuildEvent) -> BuildAct {
    match (stage, event) {
        (BuildStage::Start, BuildEvent::Begin) => match mode {
            Mode::Embedded => BuildAct::BuildClient,
            Mode::Standalone => BuildAct::SpawnThread,
        },
        (BuildStage::AwaitingCore, BuildEvent::CoreCreated) => BuildAct::BuildClient,
        (BuildStage::AwaitingCore, BuildEvent::CoreFailed) => BuildAct::Fail,
        (BuildStage::AwaitingClient, BuildEvent::ClientBuilt) => BuildAct::StartLoop,
        (BuildStage::AwaitingClient, BuildEvent::ClientFailed) => BuildAct::Fail,
        _ => BuildAct::Nothing,
    }
}

/// Whether a background thread of the construction is alive at `stage`.
pub open spec fn thread_alive(mode: Mode, stage: BuildStage) -> bool {
    mode == Mode::Standalone && (stage == BuildStage::AwaitingCore || stage
        == BuildStage::AwaitingClient || stage == BuildStage::Ready)
}

/// What `build` returns at `stage`, as far as it is decided: the error of a
/// failed construction, `None` for success, and nothing yet before that.
pub open spec fn verdict(stage: BuildStage) -> Option<Option<TransportError>> {
    match stage {
        BuildStage::Ready => Some(None),
        BuildStage::Failed(Failure::Reactor) => Some(Some(TransportError::unable_to_create())),
        BuildStage::Failed(Failure::Client) => Some(Some(TransportError::client_builder())),
        _ => None,
    }
}

/// The stage after `events`, from the start.
pub open spec fn stage_after(mode: Mode, events: Seq<BuildEvent>) -> BuildStage
    decreases events.len(),
{
    if events.len() == 0 {
        BuildStage::Start
    } else {
        next_stage(mode, stage_after(mode, events.drop_last()), events.last())
    }
}

/// How many threads have been started after `events`, from the start.
pub open spec fn threads_spawned(mode: Mode, events: Seq<BuildEvent>) -> nat
    decreases events.len(),
{
    if events.len() == 0 {
        0
    } else {
        let before = threads_spawned(mode, events.drop_last());
        if act_on(mode, stage_after(mode, events.drop_last()), events.last())
            == BuildAct::SpawnThread {
            before + 1
        } else {
            before
        }
    }
}

/// Whether the calling thread has had to wait during `events`.
pub open spec fn caller_waited(mode: Mode, events: Seq<BuildEvent>) -> bool {
    threads_spawned(mode, events) > 0
}

/// An embedded construction starts no thread and never makes the calling
/// thread wait, whatever happens; a standalone construction starts exactly
/// one thread, when it begins, and none after that.
pub proof fn lemma_thread_budget(mode: Mode, events: Seq<BuildEvent>)
    ensures
        mode == Mode::Embedded ==> threads_spawned(mode, events) == 0 && !caller_waited(
            mode,
            events,
        ),
        mode == Mode::Standalone ==> threads_spawned(mode, events) == (if stage_after(mode, events)
            == BuildStage::Start {
            0nat
        } else {
            1nat
        }),
        verdict(stage_after(mode, events)) is Some && mode == Mode::Standalone ==> threads_spawned(
            mode,
            events,
        ) == 1,
        mode == Mode::Embedded ==> stage_after(mode, events) != BuildStage::AwaitingCore,
    decreases events.len(),
{
    if events.len() > 0 {
        lemma_thread_budget(mode, events.drop_last());
    }
}

/// Once a construction has succeeded or failed, no event changes that, and
/// nothing more is to be done.
pub proof fn lemma_verdict_is_final(mode: Mode, stage: BuildStage, event: BuildEvent)
    requires
        verdict(stage) is Some,
    ensures
        next_stage(mode, stage, event) == stage,
        act_on(mode, stage, event) == BuildAct::Nothing,
{
}

/// A failure of the client strategy is reported as such in either kind of
/// execution context, and a background thread does not outlive it: when the
/// strategy's failure comes in answer to `BuildClient`, the construction
/// fails with the client-builder error, and from then on no thread of it is
/// alive.
pub proof fn lemma_client_failure_is_reported(
    mode: Mode,
    events: Seq<BuildEvent>,
    later: Seq<BuildEvent>,
)
    requires
        stage_after(mode, events) == BuildStage::AwaitingClient,
    ensures
        act_on(mode, stage_after(mode, events), BuildEvent::ClientFailed) == BuildAct::Fail,
        verdict(stage_after(mode, events.push(BuildEvent::ClientFailed) + later)) == Some(
            Some(TransportError::client_builder()),
        ),
        !thread_alive(mode, stage_after(mode, events.push(BuildEvent::ClientFailed) + later)),
    decreases later.len(),
{
    let failed = events.push(BuildEvent::ClientFailed);
    if later.len() == 0 {
        assert(failed + later =~= failed);
        assert(failed.drop_last() =~= events);
    } else {
        lemma_client_failure_is_reported(mode, events, later.drop_last());
        let all = failed + later;
        assert(all.drop_last() =~= failed + later.drop_last());
        assert(all.last() == later.last());
        lemma_verdict_is_final(mode, stage_after(mode, all.drop_last()), all.last());
    }
}

/// A reactor that cannot be created and a client strategy that fails are
/// told apart by the error that the construction ends in.
pub proof fn lemma_failures_are_distinct()
    ensures
        verdict(BuildStage::Failed(Failure::Reactor)) != verdict(
            BuildStage::Failed(Failure::Client),
        ),
        TransportError::unable_to_create().kind is TokioCoreError,
        TransportError::client_builder().kind is ClientBuilderError,
{
}

/// The client strategy is run at most once in a construction.
pub proof fn lemma_strategy_runs_once(mode: Mode, events: Seq<BuildEvent>, i: int, j: int)
    requires
        0 <= i < j < events.len(),
        act_on(mode, stage_after(mode, events.take(i)), events[i]) == BuildAct::BuildClient,
    ensures
        act_on(mode, stage_after(mode, events.take(j)), events[j]) != BuildAct::BuildClient,
{
    lemma_past_client(mode, events, i + 1, j);
    assert(events.take(i + 1).drop_last() =~= events.take(i));
}

/// From the moment the strategy has been asked for, the construction never
/// returns to an earlier stage.
proof fn lemma_past_client(mode: Mode, events: Seq<BuildEvent>, i: int, j: int)
    requires
        0 <= i <= j <= events.len(),
        stage_after(mode, events.take(i)) == BuildStage::AwaitingClient || verdict(
            stage_after(mode, events.take(i)),
        ) is Some,
    ensures
        stage_after(mode, events.take(j)) == BuildStage::AwaitingClient || verdict(
            stage_after(mode, events.take(j)),
        ) is Some,
    decreases j - i,
{
    if i < j {
        lemma_past_client(mode, events, i, j - 1);
        assert(events.take(j).drop_last() =~= events.take(j - 1));
    }
}

/// The state of a construction.
#[derive(Debug)]
pub struct Bootstrap {
    mode: Mode,
    stage: BuildStage,
}

/// What a finished construction hands out: the transport, and the consumer
/// side of its request queue for the dispatch loop.
pub struct Launch {
    pub transport: HttpTransport,
    pub request_rx: CoreReceiver,
}

impl Bootstrap {
    /// The kind of execution context.
    pub closed spec fn spec_mode(&self) -> Mode {
        self.mode
    }

    /// How far the construction has come.
    pub closed spec fn spec_stage(&self) -> BuildStage {
        self.stage
    }

    /// A construction of the given kind, at its start.
    pub fn new(mode: Mode) -> (b: Bootstrap)
        ensures
            b.mode() == mode,
            b.stage() == BuildStage::Start,
    {
        Bootstrap { mode, stage: BuildStage::Start }
    }

    /// The kind of execution context.
    #[verifier::when_used_as_spec(spec_mode)]
    pub fn mode(&self) -> (m: Mode)
        ensures
            m == self.spec_mode(),
    {
        self.mode
    }

    /// How far the construction has come.
    #[verifier::when_used_as_spec(spec_stage)]
    pub fn stage(&self) -> (s: BuildStage)
        ensures
            s == self.spec_stage(),
    {
        self.stage
    }

    /// Takes note of `event` and says what is to be done next.
    pub fn step(&mut self, event: BuildEvent) -> (act: BuildAct)
        ensures
            act == act_on(old(self).mode(), old(self).stage(), event),
            final(self).stage() == next_stage(old(self).mode(), old(self).stage(), event),
            final(self).mode() == old(self).mode(),
    {
        let (next, act) = match (self.stage, event) {
            (BuildStage::Start, BuildEvent::Begin) => match self.mode {
                Mode::Embedded => (BuildStage::AwaitingClient, BuildAct::BuildClient),
                Mode::Standalone => (BuildStage::AwaitingCore, BuildAct::SpawnThread),
            },
            (BuildStage::AwaitingCore, BuildEvent::CoreCreated) => (
                BuildStage::AwaitingClient,
                BuildAct::BuildClient,
            ),
            (BuildStage::AwaitingCore, BuildEvent::CoreFailed) => (
                BuildStage::Failed(Failure::Reactor),
                BuildAct::Fail,
            ),
            (BuildStage::AwaitingClient, BuildEvent::ClientBuilt) => (
                BuildStage::Ready,
                BuildAct::StartLoop,
            ),
            (BuildStage::AwaitingClient, BuildEvent::ClientFailed) => (
                BuildStage::Failed(Failure::Client),
                BuildAct::Fail,
            ),
            (stage, _) => (stage, BuildAct::Nothing),
        };
        self.stage = next;
        act
    }

    /// Ends the construction.
    ///
    /// At `Ready` this makes the request queue and the transport that feeds
    /// it; after a failure it gives the error that `build` reports. Before
    /// either there is nothing to hand out.
    pub fn finish(self) -> (r: Option<Result<Launch, TransportError>>)
        ensures
            match verdict(self.stage()) {
                None => r is None,
                Some(None) => r matches Some(Ok(_)),
                Some(Some(e)) => r == Some(Err::<Launch, TransportError>(e)),
            },
    {
        match self.stage {
            BuildStage::Ready => {
                let (request_tx, request_rx) = request_queue();
                Some(Ok(Launch { transport: HttpTransport::new(request_tx), request_rx }))
            },
            BuildStage::Failed(Failure::Reactor) => Some(Err(TransportError::unable_to_create())),
            BuildStage::Failed(Failure::Client) => Some(Err(TransportError::client_builder())),
            _ => None,
        }
    }
}

/// What `build` makes of a builder: the strategy, the execution context, and
/// the construction that is to be driven.
pub struct BuildPlan<CB> {
    pub client_builder: CB,
    pub context: ExecutionContext,
    pub bootstrap: Bootstrap,
}

/// Collects what a transport is to be made of.
#[derive(Debug)]
pub struct HttpTransportBuilder<CB> {
    client_builder: CB,
    handle: Option<tokio_core::reactor::Handle>,
}

impl<CB> HttpTransportBuilder<CB> {
    /// The client strategy.
    pub closed spec fn strategy(&self) -> CB {
        self.client_builder
    }

    /// The handle of the embedder's reactor, where one was given.
    pub closed spec fn reactor(&self) -> Option<tokio_core::reactor::Handle> {
        self.handle
    }

    /// The same builder with another client strategy.
    pub fn client<CB2>(self, builder: CB2) -> (b: HttpTransportBuilder<CB2>)
        ensures
            b.strategy() == builder,
            b.reactor() == self.reactor(),
    {
        HttpTransportBuilder { client_builder: builder, handle: self.handle }
    }

    /// The same builder, for a transport that runs on the reactor of `handle`.
    pub fn handle(self, handle: tokio_core::reactor::Handle) -> (b: Self)
        ensures
            b.strategy() == self.strategy(),
            b.reactor() == Some(handle),
    {
        HttpTransportBuilder { client_builder: self.client_builder, handle: Some(handle) }
    }

    /// Settles the execution context and sets up the construction.
    ///
    /// With a reactor handle the transport is embedded in that reactor;
    /// without one it stands alone. Nothing else is done yet: the
    /// construction is at its start.
    pub fn build(self) -> (plan: BuildPlan<CB>)
        ensures
            plan.client_builder == self.strategy(),
            match self.reactor() {
                Some(handle) => plan.context == ExecutionContext::Embedded(handle)
                    && plan.bootstrap.mode() == Mode::Embedded,
                None => plan.context == ExecutionContext::Standalone && plan.bootstrap.mode()
                    == Mode::Standalone,
            },
            plan.bootstrap.stage() == BuildStage::Start,
    {
        match self.handle {
            Some(handle) => BuildPlan {
                client_builder: self.client_builder,
                context: ExecutionContext::Embedded(handle),
                bootstrap: Bootstrap::new(Mode::Embedded),
            },
            None => BuildPlan {
                client_builder: self.client_builder,
                context: ExecutionContext::Standalone,
                bootstrap: Bootstrap::new(Mode::Standalone),
            },
        }
    }
}

impl HttpTransport {
    /// A builder with the default client strategy and no reactor handle.
    pub fn builder() -> (b: HttpTransportBuilder<DefaultClientBuilder>)
        ensures
            b.strategy() == DefaultClientBuilder,
            b.reactor() is None,
    {
        HttpTransportBuilder { client_builder: DefaultClientBuilder, handle: None }
    }

    /// A builder with the TLS client strategy and no reactor handle.
    pub fn tls_builder() -> (b: HttpTransportBuilder<DefaultTlsClientBuilder>)
        ensures
            b.strategy() == DefaultTlsClientBuilder,
            b.reactor() is None,
    {
        HttpTransportBuilder { client_builder: DefaultTlsClientBuilder, handle: None }
    }
}

} // verus!
