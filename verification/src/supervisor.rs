//! The instance supervisor: the decisions of starting and stopping
//! instances, taken on one explicit orchestration context.
//!
//! The engine is not part of this library. Starting an instance therefore
//! takes two steps around the host's own work: `run_network_instance`
//! translates the record and refuses an identifier that already runs; the
//! host then builds and starts the engine instance; `register_instance`
//! takes in how that went. Between the two steps the identifier is
//! starting: it is not in the registry, and of several starts that race on
//! one identifier the registration admits exactly one.

use crate::config::{
    message_head, translated, ConfigError, ConfigFailure, NetworkConfig, StructuredConfig,
    StructuredConfigView,
};
use crate::registry::{lists_entries, no_entries, InstanceHandle, Registry};
use std::sync::mpsc::Sender;
use vstd::prelude::*;

verus! {

/// `std::sync::mpsc::Sender`, declared so that it can stand in a field.
/// Nothing is known of what is inside one.
#[verifier::external_type_specification]
#[verifier::external_body]
#[verifier::reject_recursive_types(T)]
pub struct ExSender<T>(Sender<T>);

/// `Sender::send`: hands the level to the channel. Whether that succeeds
/// lies with the receiving end, so nothing is promised of the result; a
/// failure comes back as the channel's own message.
#[verifier::external_body]
fn channel_send(sender: &Sender<String>, level: String) -> (sent: Result<(), String>) {
    match sender.send(level) {
        Ok(()) => Ok(()),
        Err(e) => Err(e.to_string()),
    }
}

/// The seconds between two cycles of the telemetry loop, until they are set
/// otherwise.
pub const DEFAULT_EMIT_DELAY: u64 = 3;

/// The orchestration context: the registry of running instances, whether
/// the telemetry loop is active, the interval at which it polls, and the
/// channel to the log filter once it has been installed.
pub struct Orchestrator {
    registry: Registry,
    emitting: bool,
    emit_delay: u64,
    log_levels: Option<Sender<String>>,
}

/// The context as contracts speak of it.
pub struct OrchestratorView {
    pub instances: Map<Seq<char>, InstanceHandle>,
    pub emitting: bool,
    pub emit_delay: u64,
    /// Whether the channel to the log filter has been installed.
    pub logging: bool,
}

impl View for Orchestrator {
    type V = OrchestratorView;

    closed spec fn view(&self) -> OrchestratorView {
        OrchestratorView {
            instances: self.registry@,
            emitting: self.emitting,
            emit_delay: self.emit_delay,
            logging: self.log_levels is Some,
        }
    }
}

/// Why an instance was not started.
#[derive(Debug)]
pub enum StartError {
    /// The record did not translate.
    Config(ConfigError),
    /// An instance already runs under the identifier.
    AlreadyRunning,
    /// The engine could not start the instance; its message.
    Engine(String),
}

/// A `StartError` by the characters of its texts.
pub enum StartFailure {
    Config(ConfigFailure),
    AlreadyRunning,
    Engine(Seq<char>),
}

impl View for StartError {
    type V = StartFailure;

    open spec fn view(&self) -> StartFailure {
        match self {
            StartError::Config(e) => StartFailure::Config(e@),
            StartError::AlreadyRunning => StartFailure::AlreadyRunning,
            StartError::Engine(message) => StartFailure::Engine(message@),
        }
    }
}

/// Why an instance was not stopped. No reason is told apart from another,
/// and no stop returns one: stopping always succeeds.
#[derive(Clone, Copy, PartialEq, Eq, Structural, Debug)]
pub struct StopError {}

/// Why an instance was not found.
#[derive(Clone, Copy, PartialEq, Eq, Structural, Debug)]
pub enum LookupError {
    NotFound,
}

/// What the host does after a registration.
#[derive(Clone, Copy, PartialEq, Eq, Structural, Debug)]
pub struct Registration {
    /// The telemetry loop was inactive and is now marked active: the host
    /// starts it. Where this is false a loop already runs.
    pub spawn_telemetry: bool,
}

/// A tunnel descriptor on its way to the running instance that takes it.
#[derive(Clone, Copy, PartialEq, Eq, Structural, Debug)]
pub struct TunnelAttachment {
    pub handle: InstanceHandle,
    pub fd: i32,
}

/// Where an identifier stands in its life. A starting identifier is one
/// that a host works on between admission and registration; the context
/// holds no mark of it.
#[derive(Clone, Copy, PartialEq, Eq, Structural, Debug)]
pub enum InstancePhase {
    Absent,
    Running,
}

/// The context before anything has happened: no instance, no telemetry
/// loop, the default interval, no channel to the log filter.
pub open spec fn initial() -> OrchestratorView {
    OrchestratorView {
        instances: no_entries(),
        emitting: false,
        emit_delay: DEFAULT_EMIT_DELAY,
        logging: false,
    }
}

/// The phase of `id` in the context `s`.
pub open spec fn phase(s: OrchestratorView, id: Seq<char>) -> InstancePhase {
    if s.instances.dom().contains(id) {
        InstancePhase::Running
    } else {
        InstancePhase::Absent
    }
}

/// The first step of a start: the record's translation, refused where its
/// identifier already runs.
pub open spec fn admitted(s: OrchestratorView, cfg: NetworkConfig) -> Result<
    StructuredConfigView,
    StartFailure,
> {
    match translated(cfg) {
        Err(e) => Err(StartFailure::Config(e)),
        Ok(config) => if s.instances.dom().contains(config.instance_id) {
            Err(StartFailure::AlreadyRunning)
        } else {
            Ok(config)
        },
    }
}

/// The context after the second step of a start, and what the step
/// answers. An engine that failed leaves the context as it was. An engine
/// that started is registered unless the identifier runs already; the
/// registration marks the telemetry loop active and asks for it to be
/// started where it was inactive.
pub open spec fn registered(
    s: OrchestratorView,
    id: Seq<char>,
    started: Result<InstanceHandle, Seq<char>>,
) -> (OrchestratorView, Result<Registration, StartFailure>) {
    match started {
        Err(message) => (s, Err(StartFailure::Engine(message))),
        Ok(handle) => if s.instances.dom().contains(id) {
            (s, Err(StartFailure::AlreadyRunning))
        } else {
            (
                OrchestratorView { instances: s.instances.insert(id, handle), emitting: true, ..s },
                Ok(Registration { spawn_telemetry: !s.emitting }),
            )
        },
    }
}

/// The context after a stop of `id`, and the handle that the stop hands
/// out for teardown.
pub open spec fn stopped(s: OrchestratorView, id: Seq<char>) -> (
    OrchestratorView,
    Option<InstanceHandle>,
) {
    (
        OrchestratorView { instances: s.instances.remove(id), ..s },
        if s.instances.dom().contains(id) {
            Some(s.instances[id])
        } else {
            None
        },
    )
}

/// What the first step of a start returned, by the characters of its texts.
pub open spec fn admission(r: Result<StructuredConfig, StartError>) -> Result<
    StructuredConfigView,
    StartFailure,
> {
    match r {
        Ok(config) => Ok(config@),
        Err(e) => Err(e@),
    }
}

/// What the host reports of the engine's start, by the characters of its
/// message.
pub open spec fn engine_report(started: Result<InstanceHandle, String>) -> Result<
    InstanceHandle,
    Seq<char>,
> {
    match started {
        Ok(handle) => Ok(handle),
        Err(message) => Err(message@),
    }
}

/// What the second step of a start returned, by the characters of its texts.
pub open spec fn registration(r: Result<Registration, StartError>) -> Result<
    Registration,
    StartFailure,
> {
    match r {
        Ok(done) => Ok(done),
        Err(e) => Err(e@),
    }
}

impl Orchestrator {
    /// A context without instances, with the telemetry loop inactive and
    /// the default interval.
    pub fn new() -> (ctx: Orchestrator)
        ensures
            ctx@ == initial(),
    {
        Orchestrator {
            registry: Registry::new(),
            emitting: false,
            emit_delay: DEFAULT_EMIT_DELAY,
            log_levels: None,
        }
    }

    /// Whether an instance runs under `id`.
    pub fn is_running(&self, id: &str) -> (b: bool)
        ensures
            b == self@.instances.dom().contains(id@),
            b == (phase(self@, id@) == InstancePhase::Running),
    {
        self.registry.contains(id)
    }

    /// Every instance that runs at the moment of the call, for one cycle of
    /// the telemetry loop: each with its identifier and handle, in no
    /// particular order. The context is only read.
    pub fn instances(&self) -> (pairs: Vec<(String, InstanceHandle)>)
        ensures
            lists_entries(pairs@, self@.instances),
            self@.instances.dom().finite(),
            pairs@.len() == self@.instances.dom().len(),
    {
        self.registry.snapshot_iterate()
    }

    /// Whether the telemetry loop is marked active.
    pub fn is_emitting(&self) -> (b: bool)
        ensures
            b == self@.emitting,
    {
        self.emitting
    }

    /// The seconds that the telemetry loop waits between two cycles.
    pub fn emit_delay(&self) -> (secs: u64)
        ensures
            secs == self@.emit_delay,
    {
        self.emit_delay
    }

    /// Sets the seconds between two cycles. A loop that sleeps reads the new
    /// value when it concludes its next cycle.
    pub fn set_emit_delay(&mut self, secs: u64)
        ensures
            final(self)@ == (OrchestratorView { emit_delay: secs, ..old(self)@ }),
    {
        self.emit_delay = secs;
    }

    /// Marks the telemetry loop active if it is inactive, and says whether
    /// it did: of any number of callers that find the loop inactive, one
    /// gets `true` and starts the loop.
    pub fn activate_telemetry(&mut self) -> (won: bool)
        ensures
            won == !old(self)@.emitting,
            final(self)@ == (OrchestratorView { emitting: true, ..old(self)@ }),
    {
        if self.emitting {
            false
        } else {
            self.emitting = true;
            true
        }
    }

    /// Marks the telemetry loop inactive. The loop calls this as its last
    /// act.
    pub fn deactivate_telemetry(&mut self)
        ensures
            final(self)@ == (OrchestratorView { emitting: false, ..old(self)@ }),
    {
        self.emitting = false;
    }

    /// Whether the channel to the log filter has been installed.
    pub fn is_logging(&self) -> (b: bool)
        ensures
            b == self@.logging,
    {
        self.log_levels.is_some()
    }

    /// Installs the channel to the log filter, once: the first call installs
    /// `sender` and says so, every later call leaves the channel that is
    /// there and drops its own.
    pub fn init_logging(&mut self, sender: Sender<String>) -> (installed: bool)
        ensures
            installed == !old(self)@.logging,
            final(self)@ == (OrchestratorView { logging: true, ..old(self)@ }),
    {
        if self.log_levels.is_some() {
            false
        } else {
            self.log_levels = Some(sender);
            true
        }
    }
}

/// The first step of a start: translates the record and refuses an
/// identifier that already runs. The context is only read. On success the
/// host builds an engine instance from the configuration and starts it,
/// then calls `register_instance`.
pub fn run_network_instance(ctx: &Orchestrator, cfg: &NetworkConfig) -> (r: Result<
    StructuredConfig,
    StartError,
>)
    ensures
        admission(r) == admitted(ctx@, *cfg),
{
    match cfg.gen_config() {
        Err(e) => Err(StartError::Config(e)),
        Ok(config) => {
            if ctx.registry.contains(config.instance_id.as_str()) {
                Err(StartError::AlreadyRunning)
            } else {
                Ok(config)
            }
        },
    }
}

/// The second step of a start: takes in how the engine's start went. A
/// failed start is answered with the engine's message and registers
/// nothing. A started instance is registered under `id` and the telemetry
/// loop is marked active; where `id` runs already, nothing changes and the
/// host tears down the instance it has just started.
pub fn register_instance(ctx: &mut Orchestrator, id: String, started: Result<
    InstanceHandle,
    String,
>) -> (r: Result<Registration, StartError>)
    ensures
        final(ctx)@ == registered(old(ctx)@, id@, engine_report(started)).0,
        registration(r) == registered(old(ctx)@, id@, engine_report(started)).1,
{
    match started {
        Err(message) => Err(StartError::Engine(message)),
        Ok(handle) => {
            if ctx.registry.insert_if_absent(id, handle) {
                let spawn_telemetry = ctx.activate_telemetry();
                Ok(Registration { spawn_telemetry })
            } else {
                Err(StartError::AlreadyRunning)
            }
        },
    }
}

/// Stops the instance under `id`: takes it out of the registry and hands
/// its handle to the host, which tears the instance down. An identifier
/// that does not run is no error: the call succeeds and changes nothing.
pub fn stop_network_instance(ctx: &mut Orchestrator, id: &str) -> (r: Result<
    Option<InstanceHandle>,
    StopError,
>)
    ensures
        r is Ok,
        final(ctx)@ == stopped(old(ctx)@, id@).0,
        r->Ok_0 == stopped(old(ctx)@, id@).1,
        !old(ctx)@.instances.dom().contains(id@) ==> final(ctx)@ == old(ctx)@,
{
    let removed = ctx.registry.remove(id);
    Ok(removed)
}

/// Finds the running instance that a tunnel descriptor goes to. The host
/// hands the descriptor to that instance. The context is only read.
pub fn set_tun_fd(ctx: &Orchestrator, instance_id: &str, fd: i32) -> (r: Result<
    TunnelAttachment,
    LookupError,
>)
    ensures
        r == (if ctx@.instances.dom().contains(instance_id@) {
            Ok::<TunnelAttachment, LookupError>(
                TunnelAttachment { handle: ctx@.instances[instance_id@], fd },
            )
        } else {
            Err::<TunnelAttachment, LookupError>(LookupError::NotFound)
        }),
{
    match ctx.registry.get(instance_id) {
        Some(handle) => Ok(TunnelAttachment { handle, fd }),
        None => Err(LookupError::NotFound),
    }
}

/// The message of a failed start for the caller.
pub open spec fn start_message(failure: StartFailure) -> Seq<char> {
    match failure {
        StartFailure::Config(e) => message_head(e.kind) + e.value,
        StartFailure::AlreadyRunning => "instance already exists"@,
        StartFailure::Engine(message) => message,
    }
}

impl StartError {
    /// The message for the caller: that of the failed check, that an
    /// instance already exists, or the engine's own.
    pub fn message(&self) -> (m: String)
        ensures
            m@ == start_message(self@),
    {
        match self {
            StartError::Config(e) => e.message(),
            StartError::AlreadyRunning => String::from_str("instance already exists"),
            StartError::Engine(message) => message.clone(),
        }
    }
}

impl LookupError {
    /// The message for the caller.
    pub fn message(&self) -> (m: &'static str)
        ensures
            m@ == "instance not found"@,
    {
        "instance not found"
    }
}

/// Stopping is idempotent: a second stop of the same identifier finds
/// nothing and changes nothing, and a stop of an identifier that does not
/// run leaves the context as it was.
pub proof fn lemma_stop_idempotent(s: OrchestratorView, id: Seq<char>)
    ensures
        stopped(stopped(s, id).0, id).0 == stopped(s, id).0,
        stopped(stopped(s, id).0, id).1 is None,
        !s.instances.dom().contains(id) ==> stopped(s, id).0 == s && stopped(s, id).1 is None,
{
    assert(s.instances.remove(id).remove(id) =~= s.instances.remove(id));
    if !s.instances.dom().contains(id) {
        assert(s.instances.remove(id) =~= s.instances);
    }
}

/// No identifier is started twice. Of two instances that were started for
/// an identifier that did not run, the first to register is admitted and
/// the second is answered that the identifier runs already; the registry
/// then holds the first under the identifier and one entry more than
/// before, and every later admission of the identifier is refused.
pub proof fn lemma_no_duplicate_start(
    s: OrchestratorView,
    id: Seq<char>,
    first: InstanceHandle,
    second: InstanceHandle,
)
    requires
        !s.instances.dom().contains(id),
    ensures
        registered(s, id, Ok(first)).1 is Ok,
        registered(registered(s, id, Ok(first)).0, id, Ok(second)).1 == Err::<
            Registration,
            StartFailure,
        >(StartFailure::AlreadyRunning),
        registered(registered(s, id, Ok(first)).0, id, Ok(second)).0 == registered(
            s,
            id,
            Ok(first),
        ).0,
        registered(s, id, Ok(first)).0.instances == s.instances.insert(id, first),
        s.instances.dom().finite() ==> registered(s, id, Ok(first)).0.instances.dom().len()
            == s.instances.dom().len() + 1,
        forall|cfg: NetworkConfig|
            translated(cfg) is Ok && translated(cfg)->Ok_0.instance_id == id ==> #[trigger] admitted(
                registered(s, id, Ok(first)).0,
                cfg,
            ) == Err::<StructuredConfigView, StartFailure>(StartFailure::AlreadyRunning),
{
}

/// An engine that fails to start leaves no registration behind.
pub proof fn lemma_failed_start_registers_nothing(
    s: OrchestratorView,
    id: Seq<char>,
    message: Seq<char>,
)
    ensures
        registered(s, id, Err(message)).0 == s,
        registered(s, id, Err(message)).1 == Err::<Registration, StartFailure>(
            StartFailure::Engine(message),
        ),
{
}

/// An identifier runs from its registration to its stop: a registration
/// that is admitted takes it from absent to running, and a stop takes it
/// back to absent, whatever else the registry holds.
pub proof fn lemma_instance_phases(s: OrchestratorView, id: Seq<char>, handle: InstanceHandle)
    requires
        phase(s, id) == InstancePhase::Absent,
    ensures
        phase(registered(s, id, Ok(handle)).0, id) == InstancePhase::Running,
        stopped(registered(s, id, Ok(handle)).0, id).1 == Some(handle),
        phase(stopped(registered(s, id, Ok(handle)).0, id).0, id) == InstancePhase::Absent,
        stopped(registered(s, id, Ok(handle)).0, id).0.instances == s.instances,
{
    assert(s.instances.insert(id, handle).remove(id) =~= s.instances);
}

/// Why a log level was not forwarded.
#[derive(Debug)]
pub enum LogError {
    /// The channel to the log filter was never installed.
    Uninitialized,
    /// The channel did not take the level; its message.
    Closed(String),
}

/// A `LogError` by the characters of its text.
pub enum LogFailure {
    Uninitialized,
    Closed(Seq<char>),
}

impl View for LogError {
    type V = LogFailure;

    open spec fn view(&self) -> LogFailure {
        match self {
            LogError::Uninitialized => LogFailure::Uninitialized,
            LogError::Closed(message) => LogFailure::Closed(message@),
        }
    }
}

/// The message of a level that was not forwarded, for the caller.
pub open spec fn log_message(failure: LogFailure) -> Seq<char> {
    match failure {
        LogFailure::Uninitialized => "log filter is not initialized"@,
        LogFailure::Closed(message) => message,
    }
}

impl LogError {
    /// The message for the caller.
    pub fn message(&self) -> (m: String)
        ensures
            m@ == log_message(self@),
    {
        match self {
            LogError::Uninitialized => String::from_str("log filter is not initialized"),
            LogError::Closed(message) => message.clone(),
        }
    }
}

/// What the channel answered, by the characters of its message.
pub open spec fn channel_answer(sent: Result<(), String>) -> Result<(), Seq<char>> {
    match sent {
        Ok(()) => Ok(()),
        Err(message) => Err(message@),
    }
}

/// What forwarding a level comes to, given what the channel answered: a
/// level that the channel took is forwarded, one that it did not take fails
/// with the channel's message.
pub open spec fn forwarded(sent: Result<(), Seq<char>>) -> Result<(), LogFailure> {
    match sent {
        Ok(()) => Ok(()),
        Err(message) => Err(LogFailure::Closed(message)),
    }
}

/// What a forwarding returned, by the characters of its text.
pub open spec fn forwarding(r: Result<(), LogError>) -> Result<(), LogFailure> {
    match r {
        Ok(()) => Ok(()),
        Err(e) => Err(e@),
    }
}

/// Turns the channel's answer into the result of the forwarding.
pub fn conclude_forwarding(sent: Result<(), String>) -> (r: Result<(), LogError>)
    ensures
        forwarding(r) == forwarded(channel_answer(sent)),
{
    match sent {
        Ok(()) => Ok(()),
        Err(message) => Err(LogError::Closed(message)),
    }
}

/// Forwards a log level to the log filter. Without an installed channel
/// the call fails as uninitialized and sends nothing; with one, the level
/// is handed to the channel, and the call fails only if the channel does
/// not take it.
pub fn set_logging_level(ctx: &Orchestrator, level: String) -> (r: Result<(), LogError>)
    ensures
        !ctx@.logging ==> forwarding(r) == Err::<(), LogFailure>(LogFailure::Uninitialized),
        ctx@.logging ==> r is Ok || forwarding(r)->Err_0 is Closed,
{
    match &ctx.log_levels {
        None => Err(LogError::Uninitialized),
        Some(sender) => conclude_forwarding(channel_send(sender, level)),
    }
}

} // verus!
