//! The session: one observation of one process, from its start to its end.
//!
//! A session decides and a driver acts.  The driver hands the session an
//! [`Event`], the session moves to its next [`Phase`] and answers with the
//! [`Action`] that the driver is to carry out next.  The phases of a tick are
//! `Idle`, `Sampling`, `Recording` and a rest, which is `Sleeping` where the
//! session drives itself and `Idle` where the reporting backend asks for
//! each tick.  `Stopped` is final.  In either mode the session owns what its
//! start has fixed: the identity tags, the instruments, the number of cores
//! and the GPU handle are taken once and never taken again.
//!
//! A tick whose read finds no process is skipped.  Only recording passes
//! that were carried out count against a bound on the iterations, and a
//! bound of zero is no bound.  Whether a session gives up on a process that
//! stays away is a choice of its configuration: with a limit it stops after
//! that many skipped ticks in a row, without one it never does.  A
//! cancellation that arrives during a tick waits for the end of that tick.

use vstd::prelude::*;
use crate::config::{
    interval_from_setting, interval_of, setting_text, ObservationMode, SessionConfig,
};
use crate::error::{ObserverError, StartFailure, StartFailureView};
use crate::gpu::{first_match, init_gpu, GpuHandle, GpuProcess, FIRST_DEVICE};
use crate::identity::{
    build, identity_of, resolution_of, resolve, resolve_current, IdentityAttributes, IdentityView,
    ProcessHandle, ProcessIdentity, ProcessIdentityView,
};
use crate::instrument::{build_instruments, schema, InstrumentSet, InstrumentView};
use crate::observation::{
    conversion_issues, observation_views, plan_recording, recording, Observation, ObservationView,
    ProcessCounters,
};

verus! {

/// Where a session stands.
#[derive(Clone, Copy, Debug, PartialEq, Eq, Structural)]
pub enum Phase {
    /// No tick is under way.
    Idle,
    /// The driver is reading the process.
    Sampling,
    /// The driver is recording the observations of the tick.
    Recording,
    /// The driver is sleeping until the next tick.
    Sleeping,
    /// The session has ended.
    Stopped,
}

/// What a snapshot source is asked to refresh.
#[derive(Clone, Copy, Debug, PartialEq, Eq, Structural)]
pub enum RefreshScope {
    /// Every process.
    All,
    /// The one process with this pid.
    OnlyPid(u32),
}

/// What the driver tells a session.
#[derive(Debug, PartialEq, Eq)]
pub enum Event {
    /// A tick is due: the session has just started, or the reporting backend
    /// asks for values.
    Begin,
    /// The process was read.  The read brings counters and nothing of the
    /// identity of the process, which a session never reads again.
    Sampled {
        /// The counters of the process, or `None` where the snapshot source
        /// no longer finds it.
        counters: Option<ProcessCounters>,
        /// The compute processes of the device that the session asked for,
        /// or `None` where it asked for none or the driver could not list
        /// them.
        compute_processes: Option<Vec<GpuProcess>>,
    },
    /// The observations of the tick were recorded.
    Recorded,
    /// The sleep is over.
    Woke,
    /// The caller wants the session to end.
    Cancel,
}

/// What an [`Event`] stands for.
pub enum EventView {
    /// A tick is due.
    Begin,
    /// The process was read.
    Sampled {
        /// The counters of the process, if it was found.
        counters: Option<ProcessCounters>,
        /// The compute processes of the device, if they were listed.
        compute_processes: Option<Seq<GpuProcess>>,
    },
    /// The observations of the tick were recorded.
    Recorded,
    /// The sleep is over.
    Woke,
    /// The caller wants the session to end.
    Cancel,
}

impl View for Event {
    type V = EventView;

    open spec fn view(&self) -> EventView {
        match self {
            Event::Begin => EventView::Begin,
            Event::Sampled { counters, compute_processes } => EventView::Sampled {
                counters: *counters,
                compute_processes: match compute_processes {
                    Some(processes) => Some(processes@),
                    None => None,
                },
            },
            Event::Recorded => EventView::Recorded,
            Event::Woke => EventView::Woke,
            Event::Cancel => EventView::Cancel,
        }
    }
}

/// What a session asks of the driver.
#[derive(Debug, PartialEq, Eq)]
pub enum Action {
    /// Refresh the snapshot source within `scope`, read the process `pid`,
    /// and list the compute processes of `gpu_device` where one is named.
    /// Answer with [`Event::Sampled`].
    Sample {
        /// The process to read.
        pid: u32,
        /// What to refresh before the read.
        scope: RefreshScope,
        /// The device whose compute processes are wanted, if any.
        gpu_device: Option<u32>,
    },
    /// Record these observations, in this order.  Answer with
    /// [`Event::Recorded`].
    Record {
        /// What to record.
        observations: Vec<Observation>,
    },
    /// Sleep for so many milliseconds.  Answer with [`Event::Woke`].
    Sleep {
        /// The length of the sleep.
        millis: u64,
    },
    /// Hand control back to the reporting backend.  Answer with
    /// [`Event::Begin`] when it asks again.
    Yield,
    /// The event did not call for anything new: go on with what was asked
    /// before.
    Wait,
    /// The session has ended.
    Stop,
}

/// What an [`Action`] stands for.
pub enum ActionView {
    /// Refresh, read the process, list the compute processes.
    Sample {
        /// The process to read.
        pid: u32,
        /// What to refresh before the read.
        scope: RefreshScope,
        /// The device whose compute processes are wanted, if any.
        gpu_device: Option<u32>,
    },
    /// Record these observations, in this order.
    Record {
        /// What to record.
        observations: Seq<ObservationView>,
    },
    /// Sleep for so many milliseconds.
    Sleep {
        /// The length of the sleep.
        millis: u64,
    },
    /// Hand control back to the reporting backend.
    Yield,
    /// Go on with what was asked before.
    Wait,
    /// The session has ended.
    Stop,
}

impl View for Action {
    type V = ActionView;

    open spec fn view(&self) -> ActionView {
        match self {
            Action::Sample { pid, scope, gpu_device } => ActionView::Sample {
                pid: *pid,
                scope: *scope,
                gpu_device: *gpu_device,
            },
            Action::Record { observations } => ActionView::Record {
                observations: observation_views(observations@),
            },
            Action::Sleep { millis } => ActionView::Sleep { millis: *millis },
            Action::Yield => ActionView::Yield,
            Action::Wait => ActionView::Wait,
            Action::Stop => ActionView::Stop,
        }
    }
}

/// The answer of a session to one event.
#[derive(Debug, PartialEq, Eq)]
pub struct Step {
    /// What the driver is to do next.
    pub action: Action,
    /// What went wrong and was passed over: each entry is worth a line in a
    /// log and nothing more.
    pub issues: Vec<ObserverError>,
}

/// What a [`Step`] stands for.
pub struct StepView {
    /// What the driver is to do next.
    pub action: ActionView,
    /// What went wrong and was passed over.
    pub issues: Seq<ObserverError>,
}

impl View for Step {
    type V = StepView;

    open spec fn view(&self) -> StepView {
        StepView { action: self.action@, issues: self.issues@ }
    }
}

/// What the driver has read before a session starts.
#[derive(Clone, Debug, PartialEq, Eq)]
pub struct InitialReadings {
    /// Whether the initial full snapshot holds the process.
    pub listed: bool,
    /// The first read of the process, if it succeeded.
    pub process: Option<ProcessIdentity>,
    /// The number of physical cores, if it is known.
    pub core_count: Option<u32>,
    /// Whether a GPU management interface is present.
    pub gpu_interface: bool,
}

/// What an [`InitialReadings`] stands for.
pub struct InitialReadingsView {
    /// Whether the initial full snapshot holds the process.
    pub listed: bool,
    /// The first read of the process, if it succeeded.
    pub process: Option<ProcessIdentityView>,
    /// The number of physical cores, if it is known.
    pub core_count: Option<u32>,
    /// Whether a GPU management interface is present.
    pub gpu_interface: bool,
}

impl View for InitialReadings {
    type V = InitialReadingsView;

    open spec fn view(&self) -> InitialReadingsView {
        InitialReadingsView {
            listed: self.listed,
            process: match self.process {
                Some(process) => Some(process@),
                None => None,
            },
            core_count: self.core_count,
            gpu_interface: self.gpu_interface,
        }
    }
}

/// One observation of one process.
#[derive(Debug, PartialEq, Eq)]
pub struct Session {
    handle: ProcessHandle,
    identity: IdentityAttributes,
    instruments: InstrumentSet,
    core_count: u32,
    gpu: Option<GpuHandle>,
    config: SessionConfig,
    phase: Phase,
    completed: usize,
    vanished: u32,
    cancel_requested: bool,
}

/// What a [`Session`] stands for.
pub struct SessionView {
    /// The process, as the resolver found it.
    pub handle: ProcessHandle,
    /// The identity tags.
    pub identity: IdentityView,
    /// The instruments.
    pub instruments: Seq<InstrumentView>,
    /// The number of physical cores.
    pub core_count: u32,
    /// The GPU handle, where a GPU management interface was found.
    pub gpu: Option<GpuHandle>,
    /// What was chosen when the session started.
    pub config: SessionConfig,
    /// Where the session stands.
    pub phase: Phase,
    /// The recording passes that were carried out.
    pub completed: usize,
    /// The ticks in a row, up to now, whose read found no process.
    pub vanished: u32,
    /// Whether the caller has asked for the end.
    pub cancel_requested: bool,
}

impl View for Session {
    type V = SessionView;

    closed spec fn view(&self) -> SessionView {
        SessionView {
            handle: self.handle,
            identity: self.identity@,
            instruments: self.instruments@,
            core_count: self.core_count,
            gpu: self.gpu,
            config: self.config,
            phase: self.phase,
            completed: self.completed,
            vanished: self.vanished,
            cancel_requested: self.cancel_requested,
        }
    }
}

/// The counters of a tick with the GPU memory that the session found.
pub open spec fn with_gpu_memory(
    counters: ProcessCounters,
    gpu_memory: Option<u64>,
) -> ProcessCounters {
    ProcessCounters {
        cpu_percent_bits: counters.cpu_percent_bits,
        resident_memory_bytes: counters.resident_memory_bytes,
        virtual_memory_bytes: counters.virtual_memory_bytes,
        disk_read_bytes: counters.disk_read_bytes,
        disk_write_bytes: counters.disk_write_bytes,
        gpu_memory_bytes: gpu_memory,
    }
}

impl SessionView {
    /// A session before its first tick.
    pub open spec fn fresh(
        handle: ProcessHandle,
        identity: IdentityView,
        core_count: u32,
        gpu: Option<GpuHandle>,
        config: SessionConfig,
    ) -> SessionView {
        SessionView {
            handle,
            identity,
            instruments: schema(),
            core_count,
            gpu,
            config,
            phase: Phase::Idle,
            completed: 0,
            vanished: 0,
            cancel_requested: false,
        }
    }

    /// What holds of every session that was started and then driven by
    /// events.
    pub open spec fn well_formed(self) -> bool {
        &&& self.handle.resolved()
        &&& self.handle.pid_value() == self.identity.pid
        &&& self.instruments == schema()
        &&& (self.gpu matches Some(handle) ==> handle.device() == FIRST_DEVICE)
        &&& (self.phase is Idle || self.phase is Sleeping ==> !self.cancel_requested)
        &&& (self.phase is Stopped ==> self.cancel_requested || self.budget_spent(self.completed)
            || self.patience_spent(self.vanished))
        &&& (self.config.iterations matches Some(bound) ==> bound > 0 ==> self.completed
            <= bound)
        &&& (self.phase !is Stopped ==> !self.budget_spent(self.completed)
            && !self.patience_spent(self.vanished))
    }

    /// Whether `completed` recording passes use up the bound on the
    /// iterations.  Without a bound, or with a bound of zero, nothing does.
    pub open spec fn budget_spent(self, completed: usize) -> bool {
        self.config.iterations matches Some(bound) && bound > 0 && completed >= bound
    }

    /// Whether `vanished` skipped ticks in a row are as many as the session
    /// puts up with.  Without a limit, or with a limit of zero, no number
    /// is.
    pub open spec fn patience_spent(self, vanished: u32) -> bool {
        self.config.vanished_limit matches Some(limit) && limit > 0 && vanished >= limit
    }

    /// The count of skipped ticks in a row after one more.
    pub open spec fn misses_after(self) -> u32 {
        if self.vanished < u32::MAX {
            (self.vanished + 1) as u32
        } else {
            self.vanished
        }
    }

    /// The count of recording passes after one more.
    pub open spec fn passes_after(self) -> usize {
        if self.completed < usize::MAX {
            (self.completed + 1) as usize
        } else {
            self.completed
        }
    }

    /// The request for the read of one tick: the one process is refreshed
    /// and read, and the compute processes of the first device are wanted
    /// where the session has a GPU handle.
    pub open spec fn sample_action(self) -> ActionView {
        ActionView::Sample {
            pid: self.identity.pid,
            scope: RefreshScope::OnlyPid(self.identity.pid),
            gpu_device: match self.gpu {
                Some(handle) => Some(handle.device()),
                None => None,
            },
        }
    }

    /// Where a session rests between two ticks.
    pub open spec fn rest_phase(self) -> Phase {
        match self.config.mode {
            ObservationMode::Push { .. } => Phase::Sleeping,
            ObservationMode::Pull => Phase::Idle,
        }
    }

    /// What a session asks for when it rests.
    pub open spec fn rest_action(self) -> ActionView {
        match self.config.mode {
            ObservationMode::Push { interval_ms } => ActionView::Sleep { millis: interval_ms },
            ObservationMode::Pull => ActionView::Yield,
        }
    }

    /// The GPU memory of the process at one tick: what the compute processes
    /// say, where the session has a GPU handle and they were listed.
    pub open spec fn gpu_memory(self, compute_processes: Option<Seq<GpuProcess>>) -> Option<u64> {
        match (self.gpu, compute_processes) {
            (Some(_), Some(processes)) => first_match(self.identity.pid, processes),
            _ => None,
        }
    }

    /// What a recording pass reports about the GPU: that there is none,
    /// where the session has no GPU handle.
    pub open spec fn gpu_issues(self) -> Seq<ObserverError> {
        match self.gpu {
            Some(_) => Seq::empty(),
            None => seq![ObserverError::GpuUnavailable],
        }
    }

    /// The session in another phase.
    pub open spec fn in_phase(self, phase: Phase) -> SessionView {
        SessionView { phase, ..self }
    }

    /// The session after the caller has asked for its end.
    pub open spec fn cancelled(self) -> SessionView {
        SessionView { cancel_requested: true, ..self }
    }

    /// The session at the end of a tick: at rest, or stopped where the
    /// caller has asked for the end.
    pub open spec fn rested(self) -> (SessionView, ActionView) {
        if self.cancel_requested {
            (self.in_phase(Phase::Stopped), ActionView::Stop)
        } else {
            (self.in_phase(self.rest_phase()), self.rest_action())
        }
    }

    /// The session after one more recording pass: stopped where the pass
    /// used up the bound, else as at the end of any tick.
    pub open spec fn recorded(self) -> (SessionView, ActionView) {
        let counted = SessionView { completed: self.passes_after(), ..self };
        if counted.budget_spent(counted.completed) {
            (counted.in_phase(Phase::Stopped), ActionView::Stop)
        } else {
            counted.rested()
        }
    }

    /// The session after a tick that was skipped: stopped where the skipped
    /// ticks in a row have reached the limit, else as at the end of any
    /// tick.
    pub open spec fn skipped(self) -> (SessionView, ActionView) {
        let missed = SessionView { vanished: self.misses_after(), ..self };
        if missed.patience_spent(missed.vanished) {
            (missed.in_phase(Phase::Stopped), ActionView::Stop)
        } else {
            missed.rested()
        }
    }

    /// The session after the read of a tick.  With counters the tick goes
    /// on to its recording pass, which holds all that [`recording`] lists for
    /// the counters and the GPU memory of the same tick.  Without counters
    /// the tick is skipped.
    pub open spec fn sampled(
        self,
        counters: Option<ProcessCounters>,
        compute_processes: Option<Seq<GpuProcess>>,
    ) -> (SessionView, StepView) {
        match counters {
            Some(read) => {
                let counters = with_gpu_memory(read, self.gpu_memory(compute_processes));
                (
                    SessionView { vanished: 0, ..self }.in_phase(Phase::Recording),
                    StepView {
                        action: ActionView::Record {
                            observations: recording(self.identity, self.core_count, counters),
                        },
                        issues: conversion_issues(counters) + self.gpu_issues(),
                    },
                )
            },
            None => {
                let (session, action) = self.skipped();
                (session, StepView { action, issues: seq![ObserverError::TickReadFailure] })
            },
        }
    }

    /// The session after one event, and its answer to the event.
    pub open spec fn step(self, event: EventView) -> (SessionView, StepView) {
        let quiet = |action: ActionView| StepView { action, issues: Seq::empty() };
        match (self.phase, event) {
            (Phase::Stopped, _) => (self, quiet(ActionView::Stop)),
            (Phase::Idle, EventView::Begin) => (
                self.in_phase(Phase::Sampling),
                quiet(self.sample_action()),
            ),
            (Phase::Sleeping, EventView::Woke) => (
                self.in_phase(Phase::Sampling),
                quiet(self.sample_action()),
            ),
            (Phase::Idle, EventView::Cancel) => (
                self.cancelled().in_phase(Phase::Stopped),
                quiet(ActionView::Stop),
            ),
            (Phase::Sleeping, EventView::Cancel) => (
                self.cancelled().in_phase(Phase::Stopped),
                quiet(ActionView::Stop),
            ),
            (Phase::Sampling, EventView::Sampled { counters, compute_processes }) => self.sampled(
                counters,
                compute_processes,
            ),
            (Phase::Recording, EventView::Recorded) => {
                let (session, action) = self.recorded();
                (session, quiet(action))
            },
            (Phase::Sampling, EventView::Cancel) => (self.cancelled(), quiet(ActionView::Wait)),
            (Phase::Recording, EventView::Cancel) => (self.cancelled(), quiet(ActionView::Wait)),
            _ => (self, quiet(ActionView::Wait)),
        }
    }

    /// The session after a run of events.
    pub open spec fn run(self, events: Seq<EventView>) -> SessionView
        decreases events.len(),
    {
        if events.len() == 0 {
            self
        } else {
            self.run(events.drop_last()).step(events.last()).0
        }
    }
}

/// The GPU handle that a session has: one where a GPU management interface
/// is present, none where it is not.
pub open spec fn gpu_of(interface_present: bool) -> Option<GpuHandle> {
    if interface_present {
        Some(GpuHandle::first_device())
    } else {
        None
    }
}

/// What the report of the operating system on the pid of the calling
/// process stands for: the pid, or the reason why there is none.
pub open spec fn report_view(reported: Result<u32, String>) -> Result<u32, Seq<char>> {
    match reported {
        Ok(pid) => Ok(pid),
        Err(reason) => Err(reason@),
    }
}

/// What the resolver makes of a pid at a start: its handle, or the failure
/// to find the process.
pub open spec fn pid_resolution(pid: u32, listed: bool) -> Result<ProcessHandle, StartFailureView> {
    match resolution_of(Some(pid), listed) {
        Ok(handle) => Ok(handle),
        Err(kind) => Err(StartFailureView::of(kind)),
    }
}

/// What the resolver makes of the calling process at a start.  Where the
/// operating system gave no pid, no process is found, and the failure holds
/// the reason that the operating system gave.
pub open spec fn current_resolution(
    reported: Result<u32, Seq<char>>,
    listed: bool,
) -> Result<ProcessHandle, StartFailureView> {
    match reported {
        Ok(pid) => pid_resolution(pid, listed),
        Err(reason) => Err(StartFailureView::no_current_pid(reason)),
    }
}

/// How a start ends: in a session or in the failure that prevents it.
///
/// The resolver comes first, the number of cores second, the identity tags
/// third.  Where one of them fails, the start ends with its failure and
/// nothing is created.
pub open spec fn started(
    resolution: Result<ProcessHandle, StartFailureView>,
    readings: InitialReadingsView,
    config: SessionConfig,
) -> Result<SessionView, StartFailureView> {
    match resolution {
        Err(failure) => Err(failure),
        Ok(handle) => match (readings.core_count, readings.process) {
            (None, _) => Err(StartFailureView::of(ObserverError::CoreCountUnavailable)),
            (Some(_), None) => Err(StartFailureView::of(ObserverError::IdentityUnavailable)),
            (Some(core_count), Some(process)) => Ok(
                SessionView::fresh(
                    handle,
                    identity_of(handle.pid_value(), process),
                    core_count,
                    gpu_of(readings.gpu_interface),
                    config,
                ),
            ),
        },
    }
}

/// What the outcome of a start stands for.
pub open spec fn outcome_view(outcome: Result<Session, StartFailure>) -> Result<
    SessionView,
    StartFailureView,
> {
    match outcome {
        Ok(session) => Ok(session@),
        Err(failure) => Err(failure@),
    }
}

/// Starts a session for a process that the resolver has found.
///
/// The number of cores is looked at before all else: where it is unknown,
/// the start fails with [`ObserverError::CoreCountUnavailable`], whatever
/// else was read.  Then the identity tags are built from the first read of
/// the process, and the session keeps them as they are until it ends; where
/// that read is missing, the start fails with
/// [`ObserverError::IdentityUnavailable`].  A missing GPU management
/// interface fails nothing.  The instruments are created last, so a start
/// that fails has created none.  The line of a failure is the line of its
/// kind.
pub fn register_metrics(
    handle: ProcessHandle,
    readings: &InitialReadings,
    config: SessionConfig,
) -> (outcome: Result<Session, StartFailure>)
    ensures
        outcome_view(outcome) == started(
            Ok::<ProcessHandle, StartFailureView>(handle),
            readings@,
            config,
        ),
        outcome is Ok <==> readings.core_count is Some && readings.process is Some,
        outcome matches Err(failure) ==> failure@ == StartFailureView::of(failure.kind),
        outcome matches Err(failure) ==> (failure.kind == ObserverError::CoreCountUnavailable
            <==> readings.core_count is None),
        outcome matches Err(failure) ==> (failure.kind == ObserverError::IdentityUnavailable
            <==> readings.core_count is Some && readings.process is None),
        outcome matches Ok(session) ==> session@.identity.pid == handle.pid_value(),
        outcome matches Ok(session) ==> handle.resolved() ==> session@.well_formed(),
{
    let core_count = match readings.core_count {
        Some(core_count) => core_count,
        None => {
            return Err(StartFailure::of(ObserverError::CoreCountUnavailable));
        },
    };
    let identity = match build(&handle, readings.process.as_ref()) {
        Ok(identity) => identity,
        Err(kind) => {
            return Err(StartFailure::of(kind));
        },
    };
    let gpu = match init_gpu(readings.gpu_interface) {
        Ok(gpu) => Some(gpu),
        Err(_) => None,
    };
    let instruments = build_instruments();
    Ok(
        Session {
            handle,
            identity,
            instruments,
            core_count,
            gpu,
            config,
            phase: Phase::Idle,
            completed: 0,
            vanished: 0,
            cancel_requested: false,
        },
    )
}

/// The configuration of a session that drives itself: it sleeps for the
/// interval of `interval_setting` between two ticks and never gives up on
/// its process.
fn pushing(interval_setting: Option<&str>, iterations: Option<usize>) -> (config: SessionConfig)
    ensures
        config == SessionConfig::pushing(interval_of(setting_text(interval_setting)), iterations),
{
    SessionConfig {
        mode: ObservationMode::Push { interval_ms: interval_from_setting(interval_setting) },
        iterations,
        vanished_limit: None,
    }
}

/// Starts a session for the calling process with a configuration.
fn start_current(
    reported: Result<u32, String>,
    readings: &InitialReadings,
    config: SessionConfig,
) -> (outcome: Result<Session, StartFailure>)
    ensures
        outcome_view(outcome) == started(
            current_resolution(report_view(reported), readings.listed),
            readings@,
            config,
        ),
        outcome is Ok <==> reported is Ok && readings.listed && readings.core_count is Some
            && readings.process is Some,
        outcome matches Err(failure) ==> (failure.kind == ObserverError::ProcessNotFound
            <==> reported is Err || !readings.listed),
        reported matches Err(reason) ==> outcome matches Err(failure) && failure@
            == StartFailureView::no_current_pid(reason@),
        outcome matches Ok(session) ==> reported == Ok::<u32, String>(session@.identity.pid),
        outcome matches Ok(session) ==> session@.well_formed(),
{
    match reported {
        Ok(pid) => match resolve_current(Some(pid), readings.listed) {
            Ok(handle) => register_metrics(handle, readings, config),
            Err(kind) => Err(StartFailure::of(kind)),
        },
        Err(reason) => Err(StartFailure::no_current_pid(reason.as_str())),
    }
}

/// Starts an unbounded session for the calling process, which sleeps for
/// the interval of `interval_setting` between two ticks.
///
/// `reported` is what the operating system gives for the calling process:
/// its pid, or the reason why there is none.  `readings` is what the driver
/// has read about that pid.  Where no pid is reported, the start fails with
/// [`ObserverError::ProcessNotFound`] and a line that holds the reason.
/// Where the initial full snapshot does not hold the pid, it fails with
/// [`ObserverError::ProcessNotFound`] too.  Otherwise it fails as
/// [`register_metrics`] does.
pub fn init_process_observer(
    reported: Result<u32, String>,
    readings: &InitialReadings,
    interval_setting: Option<&str>,
) -> (outcome: Result<Session, StartFailure>)
    ensures
        outcome_view(outcome) == started(
            current_resolution(report_view(reported), readings.listed),
            readings@,
            SessionConfig::pushing(interval_of(setting_text(interval_setting)), None),
        ),
        outcome is Ok <==> reported is Ok && readings.listed && readings.core_count is Some
            && readings.process is Some,
        outcome matches Err(failure) ==> (failure.kind == ObserverError::ProcessNotFound
            <==> reported is Err || !readings.listed),
        reported matches Err(reason) ==> outcome matches Err(failure) && failure@
            == StartFailureView::no_current_pid(reason@),
        outcome matches Ok(session) ==> reported == Ok::<u32, String>(session@.identity.pid),
        outcome matches Ok(session) ==> session@.well_formed(),
{
    start_current(reported, readings, pushing(interval_setting, None))
}

/// Starts an unbounded session for the process `pid`, which sleeps for the
/// interval of `interval_setting` between two ticks.
///
/// `readings` is what the driver has read about that pid.  The start fails
/// with [`ObserverError::ProcessNotFound`] where the initial full snapshot
/// does not hold the pid, and otherwise as [`register_metrics`] does.
pub fn init_process_observer_for_pid(
    pid: u32,
    readings: &InitialReadings,
    interval_setting: Option<&str>,
) -> (outcome: Result<Session, StartFailure>)
    ensures
        outcome_view(outcome) == started(
            pid_resolution(pid, readings.listed),
            readings@,
            SessionConfig::pushing(interval_of(setting_text(interval_setting)), None),
        ),
        outcome is Ok <==> readings.listed && readings.core_count is Some
            && readings.process is Some,
        outcome matches Err(failure) ==> failure@ == StartFailureView::of(failure.kind),
        outcome matches Err(failure) ==> (failure.kind == ObserverError::ProcessNotFound
            <==> !readings.listed),
        outcome matches Ok(session) ==> session@.identity.pid == pid,
        outcome matches Ok(session) ==> session@.well_formed(),
{
    match resolve(pid, readings.listed) {
        Ok(handle) => register_metrics(handle, readings, pushing(interval_setting, None)),
        Err(kind) => Err(StartFailure::of(kind)),
    }
}

/// Starts a session for the calling process that ends after one recording
/// pass.
///
/// It starts and fails as [`init_process_observer`] does.
pub fn init_process_observer_once(
    reported: Result<u32, String>,
    readings: &InitialReadings,
    interval_setting: Option<&str>,
) -> (outcome: Result<Session, StartFailure>)
    ensures
        outcome_view(outcome) == started(
            current_resolution(report_view(reported), readings.listed),
            readings@,
            SessionConfig::pushing(interval_of(setting_text(interval_setting)), Some(1usize)),
        ),
        outcome is Ok <==> reported is Ok && readings.listed && readings.core_count is Some
            && readings.process is Some,
        outcome matches Err(failure) ==> (failure.kind == ObserverError::ProcessNotFound
            <==> reported is Err || !readings.listed),
        reported matches Err(reason) ==> outcome matches Err(failure) && failure@
            == StartFailureView::no_current_pid(reason@),
        outcome matches Ok(session) ==> reported == Ok::<u32, String>(session@.identity.pid),
        outcome matches Ok(session) ==> session@.well_formed(),
{
    start_current(reported, readings, pushing(interval_setting, Some(1)))
}

impl Session {
    /// The request for the read of one tick.
    fn sample_request(&self) -> (action: Action)
        ensures
            action@ == self@.sample_action(),
    {
        let pid = self.identity.pid();
        let gpu_device = match &self.gpu {
            Some(handle) => Some(handle.device_index()),
            None => None,
        };
        Action::Sample { pid, scope: RefreshScope::OnlyPid(pid), gpu_device }
    }

    /// Ends a tick: the session rests, or stops where the caller has asked
    /// for its end.
    fn rest(&mut self) -> (action: Action)
        ensures
            (final(self)@, action@) == old(self)@.rested(),
    {
        if self.cancel_requested {
            self.phase = Phase::Stopped;
            Action::Stop
        } else {
            match self.config.mode {
                ObservationMode::Push { interval_ms } => {
                    self.phase = Phase::Sleeping;
                    Action::Sleep { millis: interval_ms }
                },
                ObservationMode::Pull => {
                    self.phase = Phase::Idle;
                    Action::Yield
                },
            }
        }
    }

    /// Counts one recording pass and ends the tick.
    fn count_pass(&mut self) -> (action: Action)
        ensures
            (final(self)@, action@) == old(self)@.recorded(),
    {
        if self.completed < usize::MAX {
            self.completed = self.completed + 1;
        }
        let spent = match self.config.iterations {
            Some(bound) => bound > 0 && self.completed >= bound,
            None => false,
        };
        if spent {
            self.phase = Phase::Stopped;
            Action::Stop
        } else {
            self.rest()
        }
    }

    /// Counts one skipped tick and ends the tick.
    fn count_miss(&mut self) -> (action: Action)
        ensures
            (final(self)@, action@) == old(self)@.skipped(),
    {
        if self.vanished < u32::MAX {
            self.vanished = self.vanished + 1;
        }
        let spent = match self.config.vanished_limit {
            Some(limit) => limit > 0 && self.vanished >= limit,
            None => false,
        };
        if spent {
            self.phase = Phase::Stopped;
            Action::Stop
        } else {
            self.rest()
        }
    }

    /// Takes in the read of one tick.
    fn take_sample(
        &mut self,
        counters: Option<ProcessCounters>,
        compute_processes: Option<Vec<GpuProcess>>,
    ) -> (step: Step)
        ensures
            (final(self)@, step@) == old(self)@.sampled(
                counters,
                match compute_processes {
                    Some(processes) => Some(processes@),
                    None => None,
                },
            ),
    {
        match counters {
            Some(read) => {
                let gpu_memory = match (&self.gpu, &compute_processes) {
                    (Some(handle), Some(processes)) => handle.sample(
                        self.identity.pid(),
                        processes,
                    ),
                    _ => None,
                };
                let counters = ProcessCounters {
                    cpu_percent_bits: read.cpu_percent_bits,
                    resident_memory_bytes: read.resident_memory_bytes,
                    virtual_memory_bytes: read.virtual_memory_bytes,
                    disk_read_bytes: read.disk_read_bytes,
                    disk_write_bytes: read.disk_write_bytes,
                    gpu_memory_bytes: gpu_memory,
                };
                let plan = plan_recording(&self.identity, self.core_count, &counters);
                let mut issues = plan.issues;
                if self.gpu.is_none() {
                    proof {
                        assert(issues@.push(ObserverError::GpuUnavailable) =~= issues@ + seq![
                            ObserverError::GpuUnavailable,
                        ]);
                    }
                    issues.push(ObserverError::GpuUnavailable);
                } else {
                    proof {
                        assert(issues@ =~= issues@ + Seq::<ObserverError>::empty());
                    }
                }
                self.vanished = 0;
                self.phase = Phase::Recording;
                Step { action: Action::Record { observations: plan.observations }, issues }
            },
            None => {
                let action = self.count_miss();
                let mut issues: Vec<ObserverError> = Vec::new();
                issues.push(ObserverError::TickReadFailure);
                proof {
                    assert(issues@ =~= seq![ObserverError::TickReadFailure]);
                }
                Step { action, issues }
            },
        }
    }

    /// Takes in one event and answers with what the driver is to do next.
    ///
    /// Every event is answered in every phase.  One that the phase does not
    /// wait for changes nothing and is answered with [`Action::Wait`], and a
    /// session that has stopped answers every event with [`Action::Stop`].
    pub fn step(&mut self, event: Event) -> (step: Step)
        ensures
            (final(self)@, step@) == old(self)@.step(event@),
            old(self)@.well_formed() ==> final(self)@.well_formed(),
    {
        let quiet: Vec<ObserverError> = Vec::new();
        match self.phase {
            Phase::Stopped => Step { action: Action::Stop, issues: quiet },
            Phase::Idle => match event {
                Event::Begin => {
                    let action = self.sample_request();
                    self.phase = Phase::Sampling;
                    Step { action, issues: quiet }
                },
                Event::Cancel => {
                    self.cancel_requested = true;
                    self.phase = Phase::Stopped;
                    Step { action: Action::Stop, issues: quiet }
                },
                _ => Step { action: Action::Wait, issues: quiet },
            },
            Phase::Sleeping => match event {
                Event::Woke => {
                    let action = self.sample_request();
                    self.phase = Phase::Sampling;
                    Step { action, issues: quiet }
                },
                Event::Cancel => {
                    self.cancel_requested = true;
                    self.phase = Phase::Stopped;
                    Step { action: Action::Stop, issues: quiet }
                },
                _ => Step { action: Action::Wait, issues: quiet },
            },
            Phase::Sampling => match event {
                Event::Sampled { counters, compute_processes } => self.take_sample(
                    counters,
                    compute_processes,
                ),
                Event::Cancel => {
                    self.cancel_requested = true;
                    Step { action: Action::Wait, issues: quiet }
                },
                _ => Step { action: Action::Wait, issues: quiet },
            },
            Phase::Recording => match event {
                Event::Recorded => {
                    let action = self.count_pass();
                    Step { action, issues: quiet }
                },
                Event::Cancel => {
                    self.cancel_requested = true;
                    Step { action: Action::Wait, issues: quiet }
                },
                _ => Step { action: Action::Wait, issues: quiet },
            },
        }
    }

    /// The process, as the resolver found it.
    pub fn handle(&self) -> (handle: ProcessHandle)
        ensures
            handle == self@.handle,
    {
        self.handle
    }

    /// The identity tags.
    pub fn identity(&self) -> (identity: &IdentityAttributes)
        ensures
            identity@ == self@.identity,
    {
        &self.identity
    }

    /// The instruments.
    pub fn instruments(&self) -> (instruments: &InstrumentSet)
        ensures
            instruments@ == self@.instruments,
    {
        &self.instruments
    }

    /// The number of physical cores.
    pub fn core_count(&self) -> (core_count: u32)
        ensures
            core_count == self@.core_count,
    {
        self.core_count
    }

    /// The GPU handle, where a GPU management interface was found.
    pub fn gpu(&self) -> (gpu: Option<GpuHandle>)
        ensures
            gpu == self@.gpu,
    {
        self.gpu
    }

    /// What was chosen when the session started.
    pub fn config(&self) -> (config: SessionConfig)
        ensures
            config == self@.config,
    {
        self.config
    }

    /// How ticks come about.
    pub fn mode(&self) -> (mode: ObservationMode)
        ensures
            mode == self@.config.mode,
    {
        self.config.mode
    }

    /// The bound on the recording passes, if there is one.
    pub fn iterations(&self) -> (iterations: Option<usize>)
        ensures
            iterations == self@.config.iterations,
    {
        self.config.iterations
    }

    /// The ticks in a row, up to now, whose read found no process.
    pub fn vanished(&self) -> (vanished: u32)
        ensures
            vanished == self@.vanished,
    {
        self.vanished
    }

    /// Where the session stands.
    pub fn phase(&self) -> (phase: Phase)
        ensures
            phase == self@.phase,
    {
        self.phase
    }

    /// The recording passes that were carried out.
    pub fn completed(&self) -> (completed: usize)
        ensures
            completed == self@.completed,
    {
        self.completed
    }

    /// Whether the caller has asked for the end.
    pub fn cancel_requested(&self) -> (requested: bool)
        ensures
            requested == self@.cancel_requested,
    {
        self.cancel_requested
    }

    /// Whether the session has ended.
    pub fn is_stopped(&self) -> (stopped: bool)
        ensures
            stopped == (self@.phase is Stopped),
    {
        match self.phase {
            Phase::Stopped => true,
            _ => false,
        }
    }
}

} // verus!
