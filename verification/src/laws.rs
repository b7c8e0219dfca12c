//! What holds of every session, stated over the models of the other modules
//! and proved from them.

use vstd::prelude::*;
use crate::attribute::{AttributeKey, AttributeValueView, AttributeView, Direction};
use crate::config::SessionConfig;
use crate::error::{ObserverError, StartFailureView};
use crate::gpu::{first_match, GpuHandle, GpuProcess};
use crate::identity::{directed_tags, identity_tags, IdentityView, ProcessHandle};
use crate::instrument::{schema, InstrumentId, InstrumentView};
use crate::observation::{
    cpu_usage_observation, cpu_utilization_observation, disk_observation, gpu_observation,
    recording, resident_observation, virtual_observation, Measurement, ObservationView,
    ProcessCounters,
};
use crate::session::{
    current_resolution, pid_resolution, started, with_gpu_memory, ActionView, EventView,
    InitialReadingsView, SessionView,
};

verus! {

/// Whether two sessions agree in all that a start fixes: the process, the
/// identity tags, the instruments, the number of cores, the GPU handle and
/// the configuration.
pub open spec fn same_setup(first: SessionView, second: SessionView) -> bool {
    &&& first.handle == second.handle
    &&& first.identity == second.identity
    &&& first.instruments == second.instruments
    &&& first.core_count == second.core_count
    &&& first.gpu == second.gpu
    &&& first.config == second.config
}

/// The instruments that a start has created: those of its session, and none
/// where it failed.
pub open spec fn instruments_created(outcome: Result<SessionView, StartFailureView>) -> Seq<
    InstrumentView,
> {
    match outcome {
        Ok(session) => session.instruments,
        Err(_) => Seq::empty(),
    }
}

/// The tags that a recording pass may put on an observation of a gauge: none
/// on the CPU usage, the identity tags and a direction on disk bytes, the
/// identity tags on all else.
pub open spec fn tags_allowed(
    identity: IdentityView,
    instrument: InstrumentId,
    tags: Seq<AttributeView>,
) -> bool {
    match instrument {
        InstrumentId::CpuUsage => tags == Seq::<AttributeView>::empty(),
        InstrumentId::DiskIo => tags == directed_tags(identity, Direction::Read) || tags
            == directed_tags(identity, Direction::Write),
        _ => tags == identity_tags(identity),
    }
}

/// Every observation of a recording pass is one of seven: the two of the
/// CPU, the four of the counters that are narrowed, and the one of the GPU.
pub proof fn lemma_recording_members(
    identity: IdentityView,
    core_count: u32,
    counters: ProcessCounters,
    position: int,
)
    requires
        0 <= position < recording(identity, core_count, counters).len(),
    ensures
        ({
            let observation = recording(identity, core_count, counters)[position];
            ||| observation == cpu_usage_observation(counters)
            ||| observation == cpu_utilization_observation(identity, core_count, counters)
            ||| resident_observation(identity, counters) == seq![observation]
            ||| virtual_observation(identity, counters) == seq![observation]
            ||| disk_observation(identity, counters, Direction::Read) == seq![observation]
            ||| disk_observation(identity, counters, Direction::Write) == seq![observation]
            ||| observation == gpu_observation(identity, counters)
        }),
{
    let cpu = seq![
        cpu_usage_observation(counters),
        cpu_utilization_observation(identity, core_count, counters),
    ];
    let resident = resident_observation(identity, counters);
    let virtual_memory = virtual_observation(identity, counters);
    let read = disk_observation(identity, counters, Direction::Read);
    let written = disk_observation(identity, counters, Direction::Write);
    let observation = recording(identity, core_count, counters)[position];
    if position < cpu.len() {
    } else if position < (cpu + resident).len() {
        assert(resident =~= seq![observation]);
    } else if position < (cpu + resident + virtual_memory).len() {
        assert(virtual_memory =~= seq![observation]);
    } else if position < (cpu + resident + virtual_memory + read).len() {
        assert(read =~= seq![observation]);
    } else if position < (cpu + resident + virtual_memory + read + written).len() {
        assert(written =~= seq![observation]);
    } else {
    }
}

/// The identity tags of a session never change: whatever events arrive and
/// whatever they hold, the session keeps the identity, the instruments and
/// all else that its start has fixed.
pub proof fn lemma_setup_never_changes(session: SessionView, events: Seq<EventView>)
    ensures
        same_setup(session.run(events), session),
    decreases events.len(),
{
    if events.len() > 0 {
        lemma_setup_never_changes(session, events.drop_last());
    }
}

/// Whatever a session records, at any time, carries the tags that were built
/// when it started: no tags on the CPU usage, the identity tags and a
/// direction on disk bytes, the identity tags on all else.
pub proof fn lemma_recorded_tags_are_those_of_the_start(
    session: SessionView,
    events: Seq<EventView>,
    event: EventView,
    position: int,
)
    requires
        session.run(events).step(event).1.action matches ActionView::Record { observations }
            && 0 <= position < observations.len(),
    ensures
        session.run(events).step(event).1.action matches ActionView::Record { observations }
            && tags_allowed(
            session.identity,
            observations[position].instrument,
            observations[position].attributes,
        ),
{
    lemma_setup_never_changes(session, events);
    let now = session.run(events);
    match event {
        EventView::Sampled { counters, compute_processes } => {
            let counters = with_gpu_memory(counters->0, now.gpu_memory(compute_processes));
            lemma_recording_members(now.identity, now.core_count, counters, position);
        },
        _ => {},
    }
}

/// The two observations of disk bytes carry the same tags but for the
/// `direction` tag, which is the last of each: `read` on the one and `write`
/// on the other.
pub proof fn lemma_disk_tags_differ_in_direction_only(identity: IdentityView)
    ensures
        directed_tags(identity, Direction::Read).drop_last() == identity_tags(identity),
        directed_tags(identity, Direction::Write).drop_last() == identity_tags(identity),
        directed_tags(identity, Direction::Read).last() == (AttributeView {
            key: AttributeKey::Direction,
            value: AttributeValueView::Text("read"@),
        }),
        directed_tags(identity, Direction::Write).last() == (AttributeView {
            key: AttributeKey::Direction,
            value: AttributeValueView::Text("write"@),
        }),
        directed_tags(identity, Direction::Read) != directed_tags(identity, Direction::Write),
        forall|i: int|
            0 <= i < identity_tags(identity).len() ==> #[trigger] identity_tags(identity)[i].key
                != AttributeKey::Direction,
{
    assert(directed_tags(identity, Direction::Read).drop_last() =~= identity_tags(identity));
    assert(directed_tags(identity, Direction::Write).drop_last() =~= identity_tags(identity));
    reveal_strlit("read");
    reveal_strlit("write");
    assert("read"@.len() != "write"@.len());
}

/// At every tick, any two observations of disk bytes carry the same tags but
/// for their last tag, and the last tag of each is its direction.
pub proof fn lemma_disk_observations_share_their_tags(
    identity: IdentityView,
    core_count: u32,
    counters: ProcessCounters,
    first: int,
    second: int,
)
    requires
        0 <= first < recording(identity, core_count, counters).len(),
        0 <= second < recording(identity, core_count, counters).len(),
        recording(identity, core_count, counters)[first].instrument == InstrumentId::DiskIo,
        recording(identity, core_count, counters)[second].instrument == InstrumentId::DiskIo,
    ensures
        ({
            let one = recording(identity, core_count, counters)[first].attributes;
            let other = recording(identity, core_count, counters)[second].attributes;
            &&& one.len() > 0
            &&& other.len() > 0
            &&& one.drop_last() == other.drop_last()
            &&& one.drop_last() == identity_tags(identity)
            &&& one.last().key == AttributeKey::Direction
            &&& other.last().key == AttributeKey::Direction
        }),
{
    lemma_recording_members(identity, core_count, counters, first);
    lemma_recording_members(identity, core_count, counters, second);
    lemma_disk_tags_differ_in_direction_only(identity);
    let one = recording(identity, core_count, counters)[first];
    let other = recording(identity, core_count, counters)[second];
    lemma_signed_observation_keeps_its_gauge(one, identity, counters);
    lemma_signed_observation_keeps_its_gauge(other, identity, counters);
}

/// An observation that is the one of a narrowed counter is of the gauge of
/// that counter, holds a signed value, and carries the tags of that gauge.
proof fn lemma_signed_observation_keeps_its_gauge(
    observation: ObservationView,
    identity: IdentityView,
    counters: ProcessCounters,
)
    ensures
        resident_observation(identity, counters) == seq![observation] ==> observation.instrument
            == InstrumentId::MemoryUsage && observation.attributes == identity_tags(identity)
            && observation.value is Signed,
        virtual_observation(identity, counters) == seq![observation] ==> observation.instrument
            == InstrumentId::MemoryVirtual && observation.attributes == identity_tags(identity)
            && observation.value is Signed,
        forall|direction: Direction| #[trigger]
            disk_observation(identity, counters, direction) == seq![observation]
                ==> observation.instrument == InstrumentId::DiskIo && observation.attributes
                == directed_tags(identity, direction) && observation.value is Signed,
{
    if resident_observation(identity, counters) == seq![observation] {
        assert(resident_observation(identity, counters)[0] == observation);
    }
    if virtual_observation(identity, counters) == seq![observation] {
        assert(virtual_observation(identity, counters)[0] == observation);
    }
    assert forall|direction: Direction| #[trigger]
        disk_observation(identity, counters, direction) == seq![
            observation,
        ] implies observation.instrument == InstrumentId::DiskIo && observation.attributes
        == directed_tags(identity, direction) && observation.value is Signed by {
        assert(disk_observation(identity, counters, direction)[0] == observation);
    }
}

/// The value of every observation is of the type that its gauge takes.
pub proof fn lemma_values_fit_their_gauges(
    identity: IdentityView,
    core_count: u32,
    counters: ProcessCounters,
    position: int,
)
    requires
        0 <= position < recording(identity, core_count, counters).len(),
    ensures
        ({
            let observation = recording(identity, core_count, counters)[position];
            observation.value.kind() == observation.instrument.value_kind_of()
        }),
{
    lemma_recording_members(identity, core_count, counters, position);
    lemma_signed_observation_keeps_its_gauge(
        recording(identity, core_count, counters)[position],
        identity,
        counters,
    );
}

/// The CPU utilization of a tick is the CPU usage of the same tick over the
/// number of cores of the session: the first two observations of every
/// recording pass hold the same percentage, the second with the cores as its
/// divisor, and no other observation is of the CPU.
pub proof fn lemma_cpu_utilization_is_usage_per_core(
    identity: IdentityView,
    core_count: u32,
    counters: ProcessCounters,
)
    ensures
        ({
            let observations = recording(identity, core_count, counters);
            &&& observations.len() >= 3
            &&& observations[0].instrument == InstrumentId::CpuUsage
            &&& observations[0].value == Measurement::Percent { bits: counters.cpu_percent_bits }
            &&& observations[0].attributes == Seq::<AttributeView>::empty()
            &&& observations[1].instrument == InstrumentId::CpuUtilization
            &&& observations[1].value == Measurement::PercentPerCore {
                bits: counters.cpu_percent_bits,
                cores: core_count,
            }
            &&& observations[1].attributes == identity_tags(identity)
            &&& forall|i: int|
                2 <= i < observations.len() ==> (#[trigger] observations[i]).instrument
                    != InstrumentId::CpuUsage && observations[i].instrument
                    != InstrumentId::CpuUtilization
        }),
{
    lemma_recording_layout(identity, core_count, counters);
}

/// A recording pass begins with the two observations of the CPU, which are
/// its only ones of the CPU, and ends with the one of the GPU, which is its
/// only one of the GPU.
proof fn lemma_recording_layout(identity: IdentityView, core_count: u32, counters: ProcessCounters)
    ensures
        ({
            let observations = recording(identity, core_count, counters);
            &&& 3 <= observations.len() <= 7
            &&& observations[0] == cpu_usage_observation(counters)
            &&& observations[1] == cpu_utilization_observation(identity, core_count, counters)
            &&& observations.last() == gpu_observation(identity, counters)
            &&& forall|i: int|
                2 <= i < observations.len() ==> (#[trigger] observations[i]).instrument
                    != InstrumentId::CpuUsage && observations[i].instrument
                    != InstrumentId::CpuUtilization
            &&& forall|i: int|
                0 <= i < observations.len() - 1 ==> (#[trigger] observations[i]).instrument
                    != InstrumentId::GpuMemoryUsage
        }),
{
    let observations = recording(identity, core_count, counters);
    assert forall|i: int| 0 <= i < observations.len() implies (i >= 2
        ==> (#[trigger] observations[i]).instrument != InstrumentId::CpuUsage
        && observations[i].instrument != InstrumentId::CpuUtilization) && (i < observations.len()
        - 1 ==> observations[i].instrument != InstrumentId::GpuMemoryUsage) by {
        lemma_recording_tail(identity, core_count, counters, i);
    }
}

/// After the first two, the observations of a recording pass are of other
/// gauges than the CPU, and all but the last are of other gauges than the
/// GPU.
proof fn lemma_recording_tail(
    identity: IdentityView,
    core_count: u32,
    counters: ProcessCounters,
    position: int,
)
    requires
        0 <= position < recording(identity, core_count, counters).len(),
    ensures
        ({
            let observations = recording(identity, core_count, counters);
            &&& position >= 2 ==> observations[position].instrument != InstrumentId::CpuUsage
                && observations[position].instrument != InstrumentId::CpuUtilization
            &&& position < observations.len() - 1 ==> observations[position].instrument
                != InstrumentId::GpuMemoryUsage
        }),
{
    lemma_recording_members(identity, core_count, counters, position);
    lemma_signed_observation_keeps_its_gauge(
        recording(identity, core_count, counters)[position],
        identity,
        counters,
    );
}

/// GPU memory is recorded at every recording pass, whether there is a GPU
/// or not: the last observation of the pass is the one of the GPU, no other
/// is, and its value is zero where the counters hold no GPU memory.
pub proof fn lemma_gpu_memory_is_always_recorded(
    identity: IdentityView,
    core_count: u32,
    counters: ProcessCounters,
)
    ensures
        ({
            let observations = recording(identity, core_count, counters);
            &&& observations.len() > 0
            &&& observations.last().instrument == InstrumentId::GpuMemoryUsage
            &&& observations.last().attributes == identity_tags(identity)
            &&& observations.last().value == Measurement::Unsigned(
                match counters.gpu_memory_bytes {
                    Some(bytes) => bytes,
                    None => 0,
                },
            )
            &&& forall|i: int|
                0 <= i < observations.len() - 1 ==> (#[trigger] observations[i]).instrument
                    != InstrumentId::GpuMemoryUsage
        }),
{
    lemma_recording_layout(identity, core_count, counters);
}

/// A session that reads its process records GPU memory, and records zero
/// where it has no GPU handle, where the compute processes were not listed,
/// and where none of them has the pid of the process.
pub proof fn lemma_gpu_memory_is_zero_without_a_match(
    session: SessionView,
    counters: ProcessCounters,
    compute_processes: Option<Seq<GpuProcess>>,
)
    requires
        session.phase is Sampling,
    ensures
        ({
            let step = session.step(
                EventView::Sampled { counters: Some(counters), compute_processes },
            ).1;
            &&& step.action matches ActionView::Record { observations }
            &&& observations.len() > 0
            &&& observations.last().instrument == InstrumentId::GpuMemoryUsage
            &&& observations.last().value == Measurement::Unsigned(
                match session.gpu_memory(compute_processes) {
                    Some(bytes) => bytes,
                    None => 0,
                },
            )
            &&& (session.gpu is None ==> observations.last().value == Measurement::Unsigned(0))
            &&& (compute_processes is None ==> observations.last().value == Measurement::Unsigned(
                0,
            ))
            &&& (compute_processes matches Some(processes) && (forall|i: int|
                0 <= i < processes.len() ==> (#[trigger] processes[i]).pid
                    != session.identity.pid) ==> observations.last().value
                == Measurement::Unsigned(0))
        }),
{
    let read = with_gpu_memory(counters, session.gpu_memory(compute_processes));
    lemma_gpu_memory_is_always_recorded(session.identity, session.core_count, read);
    match compute_processes {
        Some(processes) => {
            if forall|i: int|
                0 <= i < processes.len() ==> (#[trigger] processes[i]).pid
                    != session.identity.pid {
                lemma_no_match(session.identity.pid, processes);
            }
        },
        None => {},
    }
}

/// Among compute processes of other pids there is no match.
pub proof fn lemma_no_match(pid: u32, processes: Seq<GpuProcess>)
    requires
        forall|i: int| 0 <= i < processes.len() ==> (#[trigger] processes[i]).pid != pid,
    ensures
        first_match(pid, processes) is None,
    decreases processes.len(),
{
    if processes.len() > 0 {
        assert(processes[0].pid != pid);
        assert forall|i: int| 0 <= i < processes.skip(1).len() implies (#[trigger] processes.skip(
            1,
        )[i]).pid != pid by {
            assert(processes.skip(1)[i] == processes[i + 1]);
        }
        lemma_no_match(pid, processes.skip(1));
    }
}

/// A start gives a session that is well formed, observes the pid that was
/// reported, and has created the six instruments of the schema.  A start
/// that fails has created none, and fails with a fatal error.
///
/// `reported` is the pid that is to be observed, or the reason why none is
/// known.
pub proof fn lemma_start_creates_all_or_nothing(
    reported: Result<u32, Seq<char>>,
    readings: InitialReadingsView,
    config: SessionConfig,
)
    ensures
        ({
            let outcome = started(
                current_resolution(reported, readings.listed),
                readings,
                config,
            );
            &&& outcome matches Ok(session) ==> session.well_formed() && session.phase is Idle
                && session.completed == 0 && reported == Ok::<u32, Seq<char>>(
                session.identity.pid,
            ) && instruments_created(outcome) == schema()
            &&& outcome matches Err(failure) ==> failure.kind.fatal() && instruments_created(
                outcome,
            ) == Seq::<InstrumentView>::empty()
            &&& outcome is Ok <==> reported is Ok && readings.listed && readings.core_count
                is Some && readings.process is Some
        }),
{
    GpuHandle::lemma_first_device();
    if reported is Ok {
        ProcessHandle::lemma_confirmed(reported->Ok_0);
    }
}

/// A start fails on the first thing that is missing: the pid of the calling
/// process, then the process in the initial full snapshot, then the number
/// of cores, then the first read of the process.  The line of the failure
/// holds the reason of the operating system where the pid is missing, and is
/// the line of its kind otherwise.
pub proof fn lemma_start_fails_on_the_first_lack(
    reported: Result<u32, Seq<char>>,
    readings: InitialReadingsView,
    config: SessionConfig,
)
    ensures
        ({
            let outcome = started(
                current_resolution(reported, readings.listed),
                readings,
                config,
            );
            &&& reported matches Err(reason) ==> outcome == Err::<SessionView, StartFailureView>(
                StartFailureView::no_current_pid(reason),
            )
            &&& reported is Ok && !readings.listed ==> outcome == Err::<
                SessionView,
                StartFailureView,
            >(StartFailureView::of(ObserverError::ProcessNotFound))
            &&& reported is Ok && readings.listed && readings.core_count is None ==> outcome
                == Err::<SessionView, StartFailureView>(
                StartFailureView::of(ObserverError::CoreCountUnavailable),
            )
            &&& reported is Ok && readings.listed && readings.core_count is Some
                && readings.process is None ==> outcome == Err::<SessionView, StartFailureView>(
                StartFailureView::of(ObserverError::IdentityUnavailable),
            )
        }),
{
}

/// A pid that the initial full snapshot does not hold is not found, whatever
/// else was read, and no instrument is created for it.
pub proof fn lemma_unlisted_process_starts_nothing(
    pid: u32,
    readings: InitialReadingsView,
    config: SessionConfig,
)
    requires
        !readings.listed,
    ensures
        ({
            let outcome = started(pid_resolution(pid, readings.listed), readings, config);
            &&& outcome == Err::<SessionView, StartFailureView>(
                StartFailureView::of(ObserverError::ProcessNotFound),
            )
            &&& instruments_created(outcome).len() == 0
        }),
{
}

/// An event leaves a well-formed session well formed.
pub proof fn lemma_step_keeps_well_formed(session: SessionView, event: EventView)
    requires
        session.well_formed(),
    ensures
        session.step(event).0.well_formed(),
{
}

/// A run of events leaves a well-formed session well formed.
pub proof fn lemma_run_keeps_well_formed(session: SessionView, events: Seq<EventView>)
    requires
        session.well_formed(),
    ensures
        session.run(events).well_formed(),
    decreases events.len(),
{
    if events.len() > 0 {
        lemma_run_keeps_well_formed(session, events.drop_last());
        lemma_step_keeps_well_formed(session.run(events.drop_last()), events.last());
    }
}

/// A session with a bound never carries out more recording passes than the
/// bound, has stopped once it has carried out that many, and, unless it was
/// cancelled or gave up on its process, has carried out exactly that many
/// when it has stopped.
pub proof fn lemma_bound_is_kept(session: SessionView, events: Seq<EventView>, bound: usize)
    requires
        session.well_formed(),
        session.config.iterations == Some(bound),
        bound > 0,
    ensures
        ({
            let end = session.run(events);
            &&& end.completed <= bound
            &&& (end.completed == bound ==> end.phase is Stopped)
            &&& (end.phase is Stopped && !end.cancel_requested && !end.patience_spent(
                end.vanished,
            ) ==> end.completed == bound)
        }),
{
    lemma_run_keeps_well_formed(session, events);
    lemma_setup_never_changes(session, events);
}

/// The recording passes that a session asks for in a run of events.
pub open spec fn passes_asked(session: SessionView, events: Seq<EventView>) -> nat
    decreases events.len(),
{
    if events.len() == 0 {
        0
    } else {
        let before = session.run(events.drop_last());
        let asked: nat = if before.step(events.last()).1.action is Record {
            1
        } else {
            0
        };
        passes_asked(session, events.drop_last()) + asked
    }
}

/// The recording passes of a session that were carried out or are under
/// way.
pub open spec fn passes_begun(session: SessionView) -> nat {
    if session.phase is Recording {
        (session.completed + 1) as nat
    } else {
        session.completed as nat
    }
}

/// A session with a bound asks for no recording pass that it does not
/// count: however events arrive, the passes it has asked for are those it
/// has counted and the one under way, and together with those before the
/// run they never exceed the bound.
pub proof fn lemma_passes_asked_are_counted(
    session: SessionView,
    events: Seq<EventView>,
    bound: usize,
)
    requires
        session.well_formed(),
        session.config.iterations == Some(bound),
        bound > 0,
    ensures
        passes_begun(session) + passes_asked(session, events) == passes_begun(
            session.run(events),
        ),
        passes_begun(session.run(events)) <= bound,
    decreases events.len(),
{
    lemma_run_keeps_well_formed(session, events);
    lemma_setup_never_changes(session, events);
    if events.len() > 0 {
        let earlier = events.drop_last();
        lemma_passes_asked_are_counted(session, earlier, bound);
        lemma_run_keeps_well_formed(session, earlier);
        lemma_setup_never_changes(session, earlier);
    }
}

/// A session that is bounded to one iteration asks for one recording pass
/// at most, whatever events arrive and in whatever order, and has asked
/// for exactly one when it has stopped without being cancelled and without
/// giving up on its process.
pub proof fn lemma_one_iteration_asks_for_one_pass(session: SessionView, events: Seq<EventView>)
    requires
        session.well_formed(),
        session.phase is Idle,
        session.completed == 0,
        session.config.iterations == Some(1usize),
    ensures
        ({
            let end = session.run(events);
            &&& passes_asked(session, events) <= 1
            &&& (end.phase is Stopped && !end.cancel_requested && !end.patience_spent(
                end.vanished,
            ) ==> passes_asked(session, events) == 1 && end.completed == 1)
        }),
{
    lemma_passes_asked_are_counted(session, events, 1);
    lemma_bound_is_kept(session, events, 1);
}

/// A session that has stopped stays as it is and answers every event with
/// the order to stop.
pub proof fn lemma_stopped_is_final(session: SessionView, event: EventView)
    requires
        session.phase is Stopped,
    ensures
        session.step(event).0 == session,
        session.step(event).1.action == ActionView::Stop,
        session.step(event).1.issues == Seq::<ObserverError>::empty(),
{
}

/// A session that is bounded to one iteration carries out one tick and
/// stops: it asks for the read, then for the recording pass, and after that
/// pass it stops at once, without a sleep and without an error.
pub proof fn lemma_one_iteration_is_one_pass(
    session: SessionView,
    counters: ProcessCounters,
    compute_processes: Option<Seq<GpuProcess>>,
)
    requires
        session.well_formed(),
        session.phase is Idle,
        session.completed == 0,
        session.config.iterations == Some(1usize),
    ensures
        ({
            let (sampling, asked) = session.step(EventView::Begin);
            let (recording_pass, read) = sampling.step(
                EventView::Sampled { counters: Some(counters), compute_processes },
            );
            let (end, done) = recording_pass.step(EventView::Recorded);
            &&& asked.action == session.sample_action()
            &&& read.action == (ActionView::Record {
                observations: recording(
                    session.identity,
                    session.core_count,
                    with_gpu_memory(counters, session.gpu_memory(compute_processes)),
                ),
            })
            &&& done.action == ActionView::Stop
            &&& end.phase is Stopped
            &&& end.completed == 1
            &&& !end.cancel_requested
            &&& end == session.run(
                seq![
                    EventView::Begin,
                    EventView::Sampled { counters: Some(counters), compute_processes },
                    EventView::Recorded,
                ],
            )
        }),
{
    let events = seq![
        EventView::Begin,
        EventView::Sampled { counters: Some(counters), compute_processes },
        EventView::Recorded,
    ];
    let two = events.drop_last();
    let one = two.drop_last();
    assert(one.drop_last() =~= Seq::<EventView>::empty());
    assert(session.run(one.drop_last()) == session);
    assert(one.last() == EventView::Begin);
    assert(two.last() == EventView::Sampled { counters: Some(counters), compute_processes });
    assert(events.last() == EventView::Recorded);
    reveal_with_fuel(SessionView::run, 4);
}

/// The tick of a session goes to its recording pass only where the process
/// was read.  A tick without a read is skipped: nothing is recorded, no pass
/// is counted, and the session rests, unless it has a limit on such ticks
/// and this one reaches it.
pub proof fn lemma_tick_without_read_is_skipped(
    session: SessionView,
    compute_processes: Option<Seq<GpuProcess>>,
)
    requires
        session.phase is Sampling,
    ensures
        ({
            let (next, step) = session.step(
                EventView::Sampled { counters: None, compute_processes },
            );
            &&& step.issues == seq![ObserverError::TickReadFailure]
            &&& !(step.action is Record)
            &&& next.completed == session.completed
            &&& (next, step.action) == session.skipped()
            &&& (session.config.vanished_limit is None ==> next.phase == session.rested().0.phase
                && step.action == session.rested().1)
        }),
{
}

/// A cancellation never cuts a tick short.  It stops a session that is idle
/// or asleep at once.  In the middle of a tick it is noted, the tick goes
/// on, and the session stops where it would have rested.
pub proof fn lemma_cancellation_waits_for_the_tick(session: SessionView)
    ensures
        ({
            let (next, step) = session.step(EventView::Cancel);
            &&& (session.phase is Idle || session.phase is Sleeping ==> next.phase is Stopped
                && step.action == ActionView::Stop)
            &&& (session.phase is Sampling || session.phase is Recording ==> next.phase
                == session.phase && next.cancel_requested && step.action == ActionView::Wait)
            &&& next.completed == session.completed
        }),
        session.cancel_requested ==> session.rested().0.phase is Stopped,
        session.cancel_requested ==> session.recorded().0.phase is Stopped,
        session.cancel_requested ==> session.skipped().0.phase is Stopped,
{
}

} // verus!
