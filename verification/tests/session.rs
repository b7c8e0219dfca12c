use opentelemetry_system_metrics::attribute::Direction;
use opentelemetry_system_metrics::config::{ObservationMode, SessionConfig};
use opentelemetry_system_metrics::error::{current_pid_failure, ObserverError, StartFailure};
use opentelemetry_system_metrics::gpu::{GpuMemoryUse, GpuProcess};
use opentelemetry_system_metrics::identity::{resolve, ProcessIdentity};
use opentelemetry_system_metrics::instrument::{build_instruments, InstrumentId};
use opentelemetry_system_metrics::observation::{Measurement, Observation, ProcessCounters};
use opentelemetry_system_metrics::session::{
    init_process_observer, init_process_observer_for_pid, init_process_observer_once,
    register_metrics, Action, Event, InitialReadings, Phase, RefreshScope, Session, Step,
};

const PID: u32 = 4242;

fn process() -> ProcessIdentity {
    ProcessIdentity {
        name: Some("observer".to_string()),
        path: Some("/usr/local/bin/observer".to_string()),
        command_line: vec![Some("observer".to_string()), Some("--serve".to_string())],
    }
}

fn readings() -> InitialReadings {
    InitialReadings {
        listed: true,
        process: Some(process()),
        core_count: Some(4),
        gpu_interface: true,
    }
}

fn counters(resident: u64) -> ProcessCounters {
    ProcessCounters {
        cpu_percent_bits: 50.0f32.to_bits(),
        resident_memory_bytes: resident,
        virtual_memory_bytes: 2 * resident,
        disk_read_bytes: 10,
        disk_write_bytes: 20,
        gpu_memory_bytes: None,
    }
}

fn sampled(resident: u64) -> Event {
    Event::Sampled { counters: Some(counters(resident)), compute_processes: Some(vec![]) }
}

fn vanished() -> Event {
    Event::Sampled { counters: None, compute_processes: None }
}

fn failure(kind: ObserverError) -> StartFailure {
    StartFailure { kind, message: kind.message() }
}

fn quiet(action: Action) -> Step {
    Step { action, issues: vec![] }
}

fn sample_action(gpu_device: Option<u32>) -> Action {
    Action::Sample { pid: PID, scope: RefreshScope::OnlyPid(PID), gpu_device }
}

fn recorded_in(step: &Step) -> &Vec<Observation> {
    match &step.action {
        Action::Record { observations } => observations,
        other => panic!("no recording pass: {:?}", other),
    }
}

fn of_gauge(observations: &[Observation], instrument: InstrumentId) -> Vec<&Observation> {
    observations.iter().filter(|o| o.instrument == instrument).collect()
}

fn config(mode: ObservationMode, iterations: Option<usize>) -> SessionConfig {
    SessionConfig { mode, iterations, vanished_limit: None }
}

fn session(mode: ObservationMode, iterations: Option<usize>) -> Session {
    register_metrics(resolve(PID, true).unwrap(), &readings(), config(mode, iterations)).unwrap()
}

fn impatient(mode: ObservationMode, vanished_limit: Option<u32>) -> Session {
    let config = SessionConfig { mode, iterations: None, vanished_limit };
    register_metrics(resolve(PID, true).unwrap(), &readings(), config).unwrap()
}

fn tick(session: &mut Session, begin: Event, resident: u64) -> Step {
    assert_eq!(session.step(begin), quiet(sample_action(Some(0))));
    let step = session.step(sampled(resident));
    assert_eq!(session.phase(), Phase::Recording);
    assert_eq!(recorded_in(&step).len(), 7);
    session.step(Event::Recorded)
}

#[test]
fn test_init_process_observer_once() {
    let result = init_process_observer_once(Ok(PID), &readings(), None);
    assert!(result.is_ok());
    let mut session = result.unwrap();
    assert_eq!(session.step(Event::Begin), quiet(sample_action(Some(0))));
    let step = session.step(sampled(1_048_576));
    assert_eq!(recorded_in(&step).len(), 7);
    assert_eq!(session.step(Event::Recorded), quiet(Action::Stop));
    assert!(session.is_stopped());
    assert_eq!(session.completed(), 1);
}

#[test]
fn a_session_starts_idle_with_what_was_read() {
    let session = init_process_observer(Ok(PID), &readings(), Some("250")).unwrap();
    assert_eq!(session.phase(), Phase::Idle);
    assert_eq!(session.completed(), 0);
    assert!(!session.cancel_requested());
    assert!(!session.is_stopped());
    assert_eq!(session.handle(), resolve(PID, true).unwrap());
    assert_eq!(session.identity().pid(), PID);
    assert_eq!(session.identity().executable_name(), "observer");
    assert_eq!(session.identity().executable_path(), "/usr/local/bin/observer");
    assert_eq!(session.identity().command(), " observer --serve");
    assert_eq!(session.core_count(), 4);
    assert_eq!(session.gpu().map(|gpu| gpu.device_index()), Some(0));
    assert_eq!(session.mode(), ObservationMode::Push { interval_ms: 250 });
    assert_eq!(session.iterations(), None);
    assert_eq!(session.config(), config(ObservationMode::Push { interval_ms: 250 }, None));
    assert_eq!(session.vanished(), 0);
    assert_eq!(*session.instruments(), build_instruments());
}

#[test]
fn the_entry_points_differ_in_process_and_bound() {
    let current = init_process_observer(Ok(PID), &readings(), None).unwrap();
    let by_pid = init_process_observer_for_pid(PID, &readings(), None).unwrap();
    let once = init_process_observer_once(Ok(PID), &readings(), None).unwrap();
    assert_eq!(current, by_pid);
    assert_eq!(current.iterations(), None);
    assert_eq!(once.iterations(), Some(1));
    assert_eq!(current.mode(), ObservationMode::Push { interval_ms: 30000 });
    assert_eq!(once.mode(), ObservationMode::Push { interval_ms: 30000 });
    assert_eq!(once.identity(), current.identity());
    let other = init_process_observer_for_pid(7, &readings(), Some("5")).unwrap();
    assert_eq!(other.identity().pid(), 7);
    assert_eq!(other.mode(), ObservationMode::Push { interval_ms: 5 });
}

#[test]
fn a_setting_that_is_no_number_gives_the_default_interval() {
    let session = init_process_observer(Ok(PID), &readings(), Some("fast")).unwrap();
    assert_eq!(session.mode(), ObservationMode::Push { interval_ms: 30000 });
}

#[test]
fn resolving_a_nonexistent_pid_is_process_not_found() {
    let mut nothing = readings();
    nothing.listed = false;
    nothing.process = None;
    assert_eq!(
        init_process_observer_for_pid(u32::MAX, &nothing, None),
        Err(failure(ObserverError::ProcessNotFound))
    );
    assert_eq!(
        init_process_observer(Ok(u32::MAX), &nothing, None),
        Err(failure(ObserverError::ProcessNotFound))
    );
    assert_eq!(
        init_process_observer_once(Ok(u32::MAX), &nothing, None),
        Err(failure(ObserverError::ProcessNotFound))
    );
}

#[test]
fn process_not_found_comes_before_every_other_failure() {
    let nothing =
        InitialReadings { listed: false, process: None, core_count: None, gpu_interface: false };
    assert_eq!(
        init_process_observer_for_pid(u32::MAX, &nothing, None),
        Err(failure(ObserverError::ProcessNotFound))
    );
    assert_eq!(
        init_process_observer(Ok(PID), &nothing, None),
        Err(failure(ObserverError::ProcessNotFound))
    );
    let mut unlisted = readings();
    unlisted.listed = false;
    assert_eq!(
        init_process_observer_for_pid(PID, &unlisted, None),
        Err(failure(ObserverError::ProcessNotFound))
    );
}

#[test]
fn the_calling_process_without_a_pid_is_process_not_found() {
    let reason = "Unknown platform".to_string();
    let expected = StartFailure {
        kind: ObserverError::ProcessNotFound,
        message: "could not get current pid. Error: Unknown platform".to_string(),
    };
    assert_eq!(
        init_process_observer(Err(reason.clone()), &readings(), None),
        Err(expected.clone())
    );
    assert_eq!(init_process_observer_once(Err(reason), &readings(), None), Err(expected));
}

#[test]
fn a_missing_pid_of_the_calling_process_comes_before_all_else() {
    let nothing =
        InitialReadings { listed: false, process: None, core_count: None, gpu_interface: false };
    let outcome = init_process_observer(Err("no pid here".to_string()), &nothing, None);
    assert_eq!(outcome, Err(StartFailure::no_current_pid("no pid here")));
    let failure = outcome.unwrap_err();
    assert_eq!(failure.kind, ObserverError::ProcessNotFound);
    assert_eq!(failure.message, "could not get current pid. Error: no pid here");
    let outcome = init_process_observer_once(Err(String::new()), &nothing, None);
    assert_eq!(outcome.unwrap_err().message, "could not get current pid. Error: ");
}

#[test]
fn a_start_without_the_first_read_is_identity_unavailable() {
    let mut unread = readings();
    unread.process = None;
    assert_eq!(
        init_process_observer(Ok(PID), &unread, None),
        Err(failure(ObserverError::IdentityUnavailable))
    );
    assert_eq!(
        init_process_observer_for_pid(PID, &unread, None),
        Err(failure(ObserverError::IdentityUnavailable))
    );
    assert_eq!(
        register_metrics(
            resolve(PID, true).unwrap(),
            &unread,
            config(ObservationMode::Pull, None)
        ),
        Err(failure(ObserverError::IdentityUnavailable))
    );
}

#[test]
fn a_start_without_the_core_count_is_core_count_unavailable() {
    let mut coreless = readings();
    coreless.core_count = None;
    let expected = StartFailure {
        kind: ObserverError::CoreCountUnavailable,
        message: "Could not get physical core count".to_string(),
    };
    assert_eq!(init_process_observer(Ok(PID), &coreless, None), Err(expected.clone()));
    assert_eq!(init_process_observer_for_pid(PID, &coreless, None), Err(expected.clone()));
    assert_eq!(init_process_observer_once(Ok(PID), &coreless, None), Err(expected));
}

#[test]
fn a_missing_core_count_comes_before_a_missing_first_read() {
    let mut bare = readings();
    bare.core_count = None;
    bare.process = None;
    assert_eq!(
        init_process_observer(Ok(PID), &bare, None),
        Err(failure(ObserverError::CoreCountUnavailable))
    );
    assert_eq!(
        init_process_observer_for_pid(PID, &bare, None),
        Err(failure(ObserverError::CoreCountUnavailable))
    );
    assert_eq!(
        register_metrics(resolve(PID, true).unwrap(), &bare, config(ObservationMode::Pull, None)),
        Err(failure(ObserverError::CoreCountUnavailable))
    );
    bare.gpu_interface = false;
    assert_eq!(
        init_process_observer_once(Ok(PID), &bare, None),
        Err(failure(ObserverError::CoreCountUnavailable))
    );
}

#[test]
fn a_failure_of_a_kind_has_the_line_of_the_kind() {
    let kinds = [
        ObserverError::ProcessNotFound,
        ObserverError::IdentityUnavailable,
        ObserverError::CoreCountUnavailable,
    ];
    for kind in kinds {
        assert_eq!(StartFailure::of(kind), StartFailure { kind, message: kind.message() });
    }
    assert_eq!(
        current_pid_failure("denied"),
        "could not get current pid. Error: denied"
    );
    assert_eq!(current_pid_failure(""), "could not get current pid. Error: ");
}

#[test]
fn a_start_without_a_gpu_succeeds() {
    let mut plain = readings();
    plain.gpu_interface = false;
    let mut session = init_process_observer(Ok(PID), &plain, None).unwrap();
    assert_eq!(session.gpu(), None);
    assert_eq!(session.step(Event::Begin), quiet(sample_action(None)));
}

#[test]
fn the_first_tick_comes_without_a_sleep() {
    let mut session = session(ObservationMode::Push { interval_ms: 1000 }, None);
    assert_eq!(session.step(Event::Begin), quiet(sample_action(Some(0))));
    assert_eq!(session.phase(), Phase::Sampling);
}

#[test]
fn a_push_session_sleeps_between_ticks() {
    let mut session = session(ObservationMode::Push { interval_ms: 1000 }, None);
    let rest = tick(&mut session, Event::Begin, 1);
    assert_eq!(rest, quiet(Action::Sleep { millis: 1000 }));
    assert_eq!(session.phase(), Phase::Sleeping);
    assert_eq!(session.completed(), 1);
    let rest = tick(&mut session, Event::Woke, 2);
    assert_eq!(rest, quiet(Action::Sleep { millis: 1000 }));
    assert_eq!(session.completed(), 2);
}

#[test]
fn a_pull_session_yields_between_ticks() {
    let mut session = session(ObservationMode::Pull, None);
    let rest = tick(&mut session, Event::Begin, 1);
    assert_eq!(rest, quiet(Action::Yield));
    assert_eq!(session.phase(), Phase::Idle);
    let rest = tick(&mut session, Event::Begin, 2);
    assert_eq!(rest, quiet(Action::Yield));
    assert_eq!(session.completed(), 2);
    assert_eq!(session.step(Event::Woke), quiet(Action::Wait));
}

#[test]
fn a_bound_of_one_ends_the_session_after_one_pass() {
    let mut session = session(ObservationMode::Push { interval_ms: 30000 }, Some(1));
    let end = tick(&mut session, Event::Begin, 1);
    assert_eq!(end, quiet(Action::Stop));
    assert_eq!(session.phase(), Phase::Stopped);
    assert_eq!(session.completed(), 1);
    assert!(!session.cancel_requested());
}

#[test]
fn a_bound_of_three_ends_the_session_after_three_passes() {
    let mut session = session(ObservationMode::Push { interval_ms: 10 }, Some(3));
    assert_eq!(tick(&mut session, Event::Begin, 1), quiet(Action::Sleep { millis: 10 }));
    assert_eq!(tick(&mut session, Event::Woke, 1), quiet(Action::Sleep { millis: 10 }));
    assert_eq!(tick(&mut session, Event::Woke, 1), quiet(Action::Stop));
    assert_eq!(session.completed(), 3);
    assert!(session.is_stopped());
}

#[test]
fn a_bound_of_zero_is_no_bound() {
    let mut session = session(ObservationMode::Push { interval_ms: 10 }, Some(0));
    assert_eq!(tick(&mut session, Event::Begin, 1), quiet(Action::Sleep { millis: 10 }));
    for _ in 0..20 {
        assert_eq!(tick(&mut session, Event::Woke, 1), quiet(Action::Sleep { millis: 10 }));
    }
    assert_eq!(session.completed(), 21);
    assert!(!session.is_stopped());
}

#[test]
fn a_skipped_tick_does_not_count_against_the_bound() {
    let mut session = session(ObservationMode::Push { interval_ms: 10 }, Some(1));
    assert_eq!(session.step(Event::Begin), quiet(sample_action(Some(0))));
    let skipped = session.step(vanished());
    assert_eq!(
        skipped,
        Step { action: Action::Sleep { millis: 10 }, issues: vec![ObserverError::TickReadFailure] }
    );
    assert_eq!(session.phase(), Phase::Sleeping);
    assert_eq!(session.completed(), 0);
    assert_eq!(tick(&mut session, Event::Woke, 1), quiet(Action::Stop));
    assert_eq!(session.completed(), 1);
}

#[test]
fn a_skipped_tick_of_a_pull_session_yields() {
    let mut session = session(ObservationMode::Pull, None);
    assert_eq!(session.step(Event::Begin), quiet(sample_action(Some(0))));
    assert_eq!(
        session.step(vanished()),
        Step { action: Action::Yield, issues: vec![ObserverError::TickReadFailure] }
    );
    assert_eq!(session.phase(), Phase::Idle);
}

#[test]
fn a_session_without_a_limit_skips_for_as_long_as_it_must() {
    for limit in [None, Some(0)] {
        let mut session = impatient(ObservationMode::Push { interval_ms: 10 }, limit);
        let mut begin = Event::Begin;
        for round in 1..=50u32 {
            assert_eq!(session.step(begin), quiet(sample_action(Some(0))));
            assert_eq!(
                session.step(vanished()),
                Step {
                    action: Action::Sleep { millis: 10 },
                    issues: vec![ObserverError::TickReadFailure]
                }
            );
            assert_eq!(session.vanished(), round);
            begin = Event::Woke;
        }
        assert_eq!(session.phase(), Phase::Sleeping);
        assert_eq!(session.completed(), 0);
    }
}

#[test]
fn a_session_gives_up_after_its_limit_of_skipped_ticks() {
    let mut session = impatient(ObservationMode::Push { interval_ms: 10 }, Some(3));
    let skipped = Step {
        action: Action::Sleep { millis: 10 },
        issues: vec![ObserverError::TickReadFailure],
    };
    session.step(Event::Begin);
    assert_eq!(session.step(vanished()), skipped);
    session.step(Event::Woke);
    assert_eq!(session.step(vanished()), skipped);
    assert_eq!(session.vanished(), 2);
    session.step(Event::Woke);
    assert_eq!(
        session.step(vanished()),
        Step { action: Action::Stop, issues: vec![ObserverError::TickReadFailure] }
    );
    assert!(session.is_stopped());
    assert_eq!(session.vanished(), 3);
    assert_eq!(session.completed(), 0);
    assert!(!session.cancel_requested());
}

#[test]
fn a_read_in_between_starts_the_count_of_skipped_ticks_anew() {
    let mut session = impatient(ObservationMode::Pull, Some(2));
    session.step(Event::Begin);
    assert_eq!(
        session.step(vanished()),
        Step { action: Action::Yield, issues: vec![ObserverError::TickReadFailure] }
    );
    assert_eq!(session.vanished(), 1);
    assert_eq!(tick(&mut session, Event::Begin, 1), quiet(Action::Yield));
    assert_eq!(session.vanished(), 0);
    session.step(Event::Begin);
    assert_eq!(
        session.step(vanished()),
        Step { action: Action::Yield, issues: vec![ObserverError::TickReadFailure] }
    );
    assert!(!session.is_stopped());
    session.step(Event::Begin);
    assert_eq!(
        session.step(vanished()),
        Step { action: Action::Stop, issues: vec![ObserverError::TickReadFailure] }
    );
    assert!(session.is_stopped());
    assert_eq!(session.completed(), 1);
}

#[test]
fn a_stopped_session_answers_every_event_with_stop() {
    let mut session = session(ObservationMode::Push { interval_ms: 10 }, Some(1));
    tick(&mut session, Event::Begin, 1);
    let events =
        [Event::Begin, sampled(1), vanished(), Event::Recorded, Event::Woke, Event::Cancel];
    for event in events {
        assert_eq!(session.step(event), quiet(Action::Stop));
        assert_eq!(session.phase(), Phase::Stopped);
        assert_eq!(session.completed(), 1);
        assert!(!session.cancel_requested());
    }
}

#[test]
fn an_event_out_of_turn_changes_nothing() {
    let mut session = session(ObservationMode::Push { interval_ms: 10 }, None);
    let before = init_process_observer(Ok(PID), &readings(), Some("10")).unwrap();
    for event in [sampled(1), vanished(), Event::Recorded, Event::Woke] {
        assert_eq!(session.step(event), quiet(Action::Wait));
        assert_eq!(session, before);
    }
    session.step(Event::Begin);
    for event in [Event::Begin, Event::Recorded, Event::Woke] {
        assert_eq!(session.step(event), quiet(Action::Wait));
        assert_eq!(session.phase(), Phase::Sampling);
    }
    session.step(sampled(1));
    for event in [Event::Begin, sampled(1), vanished(), Event::Woke] {
        assert_eq!(session.step(event), quiet(Action::Wait));
        assert_eq!(session.phase(), Phase::Recording);
        assert_eq!(session.completed(), 0);
    }
    session.step(Event::Recorded);
    for event in [Event::Begin, sampled(1), vanished(), Event::Recorded] {
        assert_eq!(session.step(event), quiet(Action::Wait));
        assert_eq!(session.phase(), Phase::Sleeping);
        assert_eq!(session.completed(), 1);
    }
}

#[test]
fn a_cancellation_at_rest_stops_at_once() {
    let mut idle = session(ObservationMode::Pull, None);
    assert_eq!(idle.step(Event::Cancel), quiet(Action::Stop));
    assert!(idle.is_stopped());
    assert!(idle.cancel_requested());

    let mut asleep = session(ObservationMode::Push { interval_ms: 10 }, None);
    tick(&mut asleep, Event::Begin, 1);
    assert_eq!(asleep.phase(), Phase::Sleeping);
    assert_eq!(asleep.step(Event::Cancel), quiet(Action::Stop));
    assert!(asleep.is_stopped());
    assert_eq!(asleep.step(Event::Woke), quiet(Action::Stop));
}

#[test]
fn a_cancellation_during_a_tick_waits_for_its_end() {
    let mut session = session(ObservationMode::Push { interval_ms: 10 }, None);
    session.step(Event::Begin);
    assert_eq!(session.step(Event::Cancel), quiet(Action::Wait));
    assert_eq!(session.phase(), Phase::Sampling);
    assert!(session.cancel_requested());
    let step = session.step(sampled(1));
    assert_eq!(recorded_in(&step).len(), 7);
    assert_eq!(session.phase(), Phase::Recording);
    assert_eq!(session.step(Event::Recorded), quiet(Action::Stop));
    assert!(session.is_stopped());
    assert_eq!(session.completed(), 1);
}

#[test]
fn a_cancellation_during_the_recording_pass_waits_for_its_end() {
    let mut session = session(ObservationMode::Push { interval_ms: 10 }, Some(5));
    session.step(Event::Begin);
    session.step(sampled(1));
    assert_eq!(session.step(Event::Cancel), quiet(Action::Wait));
    assert_eq!(session.phase(), Phase::Recording);
    assert_eq!(session.step(Event::Recorded), quiet(Action::Stop));
    assert!(session.is_stopped());
    assert_eq!(session.completed(), 1);
}

#[test]
fn a_cancelled_tick_that_is_skipped_stops_the_session() {
    let mut session = session(ObservationMode::Push { interval_ms: 10 }, None);
    session.step(Event::Begin);
    session.step(Event::Cancel);
    assert_eq!(
        session.step(vanished()),
        Step { action: Action::Stop, issues: vec![ObserverError::TickReadFailure] }
    );
    assert!(session.is_stopped());
    assert_eq!(session.completed(), 0);
}

#[test]
fn resident_memory_is_recorded_twice_with_the_same_identity() {
    let mut session = init_process_observer(Ok(PID), &readings(), Some("1")).unwrap();
    let tags = session.identity().tags();

    assert_eq!(session.step(Event::Begin), quiet(sample_action(Some(0))));
    let first = session.step(sampled(1_048_576));
    let first_memory = of_gauge(recorded_in(&first), InstrumentId::MemoryUsage);
    assert_eq!(first_memory.len(), 1);
    assert_eq!(first_memory[0].value, Measurement::Signed(1_048_576));
    assert_eq!(first_memory[0].attributes, tags);
    assert_eq!(session.step(Event::Recorded), quiet(Action::Sleep { millis: 1 }));

    assert_eq!(session.step(Event::Woke), quiet(sample_action(Some(0))));
    let second = session.step(sampled(1_048_576));
    let second_memory = of_gauge(recorded_in(&second), InstrumentId::MemoryUsage);
    assert_eq!(second_memory.len(), 1);
    assert_eq!(second_memory[0].value, Measurement::Signed(1_048_576));
    assert_eq!(second_memory[0].attributes, tags);
    assert_eq!(first_memory[0], second_memory[0]);
    assert_eq!(session.step(Event::Recorded), quiet(Action::Sleep { millis: 1 }));
    assert_eq!(session.completed(), 2);
}

#[test]
fn the_identity_stays_the_same_across_ticks() {
    let mut session = session(ObservationMode::Push { interval_ms: 1 }, None);
    let fresh = init_process_observer(Ok(PID), &readings(), Some("1")).unwrap();
    let mut begin = Event::Begin;
    for round in 0..5u64 {
        assert_eq!(session.step(begin), quiet(sample_action(Some(0))));
        let step = session.step(sampled(1000 + round));
        for observation in recorded_in(&step) {
            if observation.instrument == InstrumentId::CpuUsage {
                assert!(observation.attributes.is_empty());
            } else if observation.instrument == InstrumentId::DiskIo {
                assert_eq!(observation.attributes[..4], fresh.identity().tags()[..]);
            } else {
                assert_eq!(observation.attributes, fresh.identity().tags());
            }
        }
        session.step(Event::Recorded);
        assert_eq!(session.identity(), fresh.identity());
        assert_eq!(session.instruments(), fresh.instruments());
        assert_eq!(session.core_count(), 4);
        begin = Event::Woke;
    }
}

#[test]
fn disk_bytes_are_recorded_with_both_directions() {
    let mut session = session(ObservationMode::Pull, None);
    session.step(Event::Begin);
    let step = session.step(sampled(1));
    let disk = of_gauge(recorded_in(&step), InstrumentId::DiskIo);
    assert_eq!(disk.len(), 2);
    assert_eq!(disk[0].value, Measurement::Signed(10));
    assert_eq!(disk[1].value, Measurement::Signed(20));
    assert_eq!(disk[0].attributes, session.identity().directed(Direction::Read));
    assert_eq!(disk[1].attributes, session.identity().directed(Direction::Write));
    assert_eq!(disk[0].attributes[..4], disk[1].attributes[..4]);
}

#[test]
fn cpu_utilization_uses_the_core_count_of_the_session() {
    for cores in [1u32, 4, 64] {
        let mut given = readings();
        given.core_count = Some(cores);
        let mut session = init_process_observer(Ok(PID), &given, None).unwrap();
        session.step(Event::Begin);
        let step = session.step(sampled(1));
        let observations = recorded_in(&step);
        let bits = 50.0f32.to_bits();
        assert_eq!(observations[0].value, Measurement::Percent { bits });
        assert_eq!(observations[1].value, Measurement::PercentPerCore { bits, cores });
        assert_eq!(observations[1].attributes, session.identity().tags());
    }
}

#[test]
fn gpu_memory_of_the_process_is_recorded() {
    let mut session = session(ObservationMode::Pull, None);
    session.step(Event::Begin);
    let listing = vec![
        GpuProcess { pid: 1, used_memory: GpuMemoryUse::Known(5) },
        GpuProcess { pid: PID, used_memory: GpuMemoryUse::Known(3_000_000) },
    ];
    let step = session
        .step(Event::Sampled { counters: Some(counters(1)), compute_processes: Some(listing) });
    let gpu = of_gauge(recorded_in(&step), InstrumentId::GpuMemoryUsage);
    assert_eq!(gpu.len(), 1);
    assert_eq!(gpu[0].value, Measurement::Unsigned(3_000_000));
    assert_eq!(gpu[0].attributes, session.identity().tags());
    assert!(step.issues.is_empty());
}

#[test]
fn gpu_memory_is_zero_without_a_matching_process() {
    let listings = [
        Some(vec![]),
        Some(vec![GpuProcess { pid: 1, used_memory: GpuMemoryUse::Known(5) }]),
        Some(vec![GpuProcess { pid: PID, used_memory: GpuMemoryUse::Unknown }]),
        None,
    ];
    for listing in listings {
        let mut session = session(ObservationMode::Pull, None);
        session.step(Event::Begin);
        let step = session
            .step(Event::Sampled { counters: Some(counters(1)), compute_processes: listing });
        let gpu = of_gauge(recorded_in(&step), InstrumentId::GpuMemoryUsage);
        assert_eq!(gpu.len(), 1);
        assert_eq!(gpu[0].value, Measurement::Unsigned(0));
        assert!(step.issues.is_empty());
    }
}

#[test]
fn gpu_memory_is_zero_without_a_gpu_interface() {
    let mut plain = readings();
    plain.gpu_interface = false;
    let mut session = init_process_observer(Ok(PID), &plain, None).unwrap();
    session.step(Event::Begin);
    let listing = vec![GpuProcess { pid: PID, used_memory: GpuMemoryUse::Known(77) }];
    let step = session
        .step(Event::Sampled { counters: Some(counters(1)), compute_processes: Some(listing) });
    let observations = recorded_in(&step);
    assert_eq!(observations.len(), 7);
    let gpu = of_gauge(observations, InstrumentId::GpuMemoryUsage);
    assert_eq!(gpu.len(), 1);
    assert_eq!(gpu[0].value, Measurement::Unsigned(0));
    assert_eq!(step.issues, vec![ObserverError::GpuUnavailable]);
}

#[test]
fn gpu_memory_in_the_counters_gives_way_to_the_listing() {
    let mut session = session(ObservationMode::Pull, None);
    session.step(Event::Begin);
    let mut given = counters(1);
    given.gpu_memory_bytes = Some(123);
    let step = session.step(Event::Sampled { counters: Some(given), compute_processes: None });
    let gpu = of_gauge(recorded_in(&step), InstrumentId::GpuMemoryUsage);
    assert_eq!(gpu[0].value, Measurement::Unsigned(0));
}

#[test]
fn a_counter_out_of_range_does_not_end_the_session() {
    let mut session = session(ObservationMode::Push { interval_ms: 10 }, None);
    session.step(Event::Begin);
    let mut given = counters(1);
    given.resident_memory_bytes = u64::MAX;
    let step = session.step(Event::Sampled { counters: Some(given), compute_processes: None });
    let observations = recorded_in(&step);
    assert_eq!(observations.len(), 6);
    assert!(of_gauge(observations, InstrumentId::MemoryUsage).is_empty());
    assert_eq!(of_gauge(observations, InstrumentId::MemoryVirtual).len(), 1);
    assert_eq!(step.issues, vec![ObserverError::NumericConversionFailure]);
    assert_eq!(session.step(Event::Recorded), quiet(Action::Sleep { millis: 10 }));
    assert_eq!(session.completed(), 1);
}

#[test]
fn issues_of_a_tick_come_in_order() {
    let mut plain = readings();
    plain.gpu_interface = false;
    let mut session = init_process_observer(Ok(PID), &plain, None).unwrap();
    session.step(Event::Begin);
    let mut given = counters(1);
    given.disk_read_bytes = u64::MAX;
    given.disk_write_bytes = 1 << 63;
    let step = session.step(Event::Sampled { counters: Some(given), compute_processes: None });
    assert_eq!(
        step.issues,
        vec![
            ObserverError::NumericConversionFailure,
            ObserverError::NumericConversionFailure,
            ObserverError::GpuUnavailable,
        ]
    );
    assert_eq!(recorded_in(&step).len(), 5);
}
