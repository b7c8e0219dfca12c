use opentelemetry_system_metrics::attribute::{Attribute, AttributeKey, AttributeValue, Direction};
use opentelemetry_system_metrics::error::ObserverError;
use opentelemetry_system_metrics::identity::{build, resolve, IdentityAttributes, ProcessIdentity};
use opentelemetry_system_metrics::instrument::InstrumentId;
use opentelemetry_system_metrics::observation::{
    plan_recording, Measurement, Observation, ProcessCounters,
};

fn identity() -> IdentityAttributes {
    let reading = ProcessIdentity {
        name: Some("worker".to_string()),
        path: Some("/opt/worker".to_string()),
        command_line: vec![Some("worker".to_string()), Some("--fast".to_string())],
    };
    build(&resolve(321, true).unwrap(), Some(&reading)).unwrap()
}

fn counters() -> ProcessCounters {
    ProcessCounters {
        cpu_percent_bits: 150.0f32.to_bits(),
        resident_memory_bytes: 1_048_576,
        virtual_memory_bytes: 8_388_608,
        disk_read_bytes: 4096,
        disk_write_bytes: 512,
        gpu_memory_bytes: Some(2_000_000),
    }
}

fn observation(
    instrument: InstrumentId,
    value: Measurement,
    attributes: Vec<Attribute>,
) -> Observation {
    Observation { instrument, value, attributes }
}

fn percent_of(value: &Measurement) -> f64 {
    match value {
        Measurement::Percent { bits } => f32::from_bits(*bits).into(),
        Measurement::PercentPerCore { bits, cores } => {
            (f32::from_bits(*bits) / *cores as f32).into()
        }
        _ => panic!("no percentage"),
    }
}

#[test]
fn a_recording_pass_feeds_all_gauges_in_order() {
    let identity = identity();
    let plan = plan_recording(&identity, 4, &counters());
    let bits = 150.0f32.to_bits();
    assert_eq!(
        plan.observations,
        vec![
            observation(InstrumentId::CpuUsage, Measurement::Percent { bits }, vec![]),
            observation(
                InstrumentId::CpuUtilization,
                Measurement::PercentPerCore { bits, cores: 4 },
                identity.tags(),
            ),
            observation(InstrumentId::MemoryUsage, Measurement::Signed(1_048_576), identity.tags()),
            observation(
                InstrumentId::MemoryVirtual,
                Measurement::Signed(8_388_608),
                identity.tags(),
            ),
            observation(
                InstrumentId::DiskIo,
                Measurement::Signed(4096),
                identity.directed(Direction::Read),
            ),
            observation(
                InstrumentId::DiskIo,
                Measurement::Signed(512),
                identity.directed(Direction::Write),
            ),
            observation(
                InstrumentId::GpuMemoryUsage,
                Measurement::Unsigned(2_000_000),
                identity.tags(),
            ),
        ]
    );
    assert!(plan.issues.is_empty());
}

#[test]
fn cpu_usage_carries_no_tags() {
    let plan = plan_recording(&identity(), 8, &counters());
    assert_eq!(plan.observations[0].instrument, InstrumentId::CpuUsage);
    assert!(plan.observations[0].attributes.is_empty());
    assert_eq!(percent_of(&plan.observations[0].value), 150.0);
}

#[test]
fn cpu_utilization_is_usage_over_cores() {
    for cores in [1u32, 4, 64] {
        for usage in [0.0f32, 12.5, 100.0, 150.0, 6400.0] {
            let mut read = counters();
            read.cpu_percent_bits = usage.to_bits();
            let plan = plan_recording(&identity(), cores, &read);
            assert_eq!(
                plan.observations[0].value,
                Measurement::Percent { bits: usage.to_bits() }
            );
            assert_eq!(
                plan.observations[1].value,
                Measurement::PercentPerCore { bits: usage.to_bits(), cores }
            );
            let raw = percent_of(&plan.observations[0].value);
            let per_core = percent_of(&plan.observations[1].value);
            assert_eq!(raw, f64::from(usage));
            assert_eq!(per_core, f64::from(usage / cores as f32));
        }
    }
    let plan = plan_recording(&identity(), 4, &counters());
    assert_eq!(percent_of(&plan.observations[1].value), 37.5);
    let plan = plan_recording(&identity(), 64, &counters());
    assert_eq!(percent_of(&plan.observations[1].value), 2.34375);
    let plan = plan_recording(&identity(), 1, &counters());
    assert_eq!(percent_of(&plan.observations[1].value), 150.0);
}

#[test]
fn disk_observations_differ_in_the_direction_only() {
    let plan = plan_recording(&identity(), 4, &counters());
    let read = &plan.observations[4];
    let write = &plan.observations[5];
    assert_eq!(read.instrument, InstrumentId::DiskIo);
    assert_eq!(write.instrument, InstrumentId::DiskIo);
    assert_eq!(read.attributes.len(), write.attributes.len());
    let last = read.attributes.len() - 1;
    assert_eq!(read.attributes[..last], write.attributes[..last]);
    assert_eq!(read.attributes[last].key, AttributeKey::Direction);
    assert_eq!(write.attributes[last].key, AttributeKey::Direction);
    assert_eq!(read.attributes[last].value, AttributeValue::Text("read".to_string()));
    assert_eq!(write.attributes[last].value, AttributeValue::Text("write".to_string()));
}

#[test]
fn gpu_memory_is_zero_where_none_is_known() {
    let mut read = counters();
    read.gpu_memory_bytes = None;
    let plan = plan_recording(&identity(), 4, &read);
    let last = plan.observations.last().unwrap();
    assert_eq!(plan.observations.len(), 7);
    assert_eq!(last.instrument, InstrumentId::GpuMemoryUsage);
    assert_eq!(last.value, Measurement::Unsigned(0));
    assert_eq!(last.attributes, identity().tags());
}

#[test]
fn gpu_memory_keeps_the_full_unsigned_range() {
    let mut read = counters();
    read.gpu_memory_bytes = Some(u64::MAX);
    let plan = plan_recording(&identity(), 4, &read);
    assert_eq!(plan.observations.last().unwrap().value, Measurement::Unsigned(u64::MAX));
    assert!(plan.issues.is_empty());
}

#[test]
fn a_counter_out_of_range_costs_its_own_observation_only() {
    let mut read = counters();
    read.virtual_memory_bytes = u64::MAX;
    let plan = plan_recording(&identity(), 4, &read);
    let instruments: Vec<InstrumentId> = plan.observations.iter().map(|o| o.instrument).collect();
    assert_eq!(
        instruments,
        vec![
            InstrumentId::CpuUsage,
            InstrumentId::CpuUtilization,
            InstrumentId::MemoryUsage,
            InstrumentId::DiskIo,
            InstrumentId::DiskIo,
            InstrumentId::GpuMemoryUsage,
        ]
    );
    assert_eq!(plan.observations[2].value, Measurement::Signed(1_048_576));
    assert_eq!(plan.observations[3].value, Measurement::Signed(4096));
    assert_eq!(plan.issues, vec![ObserverError::NumericConversionFailure]);
}

#[test]
fn the_largest_signed_counter_is_still_recorded() {
    let mut read = counters();
    read.resident_memory_bytes = i64::MAX as u64;
    read.disk_write_bytes = i64::MAX as u64 + 1;
    let plan = plan_recording(&identity(), 4, &read);
    assert_eq!(plan.observations.len(), 6);
    assert_eq!(plan.observations[2].value, Measurement::Signed(i64::MAX));
    assert_eq!(plan.observations[4].instrument, InstrumentId::DiskIo);
    assert_eq!(plan.observations[4].attributes, identity().directed(Direction::Read));
    assert_eq!(plan.observations[5].instrument, InstrumentId::GpuMemoryUsage);
    assert_eq!(plan.issues, vec![ObserverError::NumericConversionFailure]);
}

#[test]
fn all_counters_out_of_range_leave_cpu_and_gpu() {
    let read = ProcessCounters {
        cpu_percent_bits: 1.0f32.to_bits(),
        resident_memory_bytes: u64::MAX,
        virtual_memory_bytes: u64::MAX,
        disk_read_bytes: u64::MAX,
        disk_write_bytes: u64::MAX,
        gpu_memory_bytes: Some(9),
    };
    let plan = plan_recording(&identity(), 2, &read);
    let instruments: Vec<InstrumentId> = plan.observations.iter().map(|o| o.instrument).collect();
    assert_eq!(
        instruments,
        vec![InstrumentId::CpuUsage, InstrumentId::CpuUtilization, InstrumentId::GpuMemoryUsage]
    );
    assert_eq!(plan.issues, vec![ObserverError::NumericConversionFailure; 4]);
}

#[test]
fn every_value_is_of_the_type_of_its_gauge() {
    let plan = plan_recording(&identity(), 4, &counters());
    for observation in &plan.observations {
        assert_eq!(observation.value.value_kind(), observation.instrument.value_kind());
    }
}
