use opentelemetry_system_metrics::instrument::{
    build_instruments, Instrument, InstrumentId, InstrumentKind, ValueKind,
};

fn entry(
    id: InstrumentId,
    name: &'static str,
    unit: &'static str,
    description: &'static str,
    value_kind: ValueKind,
) -> Instrument {
    Instrument { id, name, unit, description, kind: InstrumentKind::Gauge, value_kind }
}

fn expected() -> Vec<Instrument> {
    vec![
        entry(
            InstrumentId::CpuUsage,
            "process.cpu.usage",
            "percent",
            "The percentage of CPU in use.",
            ValueKind::Float64,
        ),
        entry(
            InstrumentId::CpuUtilization,
            "process.cpu.utilization",
            "percent",
            "The amount of CPU in use.",
            ValueKind::Float64,
        ),
        entry(
            InstrumentId::MemoryUsage,
            "process.memory.usage",
            "byte",
            "The amount of physical memory in use.",
            ValueKind::Signed64,
        ),
        entry(
            InstrumentId::MemoryVirtual,
            "process.memory.virtual",
            "byte",
            "The amount of committed virtual memory.",
            ValueKind::Signed64,
        ),
        entry(
            InstrumentId::DiskIo,
            "process.disk.io",
            "byte",
            "Disk bytes transferred.",
            ValueKind::Signed64,
        ),
        entry(
            InstrumentId::GpuMemoryUsage,
            "process.gpu.memory.usage",
            "byte",
            "The amount of physical GPU memory in use.",
            ValueKind::Unsigned64,
        ),
    ]
}

#[test]
fn build_instruments_gives_the_six_gauges_of_the_schema() {
    let set = build_instruments();
    assert_eq!(set.len(), 6);
    assert_eq!(set.to_vec(), expected());
}

#[test]
fn instrument_set_is_read_by_position() {
    let set = build_instruments();
    let expected = expected();
    for position in 0..6 {
        assert_eq!(set.get(position), Some(expected[position]));
    }
    assert_eq!(set.get(6), None);
    assert_eq!(set.get(usize::MAX), None);
}

#[test]
fn describe_agrees_with_the_parts_of_an_id() {
    for instrument in expected() {
        assert_eq!(Instrument::describe(instrument.id), instrument);
        assert_eq!(instrument.id.name(), instrument.name);
        assert_eq!(instrument.id.unit(), instrument.unit);
        assert_eq!(instrument.id.description(), instrument.description);
        assert_eq!(instrument.id.value_kind(), instrument.value_kind);
    }
}

#[test]
fn two_builds_give_the_same_instruments() {
    assert_eq!(build_instruments(), build_instruments());
}
