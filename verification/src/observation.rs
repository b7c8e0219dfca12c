//! One recording pass: from the counters of a tick to what is recorded.
//!
//! All gauges of a tick are fed from one snapshot, in one fixed order: CPU
//! usage, CPU utilization, resident memory, virtual memory, disk bytes read,
//! disk bytes written, GPU memory.  A counter that does not fit the value
//! type of its gauge costs that one observation and nothing else.  Disk
//! counters are published as they are read, cumulative since the process
//! started.

use vstd::prelude::*;
use crate::attribute::{attribute_views, Attribute, AttributeView, Direction};
use crate::convert::{narrow_signed, signed_of};
use crate::error::ObserverError;
use crate::identity::{directed_tags, identity_tags, IdentityAttributes, IdentityView};
use crate::instrument::{InstrumentId, ValueKind};

verus! {

/// The counters of one process at one tick.
#[derive(Clone, Copy, Debug, PartialEq, Eq, Structural)]
pub struct ProcessCounters {
    /// The CPU percentage on the scale of the operating system, where every
    /// core counts for a hundred: the bits of the 32-bit IEEE 754 number that
    /// the operating system gave.
    pub cpu_percent_bits: u32,
    /// Resident memory in bytes.
    pub resident_memory_bytes: u64,
    /// Virtual memory in bytes.
    pub virtual_memory_bytes: u64,
    /// Bytes read from disk since the process started.
    pub disk_read_bytes: u64,
    /// Bytes written to disk since the process started.
    pub disk_write_bytes: u64,
    /// GPU memory in bytes, where the GPU extension found the process.  A
    /// session fills this in itself from the compute processes of the tick.
    pub gpu_memory_bytes: Option<u64>,
}

/// The value of one observation.
#[derive(Clone, Copy, Debug, PartialEq, Eq, Structural)]
pub enum Measurement {
    /// A CPU percentage as it was read, given by the bits of a 32-bit IEEE
    /// 754 number.
    Percent { bits: u32 },
    /// The CPU percentage with the bits `bits` divided by `cores`.
    PercentPerCore { bits: u32, cores: u32 },
    /// A signed number of bytes.
    Signed(i64),
    /// An unsigned number of bytes.
    Unsigned(u64),
}

impl Measurement {
    /// The type of value that the measurement is recorded as.
    pub open spec fn kind(self) -> ValueKind {
        match self {
            Measurement::Percent { .. } => ValueKind::Float64,
            Measurement::PercentPerCore { .. } => ValueKind::Float64,
            Measurement::Signed(_) => ValueKind::Signed64,
            Measurement::Unsigned(_) => ValueKind::Unsigned64,
        }
    }

    /// The type of value that the measurement is recorded as.
    pub fn value_kind(&self) -> (kind: ValueKind)
        ensures
            kind == self.kind(),
    {
        match self {
            Measurement::Percent { .. } => ValueKind::Float64,
            Measurement::PercentPerCore { .. } => ValueKind::Float64,
            Measurement::Signed(_) => ValueKind::Signed64,
            Measurement::Unsigned(_) => ValueKind::Unsigned64,
        }
    }
}

/// One value to record: into which gauge, and with which tags.
#[derive(Debug, PartialEq, Eq)]
pub struct Observation {
    /// The gauge.
    pub instrument: InstrumentId,
    /// The value.
    pub value: Measurement,
    /// The tags, in order.
    pub attributes: Vec<Attribute>,
}

/// What an [`Observation`] stands for.
pub struct ObservationView {
    /// The gauge.
    pub instrument: InstrumentId,
    /// The value.
    pub value: Measurement,
    /// The tags, in order.
    pub attributes: Seq<AttributeView>,
}

impl View for Observation {
    type V = ObservationView;

    open spec fn view(&self) -> ObservationView {
        ObservationView {
            instrument: self.instrument,
            value: self.value,
            attributes: attribute_views(self.attributes@),
        }
    }
}

/// The observations that a list stands for, in order.
pub open spec fn observation_views(observations: Seq<Observation>) -> Seq<ObservationView> {
    Seq::new(observations.len(), |i: int| observations[i]@)
}

/// The observation of the CPU usage: the percentage as it was read, without
/// tags.
pub open spec fn cpu_usage_observation(counters: ProcessCounters) -> ObservationView {
    ObservationView {
        instrument: InstrumentId::CpuUsage,
        value: Measurement::Percent { bits: counters.cpu_percent_bits },
        attributes: Seq::empty(),
    }
}

/// The observation of the CPU utilization: the percentage of the same
/// counters divided by the number of cores, with the identity tags.
pub open spec fn cpu_utilization_observation(
    identity: IdentityView,
    core_count: u32,
    counters: ProcessCounters,
) -> ObservationView {
    ObservationView {
        instrument: InstrumentId::CpuUtilization,
        value: Measurement::PercentPerCore { bits: counters.cpu_percent_bits, cores: core_count },
        attributes: identity_tags(identity),
    }
}

/// The observation of a counter for a signed gauge: one where the counter
/// fits, none where it does not.
pub open spec fn signed_observation(
    instrument: InstrumentId,
    raw: u64,
    tags: Seq<AttributeView>,
) -> Seq<ObservationView> {
    match signed_of(raw) {
        Some(value) => seq![
            ObservationView { instrument, value: Measurement::Signed(value), attributes: tags },
        ],
        None => Seq::empty(),
    }
}

/// What the narrowing of a counter for a signed gauge has to report: nothing
/// where the counter fits, one failure where it does not.
pub open spec fn signed_issue(raw: u64) -> Seq<ObserverError> {
    match signed_of(raw) {
        Some(_) => Seq::empty(),
        None => seq![ObserverError::NumericConversionFailure],
    }
}

/// The GPU memory that is recorded: the bytes that are known, else zero.
pub open spec fn gpu_bytes(counters: ProcessCounters) -> u64 {
    match counters.gpu_memory_bytes {
        Some(bytes) => bytes,
        None => 0,
    }
}

/// The observation of the GPU memory, with the identity tags.
pub open spec fn gpu_observation(
    identity: IdentityView,
    counters: ProcessCounters,
) -> ObservationView {
    ObservationView {
        instrument: InstrumentId::GpuMemoryUsage,
        value: Measurement::Unsigned(gpu_bytes(counters)),
        attributes: identity_tags(identity),
    }
}

/// The observation of the resident memory, with the identity tags: none
/// where the counter does not fit.
pub open spec fn resident_observation(identity: IdentityView, counters: ProcessCounters) -> Seq<
    ObservationView,
> {
    signed_observation(
        InstrumentId::MemoryUsage,
        counters.resident_memory_bytes,
        identity_tags(identity),
    )
}

/// The observation of the virtual memory, with the identity tags: none
/// where the counter does not fit.
pub open spec fn virtual_observation(identity: IdentityView, counters: ProcessCounters) -> Seq<
    ObservationView,
> {
    signed_observation(
        InstrumentId::MemoryVirtual,
        counters.virtual_memory_bytes,
        identity_tags(identity),
    )
}

/// The disk bytes of the counters that went one way.
pub open spec fn disk_bytes(counters: ProcessCounters, direction: Direction) -> u64 {
    match direction {
        Direction::Read => counters.disk_read_bytes,
        Direction::Write => counters.disk_write_bytes,
    }
}

/// The observation of the disk bytes that went one way, with the identity
/// tags and the direction: none where the counter does not fit.
pub open spec fn disk_observation(
    identity: IdentityView,
    counters: ProcessCounters,
    direction: Direction,
) -> Seq<ObservationView> {
    signed_observation(
        InstrumentId::DiskIo,
        disk_bytes(counters, direction),
        directed_tags(identity, direction),
    )
}

/// Everything that one recording pass records, in order.
pub open spec fn recording(
    identity: IdentityView,
    core_count: u32,
    counters: ProcessCounters,
) -> Seq<ObservationView> {
    seq![
        cpu_usage_observation(counters),
        cpu_utilization_observation(identity, core_count, counters),
    ] + resident_observation(identity, counters) + virtual_observation(identity, counters)
        + disk_observation(identity, counters, Direction::Read) + disk_observation(
        identity,
        counters,
        Direction::Write,
    ) + seq![gpu_observation(identity, counters)]
}

/// The failures of one recording pass, in the order of the counters: one for
/// each of resident memory, virtual memory, disk bytes read and disk bytes
/// written that does not fit a signed gauge.
pub open spec fn conversion_issues(counters: ProcessCounters) -> Seq<ObserverError> {
    signed_issue(counters.resident_memory_bytes) + signed_issue(counters.virtual_memory_bytes)
        + signed_issue(counters.disk_read_bytes) + signed_issue(counters.disk_write_bytes)
}

/// What one recording pass records, and what it had to leave out.
#[derive(Debug, PartialEq, Eq)]
pub struct TickPlan {
    /// The observations, in the order in which they are recorded.
    pub observations: Vec<Observation>,
    /// One failure for each observation that was left out.
    pub issues: Vec<ObserverError>,
}

/// What a [`TickPlan`] stands for.
pub struct TickPlanView {
    /// The observations, in the order in which they are recorded.
    pub observations: Seq<ObservationView>,
    /// One failure for each observation that was left out.
    pub issues: Seq<ObserverError>,
}

impl View for TickPlan {
    type V = TickPlanView;

    open spec fn view(&self) -> TickPlanView {
        TickPlanView {
            observations: observation_views(self.observations@),
            issues: self.issues@,
        }
    }
}

/// Appending one observation appends its view.
proof fn lemma_views_push(observations: Seq<Observation>, observation: Observation)
    ensures
        observation_views(observations.push(observation)) == observation_views(observations).push(
            observation@,
        ),
{
    assert(observation_views(observations.push(observation)) =~= observation_views(
        observations,
    ).push(observation@));
}

/// Narrows one counter for a signed gauge and appends what comes of it: the
/// observation where the counter fits, a failure where it does not.
fn push_signed(
    plan: &mut TickPlan,
    instrument: InstrumentId,
    raw: u64,
    tags: Vec<Attribute>,
)
    ensures
        final(plan)@.observations == old(plan)@.observations + signed_observation(
            instrument,
            raw,
            attribute_views(tags@),
        ),
        final(plan)@.issues == old(plan)@.issues + signed_issue(raw),
{
    match narrow_signed(raw) {
        Ok(value) => {
            let observation = Observation {
                instrument,
                value: Measurement::Signed(value),
                attributes: tags,
            };
            proof {
                lemma_views_push(plan.observations@, observation);
                assert(plan@.observations.push(observation@) =~= plan@.observations + seq![
                    observation@,
                ]);
                assert(plan@.issues =~= plan@.issues + Seq::<ObserverError>::empty());
            }
            plan.observations.push(observation);
        },
        Err(failure) => {
            proof {
                assert(plan@.observations =~= plan@.observations + Seq::<
                    ObservationView,
                >::empty());
                assert(plan@.issues.push(failure) =~= plan@.issues + seq![failure]);
            }
            plan.issues.push(failure);
        },
    }
}

/// Plans one recording pass from the counters of one tick.
///
/// The CPU usage is recorded as it was read and without tags.  The CPU
/// utilization is the usage of the same counters over `core_count`.  The two
/// memory counters and the two disk counters are narrowed to signed values;
/// one that does not fit is left out and reported as
/// [`ObserverError::NumericConversionFailure`], and the others are recorded
/// all the same.  The two disk observations carry the identity tags and the
/// `direction` tag.  GPU memory is always recorded, as zero where the
/// counters hold none.
pub fn plan_recording(
    identity: &IdentityAttributes,
    core_count: u32,
    counters: &ProcessCounters,
) -> (plan: TickPlan)
    ensures
        plan@.observations == recording(identity@, core_count, *counters),
        plan@.issues == conversion_issues(*counters),
{
    let mut plan = TickPlan { observations: Vec::new(), issues: Vec::new() };
    let usage = Observation {
        instrument: InstrumentId::CpuUsage,
        value: Measurement::Percent { bits: counters.cpu_percent_bits },
        attributes: Vec::new(),
    };
    let utilization = Observation {
        instrument: InstrumentId::CpuUtilization,
        value: Measurement::PercentPerCore { bits: counters.cpu_percent_bits, cores: core_count },
        attributes: identity.tags(),
    };
    proof {
        assert(usage@.attributes =~= Seq::<AttributeView>::empty());
        assert(usage@ == cpu_usage_observation(*counters));
        assert(utilization@ == cpu_utilization_observation(identity@, core_count, *counters));
        lemma_views_push(plan.observations@, usage);
        lemma_views_push(plan.observations@.push(usage), utilization);
    }
    plan.observations.push(usage);
    plan.observations.push(utilization);
    proof {
        assert(plan@.observations =~= seq![
            cpu_usage_observation(*counters),
            cpu_utilization_observation(identity@, core_count, *counters),
        ]);
        assert(plan@.issues =~= Seq::<ObserverError>::empty());
    }
    push_signed(
        &mut plan,
        InstrumentId::MemoryUsage,
        counters.resident_memory_bytes,
        identity.tags(),
    );
    push_signed(
        &mut plan,
        InstrumentId::MemoryVirtual,
        counters.virtual_memory_bytes,
        identity.tags(),
    );
    push_signed(
        &mut plan,
        InstrumentId::DiskIo,
        counters.disk_read_bytes,
        identity.directed(Direction::Read),
    );
    push_signed(
        &mut plan,
        InstrumentId::DiskIo,
        counters.disk_write_bytes,
        identity.directed(Direction::Write),
    );
    let gpu_memory = match counters.gpu_memory_bytes {
        Some(bytes) => bytes,
        None => 0,
    };
    let gpu = Observation {
        instrument: InstrumentId::GpuMemoryUsage,
        value: Measurement::Unsigned(gpu_memory),
        attributes: identity.tags(),
    };
    proof {
        assert(gpu@ == gpu_observation(identity@, *counters));
        lemma_views_push(plan.observations@, gpu);
        assert(plan@.observations.push(gpu@) =~= plan@.observations + seq![gpu@]);
        assert(plan@.issues =~= conversion_issues(*counters));
    }
    plan.observations.push(gpu);
    plan
}

} // verus!
