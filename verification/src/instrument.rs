//! The instrument registry: the six gauges and their fixed schema.

use vstd::prelude::*;

verus! {

/// The six gauges of a session.
#[derive(Clone, Copy, Debug, PartialEq, Eq, Structural)]
pub enum InstrumentId {
    /// `process.cpu.usage`: the CPU percentage as the operating system sums
    /// it over the cores, reported without tags.
    CpuUsage,
    /// `process.cpu.utilization`: the CPU percentage divided by the number of
    /// physical cores.
    CpuUtilization,
    /// `process.memory.usage`: resident memory.
    MemoryUsage,
    /// `process.memory.virtual`: virtual memory.
    MemoryVirtual,
    /// `process.disk.io`: disk bytes, tagged with their direction.
    DiskIo,
    /// `process.gpu.memory.usage`: GPU memory, zero where none is known.
    GpuMemoryUsage,
}

/// What kind of instrument one is.  Every instrument of a session reports a
/// value at a point in time.
#[derive(Clone, Copy, Debug, PartialEq, Eq, Structural)]
pub enum InstrumentKind {
    /// A value at a point in time.
    Gauge,
}

/// The type of the values that an instrument takes.
#[derive(Clone, Copy, Debug, PartialEq, Eq, Structural)]
pub enum ValueKind {
    /// A 64-bit floating-point number.
    Float64,
    /// A signed 64-bit integer.
    Signed64,
    /// An unsigned 64-bit integer.
    Unsigned64,
}

impl InstrumentId {
    /// The name under which the gauge is created.
    pub open spec fn name_text(self) -> Seq<char> {
        match self {
            InstrumentId::CpuUsage => "process.cpu.usage"@,
            InstrumentId::CpuUtilization => "process.cpu.utilization"@,
            InstrumentId::MemoryUsage => "process.memory.usage"@,
            InstrumentId::MemoryVirtual => "process.memory.virtual"@,
            InstrumentId::DiskIo => "process.disk.io"@,
            InstrumentId::GpuMemoryUsage => "process.gpu.memory.usage"@,
        }
    }

    /// The unit of the gauge.
    pub open spec fn unit_text(self) -> Seq<char> {
        match self {
            InstrumentId::CpuUsage => "percent"@,
            InstrumentId::CpuUtilization => "percent"@,
            InstrumentId::MemoryUsage => "byte"@,
            InstrumentId::MemoryVirtual => "byte"@,
            InstrumentId::DiskIo => "byte"@,
            InstrumentId::GpuMemoryUsage => "byte"@,
        }
    }

    /// The description of the gauge.
    pub open spec fn description_text(self) -> Seq<char> {
        match self {
            InstrumentId::CpuUsage => "The percentage of CPU in use."@,
            InstrumentId::CpuUtilization => "The amount of CPU in use."@,
            InstrumentId::MemoryUsage => "The amount of physical memory in use."@,
            InstrumentId::MemoryVirtual => "The amount of committed virtual memory."@,
            InstrumentId::DiskIo => "Disk bytes transferred."@,
            InstrumentId::GpuMemoryUsage => "The amount of physical GPU memory in use."@,
        }
    }

    /// The type of the values that the gauge takes.
    pub open spec fn value_kind_of(self) -> ValueKind {
        match self {
            InstrumentId::CpuUsage => ValueKind::Float64,
            InstrumentId::CpuUtilization => ValueKind::Float64,
            InstrumentId::MemoryUsage => ValueKind::Signed64,
            InstrumentId::MemoryVirtual => ValueKind::Signed64,
            InstrumentId::DiskIo => ValueKind::Signed64,
            InstrumentId::GpuMemoryUsage => ValueKind::Unsigned64,
        }
    }

    /// The name under which the gauge is created.
    pub fn name(&self) -> (name: &'static str)
        ensures
            name@ == self.name_text(),
    {
        match self {
            InstrumentId::CpuUsage => "process.cpu.usage",
            InstrumentId::CpuUtilization => "process.cpu.utilization",
            InstrumentId::MemoryUsage => "process.memory.usage",
            InstrumentId::MemoryVirtual => "process.memory.virtual",
            InstrumentId::DiskIo => "process.disk.io",
            InstrumentId::GpuMemoryUsage => "process.gpu.memory.usage",
        }
    }

    /// The unit of the gauge.
    pub fn unit(&self) -> (unit: &'static str)
        ensures
            unit@ == self.unit_text(),
    {
        match self {
            InstrumentId::CpuUsage => "percent",
            InstrumentId::CpuUtilization => "percent",
            InstrumentId::MemoryUsage => "byte",
            InstrumentId::MemoryVirtual => "byte",
            InstrumentId::DiskIo => "byte",
            InstrumentId::GpuMemoryUsage => "byte",
        }
    }

    /// The description of the gauge.
    pub fn description(&self) -> (description: &'static str)
        ensures
            description@ == self.description_text(),
    {
        match self {
            InstrumentId::CpuUsage => "The percentage of CPU in use.",
            InstrumentId::CpuUtilization => "The amount of CPU in use.",
            InstrumentId::MemoryUsage => "The amount of physical memory in use.",
            InstrumentId::MemoryVirtual => "The amount of committed virtual memory.",
            InstrumentId::DiskIo => "Disk bytes transferred.",
            InstrumentId::GpuMemoryUsage => "The amount of physical GPU memory in use.",
        }
    }

    /// The type of the values that the gauge takes.
    pub fn value_kind(&self) -> (kind: ValueKind)
        ensures
            kind == self.value_kind_of(),
    {
        match self {
            InstrumentId::CpuUsage => ValueKind::Float64,
            InstrumentId::CpuUtilization => ValueKind::Float64,
            InstrumentId::MemoryUsage => ValueKind::Signed64,
            InstrumentId::MemoryVirtual => ValueKind::Signed64,
            InstrumentId::DiskIo => ValueKind::Signed64,
            InstrumentId::GpuMemoryUsage => ValueKind::Unsigned64,
        }
    }
}

/// One instrument: what a reporting backend needs to create its gauge.
#[derive(Clone, Copy, Debug, PartialEq, Eq)]
pub struct Instrument {
    /// Which of the six gauges this is.
    pub id: InstrumentId,
    /// The name of the gauge.
    pub name: &'static str,
    /// The unit of its values.
    pub unit: &'static str,
    /// What it measures.
    pub description: &'static str,
    /// The kind of instrument.
    pub kind: InstrumentKind,
    /// The type of its values.
    pub value_kind: ValueKind,
}

/// What an [`Instrument`] stands for.
pub struct InstrumentView {
    /// Which of the six gauges this is.
    pub id: InstrumentId,
    /// The name of the gauge.
    pub name: Seq<char>,
    /// The unit of its values.
    pub unit: Seq<char>,
    /// What it measures.
    pub description: Seq<char>,
    /// The kind of instrument.
    pub kind: InstrumentKind,
    /// The type of its values.
    pub value_kind: ValueKind,
}

impl View for Instrument {
    type V = InstrumentView;

    open spec fn view(&self) -> InstrumentView {
        InstrumentView {
            id: self.id,
            name: self.name@,
            unit: self.unit@,
            description: self.description@,
            kind: self.kind,
            value_kind: self.value_kind,
        }
    }
}

/// The entry of the fixed schema for one gauge.
pub open spec fn schema_entry(id: InstrumentId) -> InstrumentView {
    InstrumentView {
        id,
        name: id.name_text(),
        unit: id.unit_text(),
        description: id.description_text(),
        kind: InstrumentKind::Gauge,
        value_kind: id.value_kind_of(),
    }
}

/// The fixed schema: the six gauges in the order in which they are created.
pub open spec fn schema() -> Seq<InstrumentView> {
    seq![
        schema_entry(InstrumentId::CpuUsage),
        schema_entry(InstrumentId::CpuUtilization),
        schema_entry(InstrumentId::MemoryUsage),
        schema_entry(InstrumentId::MemoryVirtual),
        schema_entry(InstrumentId::DiskIo),
        schema_entry(InstrumentId::GpuMemoryUsage),
    ]
}

/// The instruments that a list stands for, in order.
pub open spec fn instrument_views(instruments: Seq<Instrument>) -> Seq<InstrumentView> {
    Seq::new(instruments.len(), |i: int| instruments[i]@)
}

impl Instrument {
    /// The instrument for one of the six gauges.
    pub fn describe(id: InstrumentId) -> (instrument: Instrument)
        ensures
            instrument@ == schema_entry(id),
    {
        Instrument {
            id,
            name: id.name(),
            unit: id.unit(),
            description: id.description(),
            kind: InstrumentKind::Gauge,
            value_kind: id.value_kind(),
        }
    }
}

/// The instruments of one session.  They are created together when the
/// session starts and stay as they are while it lasts.
#[derive(Debug, PartialEq, Eq)]
pub struct InstrumentSet {
    instruments: Vec<Instrument>,
}

impl View for InstrumentSet {
    type V = Seq<InstrumentView>;

    closed spec fn view(&self) -> Seq<InstrumentView> {
        instrument_views(self.instruments@)
    }
}

impl InstrumentSet {
    /// How many instruments the set holds.
    pub fn len(&self) -> (count: usize)
        ensures
            count == self@.len(),
    {
        self.instruments.len()
    }

    /// The instrument at a position of the set, if the position is in it.
    pub fn get(&self, position: usize) -> (instrument: Option<Instrument>)
        ensures
            position < self@.len() ==> instrument is Some && instrument->0@ == self@[
                position as int
            ],
            position >= self@.len() ==> instrument is None,
    {
        if position < self.instruments.len() {
            Some(self.instruments[position])
        } else {
            None
        }
    }

    /// The instruments in the order of the schema.
    pub fn to_vec(&self) -> (instruments: Vec<Instrument>)
        ensures
            instrument_views(instruments@) == self@,
    {
        let mut instruments: Vec<Instrument> = Vec::new();
        let mut position: usize = 0;
        while position < self.instruments.len()
            invariant
                position <= self.instruments.len(),
                instruments@ == self.instruments@.take(position as int),
            decreases self.instruments.len() - position,
        {
            instruments.push(self.instruments[position]);
            proof {
                assert(instruments@ =~= self.instruments@.take(position as int + 1));
            }
            position = position + 1;
        }
        proof {
            assert(self.instruments@.take(position as int) == self.instruments@);
        }
        instruments
    }
}

/// Creates the instruments of a session: exactly the six gauges of the fixed
/// schema, in its order.
pub fn build_instruments() -> (set: InstrumentSet)
    ensures
        set@ == schema(),
{
    let mut instruments: Vec<Instrument> = Vec::new();
    instruments.push(Instrument::describe(InstrumentId::CpuUsage));
    instruments.push(Instrument::describe(InstrumentId::CpuUtilization));
    instruments.push(Instrument::describe(InstrumentId::MemoryUsage));
    instruments.push(Instrument::describe(InstrumentId::MemoryVirtual));
    instruments.push(Instrument::describe(InstrumentId::DiskIo));
    instruments.push(Instrument::describe(InstrumentId::GpuMemoryUsage));
    let set = InstrumentSet { instruments };
    proof {
        assert(set@ =~= schema());
    }
    set
}

} // verus!
