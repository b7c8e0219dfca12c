//! The GPU extension: best-effort lookup of the GPU memory of one process.
//!
//! Whether a GPU management interface exists is found out once, when a
//! session starts.  Where it exists, each tick looks for the observed
//! process among the compute processes of the first device, and of no other
//! device.

use vstd::prelude::*;
use crate::error::ObserverError;

verus! {

/// The index of the only device that is inspected.
pub const FIRST_DEVICE: u32 = 0;

/// Proof that a GPU management interface was found when the session started.
#[derive(Clone, Copy, Debug, PartialEq, Eq, Structural)]
pub struct GpuHandle {
    device_index: u32,
}

impl GpuHandle {
    /// The handle that [`init_gpu`] gives: it names the first device.
    pub closed spec fn first_device() -> GpuHandle {
        GpuHandle { device_index: FIRST_DEVICE }
    }

    /// The index of the device whose compute processes are listed.
    pub closed spec fn device(self) -> u32 {
        self.device_index
    }

    /// The handle of the first device names the first device.
    pub proof fn lemma_first_device()
        ensures
            GpuHandle::first_device().device() == FIRST_DEVICE,
    {
    }

    /// The index of the device whose compute processes are listed.
    pub fn device_index(&self) -> (index: u32)
        ensures
            index == self.device(),
    {
        self.device_index
    }
}

/// The GPU memory that a compute process uses, as far as the driver tells.
#[derive(Clone, Copy, Debug, PartialEq, Eq, Structural)]
pub enum GpuMemoryUse {
    /// The driver gave a number of bytes.
    Known(u64),
    /// The driver gave none.
    Unknown,
}

impl GpuMemoryUse {
    /// The bytes that are reported for the use: zero where they are unknown.
    pub open spec fn bytes(self) -> u64 {
        match self {
            GpuMemoryUse::Known(bytes) => bytes,
            GpuMemoryUse::Unknown => 0,
        }
    }
}

/// One compute process on a device.
#[derive(Clone, Copy, Debug, PartialEq, Eq, Structural)]
pub struct GpuProcess {
    /// The process id.
    pub pid: u32,
    /// The GPU memory that the process uses.
    pub used_memory: GpuMemoryUse,
}

/// Takes note of whether a GPU management interface is present.
///
/// Where it is, the handle names the first device.  Where it is not, the
/// result is [`ObserverError::GpuUnavailable`], which ends nothing: the
/// session then reports zero GPU memory at every tick.
pub fn init_gpu(interface_present: bool) -> (gpu: Result<GpuHandle, ObserverError>)
    ensures
        interface_present ==> gpu == Ok::<GpuHandle, ObserverError>(GpuHandle::first_device()),
        gpu matches Ok(handle) ==> handle.device() == FIRST_DEVICE,
        !interface_present ==> gpu == Err::<GpuHandle, ObserverError>(
            ObserverError::GpuUnavailable,
        ),
{
    if interface_present {
        Ok(GpuHandle { device_index: FIRST_DEVICE })
    } else {
        Err(ObserverError::GpuUnavailable)
    }
}

/// The bytes of the first compute process in `processes` that has the pid, if
/// one has it.
pub open spec fn first_match(pid: u32, processes: Seq<GpuProcess>) -> Option<u64>
    decreases processes.len(),
{
    if processes.len() == 0 {
        None
    } else if processes[0].pid == pid {
        Some(processes[0].used_memory.bytes())
    } else {
        first_match(pid, processes.skip(1))
    }
}

impl GpuHandle {
    /// The GPU memory of the process `pid` among the compute processes of the
    /// handle's device, which the caller has listed.
    ///
    /// The first process with that pid decides: its bytes where the driver gave
    /// them, zero where it gave none.  Without such a process there is no
    /// answer.
    pub fn sample(&self, pid: u32, processes: &Vec<GpuProcess>) -> (bytes: Option<u64>)
        ensures
            bytes == first_match(pid, processes@),
            bytes is Some <==> exists|i: int| 0 <= i < processes@.len() && processes@[i].pid == pid,
    {
        let mut index: usize = 0;
        proof {
            assert(processes@.skip(0) =~= processes@);
        }
        while index < processes.len()
            invariant
                index <= processes.len(),
                first_match(pid, processes@) == first_match(pid, processes@.skip(index as int)),
                forall|i: int| 0 <= i < index ==> processes@[i].pid != pid,
            decreases processes.len() - index,
        {
            let process = processes[index];
            proof {
                let rest = processes@.skip(index as int);
                assert(rest[0] == processes@[index as int]);
                assert(rest.skip(1) =~= processes@.skip(index as int + 1));
            }
            if process.pid == pid {
                let bytes = match process.used_memory {
                    GpuMemoryUse::Known(bytes) => bytes,
                    GpuMemoryUse::Unknown => 0,
                };
                return Some(bytes);
            }
            index = index + 1;
        }
        proof {
            assert(processes@.skip(index as int).len() == 0);
        }
        None
    }
}

} // verus!
