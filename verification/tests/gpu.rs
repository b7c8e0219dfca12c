use opentelemetry_system_metrics::error::ObserverError;
use opentelemetry_system_metrics::gpu::{
    init_gpu, GpuHandle, GpuMemoryUse, GpuProcess, FIRST_DEVICE,
};

fn handle() -> GpuHandle {
    init_gpu(true).unwrap()
}

fn known(pid: u32, bytes: u64) -> GpuProcess {
    GpuProcess { pid, used_memory: GpuMemoryUse::Known(bytes) }
}

fn unknown(pid: u32) -> GpuProcess {
    GpuProcess { pid, used_memory: GpuMemoryUse::Unknown }
}

#[test]
fn init_gpu_names_the_first_device() {
    assert_eq!(FIRST_DEVICE, 0);
    assert_eq!(init_gpu(true).map(|gpu| gpu.device_index()), Ok(0));
}

#[test]
fn init_gpu_without_an_interface_is_unavailable() {
    assert_eq!(init_gpu(false), Err(ObserverError::GpuUnavailable));
}

#[test]
fn sample_finds_the_process() {
    let processes = vec![known(5, 100), known(7, 4096), known(9, 1)];
    assert_eq!(handle().sample(7, &processes), Some(4096));
    assert_eq!(handle().sample(5, &processes), Some(100));
    assert_eq!(handle().sample(9, &processes), Some(1));
}

#[test]
fn sample_without_the_process_has_no_answer() {
    let processes = vec![known(5, 100), known(9, 1)];
    assert_eq!(handle().sample(7, &processes), None);
    assert_eq!(handle().sample(7, &Vec::new()), None);
    assert_eq!(handle().sample(u32::MAX, &processes), None);
}

#[test]
fn sample_counts_unknown_memory_as_zero() {
    let processes = vec![known(5, 100), unknown(7)];
    assert_eq!(handle().sample(7, &processes), Some(0));
}

#[test]
fn sample_takes_the_first_of_two_matches() {
    let processes = vec![known(7, 11), known(7, 22)];
    assert_eq!(handle().sample(7, &processes), Some(11));
    let processes = vec![unknown(7), known(7, 22)];
    assert_eq!(handle().sample(7, &processes), Some(0));
    let processes = vec![known(1, 5), known(7, u64::MAX), unknown(7)];
    assert_eq!(handle().sample(7, &processes), Some(u64::MAX));
}
