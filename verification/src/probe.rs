//! Sampling the host through `sysinfo`, and the host report on what was
//! sampled.
//!
//! A sample is whatever the operating system says at the moment of the
//! call, so nothing is promised about the values: the contracts here say
//! what holds of the report whatever the sample was.

use vstd::prelude::*;
use crate::host::{
    is_system_report, system_report, DiskUsage, HostIdentity, HostSnapshot, MemorySnapshot,
    NetworkRecord, ProcessRecord,
};
use crate::report::Report;

verus! {

/// `sysinfo::System`: the live view of memory, processors and processes.
#[verifier::external_type_specification]
#[verifier::external_body]
pub struct ExSystem(sysinfo::System);

/// `System::new_all` loads everything; nothing is claimed about what it finds.
pub assume_specification[ sysinfo::System::new_all ]() -> (system: sysinfo::System)
;

/// `System::refresh_all` reads everything anew; nothing is claimed about the
/// state afterwards.
pub assume_specification[ sysinfo::System::refresh_all ](system: &mut sysinfo::System)
;

/// `System::total_memory` gives the RAM size in bytes as last read.
pub assume_specification[ sysinfo::System::total_memory ](system: &sysinfo::System) -> (bytes: u64)
;

/// `System::used_memory` gives the RAM in use in bytes as last read.
pub assume_specification[ sysinfo::System::used_memory ](system: &sysinfo::System) -> (bytes: u64)
;

/// `System::total_swap` gives the swap size in bytes as last read.
pub assume_specification[ sysinfo::System::total_swap ](system: &sysinfo::System) -> (bytes: u64)
;

/// `System::used_swap` gives the swap in use in bytes as last read.
pub assume_specification[ sysinfo::System::used_swap ](system: &sysinfo::System) -> (bytes: u64)
;

/// `System::name` gives the name of the operating system, where it is known.
pub assume_specification[ sysinfo::System::name ]() -> (name: Option<String>)
;

/// `System::kernel_version` gives the kernel version, where it is known.
pub assume_specification[ sysinfo::System::kernel_version ]() -> (version: Option<String>)
;

/// `System::os_version` gives the operating-system version, where it is known.
pub assume_specification[ sysinfo::System::os_version ]() -> (version: Option<String>)
;

/// `System::host_name` gives the host name, where it is known.
pub assume_specification[ sysinfo::System::host_name ]() -> (name: Option<String>)
;

/// The length of the slice that `System::cpus` gives.
#[verifier::external_body]
fn cpu_count(system: &sysinfo::System) -> (count: usize) {
    system.cpus().len()
}

/// Walks the map that `System::processes` gives, in the map's own order, and
/// copies of each process the identifier (`Pid::as_u32`), the name as
/// `Process::name` shows it under `{:?}`, and the four counters of
/// `Process::disk_usage`.
#[verifier::external_body]
fn process_records(system: &sysinfo::System) -> (records: Vec<ProcessRecord>) {
    let mut records = Vec::new();
    for (pid, process) in system.processes() {
        let usage = process.disk_usage();
        let disk_usage = DiskUsage {
            total_written_bytes: usage.total_written_bytes,
            written_bytes: usage.written_bytes,
            total_read_bytes: usage.total_read_bytes,
            read_bytes: usage.read_bytes,
        };
        let name = format!("{:?}", process.name());
        records.push(ProcessRecord { pid: pid.as_u32(), name, disk_usage });
    }
    records
}

/// Lists the disks with `Disks::new_with_refreshed_list`, walks them in
/// list order and takes of each what `sysinfo` shows of it under `{:?}`.
/// Nothing is claimed about what is found.
#[verifier::external_body]
fn disk_descriptions() -> (descriptions: Vec<String>) {
    let disks = sysinfo::Disks::new_with_refreshed_list();
    let mut descriptions = Vec::new();
    for disk in &disks {
        descriptions.push(format!("{:?}", disk));
    }
    descriptions
}

/// Lists the network interfaces with `Networks::new_with_refreshed_list`,
/// walks them in the map's own order and copies of each the name and what
/// `NetworkData::total_received` and `NetworkData::total_transmitted` give.
/// Nothing is claimed about what is found.
#[verifier::external_body]
fn network_records() -> (records: Vec<NetworkRecord>) {
    let networks = sysinfo::Networks::new_with_refreshed_list();
    let mut records = Vec::new();
    for (interface, data) in &networks {
        let interface = interface.clone();
        let total_received = data.total_received();
        let total_transmitted = data.total_transmitted();
        records.push(NetworkRecord { interface, total_received, total_transmitted });
    }
    records
}

/// Lists the thermal components with `Components::new_with_refreshed_list`,
/// walks them in list order and takes of each what `sysinfo` shows of it
/// under `{:?}`. Nothing is claimed about what is found.
#[verifier::external_body]
fn component_descriptions() -> (descriptions: Vec<String>) {
    let components = sysinfo::Components::new_with_refreshed_list();
    let mut descriptions = Vec::new();
    for component in &components {
        descriptions.push(format!("{:?}", component));
    }
    descriptions
}

/// Samples the host once: memory and swap, identity, processors, processes,
/// then disks, network interfaces and thermal components.
pub fn sample_host() -> (snapshot: HostSnapshot) {
    let mut system = sysinfo::System::new_all();
    system.refresh_all();
    let memory = MemorySnapshot {
        total_memory: system.total_memory(),
        used_memory: system.used_memory(),
        total_swap: system.total_swap(),
        used_swap: system.used_swap(),
    };
    let identity = HostIdentity {
        system_name: sysinfo::System::name(),
        kernel_version: sysinfo::System::kernel_version(),
        os_version: sysinfo::System::os_version(),
        host_name: sysinfo::System::host_name(),
    };
    let cpu_count = cpu_count(&system);
    let processes = process_records(&system);
    let disks = disk_descriptions();
    let networks = network_records();
    let components = component_descriptions();
    HostSnapshot { memory, identity, cpu_count, processes, disks, networks, components }
}

/// Samples the host and writes its report. Whatever the sample, the result
/// is the report of one snapshot, so all that is proved of host reports
/// holds of it.
pub fn get_system_info() -> (report: Report)
    ensures
        is_system_report(report@),
{
    let snapshot = sample_host();
    system_report(&snapshot)
}

} // verus!
