//! The host report: what is known of the machine at one instant, and the
//! lines that show it.

use vstd::prelude::*;
use vstd::string::StringExecFns;
use crate::report::{
    count_kind, count_stream, lemma_count_kind_add, lemma_count_kind_all, lemma_count_kind_four,
    lemma_count_kind_none, lemma_count_kind_one, lemma_count_stream_all, lemma_count_stream_none,
    standard_line, Line,
    LineKind, LineView, Report, Stream,
};
use crate::text::{
    absent_text, append_decimal, decimal_text, labelled, lemma_measured_text_injective, measured,
    optional, optional_chars, optional_text,
};

verus! {

/// RAM and swap, in bytes.
#[derive(Clone, Copy, Debug, PartialEq, Eq, Structural)]
pub struct MemorySnapshot {
    pub total_memory: u64,
    pub used_memory: u64,
    pub total_swap: u64,
    pub used_swap: u64,
}

/// How the operating system names itself. Any field may be unavailable on a
/// given platform.
#[derive(Clone, Debug, PartialEq, Eq)]
pub struct HostIdentity {
    pub system_name: Option<String>,
    pub kernel_version: Option<String>,
    pub os_version: Option<String>,
    pub host_name: Option<String>,
}

/// The mathematical content of a [`HostIdentity`].
pub struct HostIdentityView {
    pub system_name: Option<Seq<char>>,
    pub kernel_version: Option<Seq<char>>,
    pub os_version: Option<Seq<char>>,
    pub host_name: Option<Seq<char>>,
}

impl View for HostIdentity {
    type V = HostIdentityView;

    open spec fn view(&self) -> HostIdentityView {
        HostIdentityView {
            system_name: optional_chars(self.system_name),
            kernel_version: optional_chars(self.kernel_version),
            os_version: optional_chars(self.os_version),
            host_name: optional_chars(self.host_name),
        }
    }
}

/// Disk I/O counters of one process, in bytes.
#[derive(Clone, Copy, Debug, PartialEq, Eq, Structural)]
pub struct DiskUsage {
    pub total_written_bytes: u64,
    pub written_bytes: u64,
    pub total_read_bytes: u64,
    pub read_bytes: u64,
}

/// One running process. `name` holds the name in the form in which it is
/// shown: between double quotes, with escapes for what would not print.
#[derive(Clone, Debug, PartialEq, Eq)]
pub struct ProcessRecord {
    pub pid: u32,
    pub name: String,
    pub disk_usage: DiskUsage,
}

/// The mathematical content of a [`ProcessRecord`].
pub struct ProcessRecordView {
    pub pid: u32,
    pub name: Seq<char>,
    pub disk_usage: DiskUsage,
}

impl View for ProcessRecord {
    type V = ProcessRecordView;

    open spec fn view(&self) -> ProcessRecordView {
        ProcessRecordView { pid: self.pid, name: self.name@, disk_usage: self.disk_usage }
    }
}

/// One network interface with its cumulative byte counters since the
/// interface came up.
#[derive(Clone, Debug, PartialEq, Eq)]
pub struct NetworkRecord {
    pub interface: String,
    pub total_received: u64,
    pub total_transmitted: u64,
}

/// The mathematical content of a [`NetworkRecord`].
pub struct NetworkRecordView {
    pub interface: Seq<char>,
    pub total_received: u64,
    pub total_transmitted: u64,
}

impl View for NetworkRecord {
    type V = NetworkRecordView;

    open spec fn view(&self) -> NetworkRecordView {
        NetworkRecordView {
            interface: self.interface@,
            total_received: self.total_received,
            total_transmitted: self.total_transmitted,
        }
    }
}

/// Everything the host report shows, as sampled. A disk and a thermal
/// component are each held as their one-line description.
#[derive(Clone, Debug, PartialEq, Eq)]
pub struct HostSnapshot {
    pub memory: MemorySnapshot,
    pub identity: HostIdentity,
    pub cpu_count: usize,
    pub processes: Vec<ProcessRecord>,
    pub disks: Vec<String>,
    pub networks: Vec<NetworkRecord>,
    pub components: Vec<String>,
}

/// The mathematical content of a [`HostSnapshot`].
pub struct HostSnapshotView {
    pub memory: MemorySnapshot,
    pub identity: HostIdentityView,
    pub cpu_count: usize,
    pub processes: Seq<ProcessRecordView>,
    pub disks: Seq<Seq<char>>,
    pub networks: Seq<NetworkRecordView>,
    pub components: Seq<Seq<char>>,
}

/// The contents of a list of process records.
pub open spec fn process_views(records: Seq<ProcessRecord>) -> Seq<ProcessRecordView> {
    records.map_values(|record: ProcessRecord| record@)
}

/// The contents of a list of network records.
pub open spec fn network_views(records: Seq<NetworkRecord>) -> Seq<NetworkRecordView> {
    records.map_values(|record: NetworkRecord| record@)
}

/// The contents of a list of strings.
pub open spec fn string_views(strings: Seq<String>) -> Seq<Seq<char>> {
    strings.map_values(|s: String| s@)
}

impl View for HostSnapshot {
    type V = HostSnapshotView;

    open spec fn view(&self) -> HostSnapshotView {
        HostSnapshotView {
            memory: self.memory,
            identity: self.identity@,
            cpu_count: self.cpu_count,
            processes: process_views(self.processes@),
            disks: string_views(self.disks@),
            networks: network_views(self.networks@),
            components: string_views(self.components@),
        }
    }
}

/// The line that opens the host report.
pub open spec fn system_heading() -> LineView {
    standard_line(LineKind::SystemHeading, "=> system:"@)
}

/// The four memory lines: total and used RAM, total and used swap.
pub open spec fn memory_lines(memory: MemorySnapshot) -> Seq<LineView> {
    seq![
        standard_line(
            LineKind::TotalMemory,
            "total memory: "@ + decimal_text(memory.total_memory as nat) + " bytes"@,
        ),
        standard_line(
            LineKind::UsedMemory,
            "used memory : "@ + decimal_text(memory.used_memory as nat) + " bytes"@,
        ),
        standard_line(
            LineKind::TotalSwap,
            "total swap  : "@ + decimal_text(memory.total_swap as nat) + " bytes"@,
        ),
        standard_line(
            LineKind::UsedSwap,
            "used swap   : "@ + decimal_text(memory.used_swap as nat) + " bytes"@,
        ),
    ]
}

/// The four identity lines. A line is there whether or not its value is.
pub open spec fn identity_lines(identity: HostIdentityView) -> Seq<LineView> {
    seq![
        standard_line(
            LineKind::SystemName,
            "System name:             "@ + optional_text(identity.system_name),
        ),
        standard_line(
            LineKind::KernelVersion,
            "System kernel version:   "@ + optional_text(identity.kernel_version),
        ),
        standard_line(
            LineKind::OsVersion,
            "System OS version:       "@ + optional_text(identity.os_version),
        ),
        standard_line(
            LineKind::HostName,
            "System host name:        "@ + optional_text(identity.host_name),
        ),
    ]
}

/// The line that gives the number of processors.
pub open spec fn cpu_count_line(cpu_count: usize) -> LineView {
    standard_line(LineKind::CpuCount, "NB CPUs: "@ + decimal_text(cpu_count as nat))
}

/// How the disk I/O counters of a process are shown.
pub open spec fn disk_usage_text(usage: DiskUsage) -> Seq<char> {
    "DiskUsage { total_written_bytes: "@ + decimal_text(usage.total_written_bytes as nat)
        + ", written_bytes: "@ + decimal_text(usage.written_bytes as nat)
        + ", total_read_bytes: "@ + decimal_text(usage.total_read_bytes as nat)
        + ", read_bytes: "@ + decimal_text(usage.read_bytes as nat) + " }"@
}

/// The text of a process line: identifier, name, disk usage.
pub open spec fn process_text(process: ProcessRecordView) -> Seq<char> {
    "["@ + decimal_text(process.pid as nat) + "] "@ + process.name + " "@ + disk_usage_text(
        process.disk_usage,
    )
}

/// The line of one process.
pub open spec fn process_line(process: ProcessRecordView) -> LineView {
    standard_line(LineKind::Process, process_text(process))
}

/// One line per process, in the order of the records.
pub open spec fn process_lines(processes: Seq<ProcessRecordView>) -> Seq<LineView> {
    processes.map_values(|process: ProcessRecordView| process_line(process))
}

/// The line that opens the list of disks.
pub open spec fn disks_heading() -> LineView {
    standard_line(LineKind::DisksHeading, "=> disks:"@)
}

/// The line of one disk: its description, unchanged.
pub open spec fn disk_line(description: Seq<char>) -> LineView {
    standard_line(LineKind::Disk, description)
}

/// One line per disk, in the order of the descriptions.
pub open spec fn disk_lines(disks: Seq<Seq<char>>) -> Seq<LineView> {
    disks.map_values(|description: Seq<char>| disk_line(description))
}

/// The line that opens the list of network interfaces.
pub open spec fn networks_heading() -> LineView {
    standard_line(LineKind::NetworksHeading, "=> networks:"@)
}

/// The text of a network line: interface, bytes received, bytes sent.
pub open spec fn network_text(network: NetworkRecordView) -> Seq<char> {
    network.interface + ": "@ + decimal_text(network.total_received as nat) + " B (down) / "@
        + decimal_text(network.total_transmitted as nat) + " B (up)"@
}

/// The line of one network interface.
pub open spec fn network_line(network: NetworkRecordView) -> LineView {
    standard_line(LineKind::Network, network_text(network))
}

/// One line per network interface, in the order of the records.
pub open spec fn network_lines(networks: Seq<NetworkRecordView>) -> Seq<LineView> {
    networks.map_values(|network: NetworkRecordView| network_line(network))
}

/// The line that opens the list of thermal components.
pub open spec fn components_heading() -> LineView {
    standard_line(LineKind::ComponentsHeading, "=> components:"@)
}

/// The line of one thermal component: its description, unchanged.
pub open spec fn component_line(description: Seq<char>) -> LineView {
    standard_line(LineKind::Component, description)
}

/// One line per thermal component, in the order of the descriptions.
pub open spec fn component_lines(components: Seq<Seq<char>>) -> Seq<LineView> {
    components.map_values(|description: Seq<char>| component_line(description))
}

/// The host report: heading, memory, identity, processors, processes,
/// disks, network interfaces, thermal components, in this fixed order.
pub open spec fn system_report_lines(snapshot: HostSnapshotView) -> Seq<LineView> {
    seq![system_heading()] + memory_lines(snapshot.memory) + identity_lines(snapshot.identity)
        + seq![cpu_count_line(snapshot.cpu_count)] + process_lines(snapshot.processes)
        + seq![disks_heading()] + disk_lines(snapshot.disks) + seq![networks_heading()]
        + network_lines(snapshot.networks) + seq![components_heading()] + component_lines(
        snapshot.components,
    )
}

/// Writes the heading and the four memory lines.
pub fn memory_report(memory: &MemorySnapshot) -> (report: Report)
    ensures
        report@ == seq![system_heading()] + memory_lines(*memory),
{
    let mut report = Report::new();
    report.push(Line::standard(LineKind::SystemHeading, String::from_str("=> system:")));
    report.push(
        Line::standard(
            LineKind::TotalMemory,
            measured("total memory: ", memory.total_memory, " bytes"),
        ),
    );
    report.push(
        Line::standard(
            LineKind::UsedMemory,
            measured("used memory : ", memory.used_memory, " bytes"),
        ),
    );
    report.push(
        Line::standard(LineKind::TotalSwap, measured("total swap  : ", memory.total_swap, " bytes")),
    );
    report.push(
        Line::standard(LineKind::UsedSwap, measured("used swap   : ", memory.used_swap, " bytes")),
    );
    report
}

/// Writes the four identity lines, each with its value or the absence marker.
pub fn identity_report(identity: &HostIdentity) -> (report: Report)
    ensures
        report@ == identity_lines(identity@),
{
    let mut report = Report::new();
    let name = optional(&identity.system_name);
    report.push(
        Line::standard(LineKind::SystemName, labelled("System name:             ", name.as_str())),
    );
    let kernel = optional(&identity.kernel_version);
    report.push(
        Line::standard(
            LineKind::KernelVersion,
            labelled("System kernel version:   ", kernel.as_str()),
        ),
    );
    let os = optional(&identity.os_version);
    report.push(
        Line::standard(LineKind::OsVersion, labelled("System OS version:       ", os.as_str())),
    );
    let host = optional(&identity.host_name);
    report.push(
        Line::standard(LineKind::HostName, labelled("System host name:        ", host.as_str())),
    );
    report
}

/// Writes the line that gives the number of processors.
pub fn cpu_count_report(cpu_count: usize) -> (line: Line)
    ensures
        line@ == cpu_count_line(cpu_count),
{
    let mut s = String::from_str("NB CPUs: ");
    append_decimal(&mut s, cpu_count as u64);
    Line::standard(LineKind::CpuCount, s)
}

/// Shows the disk I/O counters of a process.
pub fn disk_usage_string(usage: &DiskUsage) -> (s: String)
    ensures
        s@ == disk_usage_text(*usage),
{
    let mut s = String::from_str("DiskUsage { total_written_bytes: ");
    append_decimal(&mut s, usage.total_written_bytes);
    s.append(", written_bytes: ");
    append_decimal(&mut s, usage.written_bytes);
    s.append(", total_read_bytes: ");
    append_decimal(&mut s, usage.total_read_bytes);
    s.append(", read_bytes: ");
    append_decimal(&mut s, usage.read_bytes);
    s.append(" }");
    s
}

/// Writes the line of one process.
pub fn process_line_of(process: &ProcessRecord) -> (line: Line)
    ensures
        line@ == process_line(process@),
{
    let mut s = String::from_str("[");
    append_decimal(&mut s, process.pid as u64);
    s.append("] ");
    s.append(process.name.as_str());
    s.append(" ");
    let usage = disk_usage_string(&process.disk_usage);
    s.append(usage.as_str());
    Line::standard(LineKind::Process, s)
}

/// Writes one line per process, in the order given.
pub fn process_report(processes: &Vec<ProcessRecord>) -> (report: Report)
    ensures
        report@ == process_lines(process_views(processes@)),
{
    let mut report = Report::new();
    let mut i: usize = 0;
    while i < processes.len()
        invariant
            i <= processes.len(),
            report@ == process_lines(process_views(processes@)).take(i as int),
        decreases processes.len() - i,
    {
        report.push(process_line_of(&processes[i]));
        i = i + 1;
    }
    report
}

/// Writes one line per description, all of the given kind.
fn description_report(kind: LineKind, descriptions: &Vec<String>) -> (report: Report)
    ensures
        report@ == string_views(descriptions@).map_values(
            |description: Seq<char>| standard_line(kind, description),
        ),
{
    let ghost whole = string_views(descriptions@).map_values(
        |description: Seq<char>| standard_line(kind, description),
    );
    let mut report = Report::new();
    let mut i: usize = 0;
    while i < descriptions.len()
        invariant
            i <= descriptions.len(),
            whole == string_views(descriptions@).map_values(
                |description: Seq<char>| standard_line(kind, description),
            ),
            report@ == whole.take(i as int),
        decreases descriptions.len() - i,
    {
        report.push(Line::standard(kind, descriptions[i].clone()));
        i = i + 1;
    }
    report
}

/// Writes the disks heading and one line per disk.
pub fn disk_report(disks: &Vec<String>) -> (report: Report)
    ensures
        report@ == seq![disks_heading()] + disk_lines(string_views(disks@)),
{
    let mut report = Report::new();
    report.push(Line::standard(LineKind::DisksHeading, String::from_str("=> disks:")));
    let body = description_report(LineKind::Disk, disks);
    report.append(body);
    report
}

/// Writes the line of one network interface.
pub fn network_line_of(network: &NetworkRecord) -> (line: Line)
    ensures
        line@ == network_line(network@),
{
    let mut s = String::from_str(network.interface.as_str());
    s.append(": ");
    append_decimal(&mut s, network.total_received);
    s.append(" B (down) / ");
    append_decimal(&mut s, network.total_transmitted);
    s.append(" B (up)");
    Line::standard(LineKind::Network, s)
}

/// Writes the networks heading and one line per interface.
pub fn network_report(networks: &Vec<NetworkRecord>) -> (report: Report)
    ensures
        report@ == seq![networks_heading()] + network_lines(network_views(networks@)),
{
    let ghost body = network_lines(network_views(networks@));
    let mut report = Report::new();
    report.push(Line::standard(LineKind::NetworksHeading, String::from_str("=> networks:")));
    let mut i: usize = 0;
    while i < networks.len()
        invariant
            i <= networks.len(),
            body == network_lines(network_views(networks@)),
            report@ == seq![networks_heading()] + body.take(i as int),
        decreases networks.len() - i,
    {
        report.push(network_line_of(&networks[i]));
        i = i + 1;
    }
    report
}

/// Writes the components heading and one line per thermal component.
pub fn component_report(components: &Vec<String>) -> (report: Report)
    ensures
        report@ == seq![components_heading()] + component_lines(string_views(components@)),
{
    let mut report = Report::new();
    report.push(Line::standard(LineKind::ComponentsHeading, String::from_str("=> components:")));
    let body = description_report(LineKind::Component, components);
    report.append(body);
    assert(report@ =~= seq![components_heading()] + component_lines(
        string_views(components@),
    ));
    report
}

/// Writes the whole host report for `snapshot`.
pub fn system_report(snapshot: &HostSnapshot) -> (report: Report)
    ensures
        report@ == system_report_lines(snapshot@),
{
    let mut report = memory_report(&snapshot.memory);
    report.append(identity_report(&snapshot.identity));
    report.push(cpu_count_report(snapshot.cpu_count));
    report.append(process_report(&snapshot.processes));
    report.append(disk_report(&snapshot.disks));
    report.append(network_report(&snapshot.networks));
    report.append(component_report(&snapshot.components));
    report
}

/// How many lines of a kind the host report of `snapshot` holds: one for each
/// heading and each fixed field, one per process, disk, network interface and
/// thermal component, and none of any kind that belongs to the device report.
pub open spec fn expected_count(snapshot: HostSnapshotView, kind: LineKind) -> nat {
    match kind {
        LineKind::Process => snapshot.processes.len(),
        LineKind::Disk => snapshot.disks.len(),
        LineKind::Network => snapshot.networks.len(),
        LineKind::Component => snapshot.components.len(),
        LineKind::SystemHeading
        | LineKind::TotalMemory
        | LineKind::UsedMemory
        | LineKind::TotalSwap
        | LineKind::UsedSwap
        | LineKind::SystemName
        | LineKind::KernelVersion
        | LineKind::OsVersion
        | LineKind::HostName
        | LineKind::CpuCount
        | LineKind::DisksHeading
        | LineKind::NetworksHeading
        | LineKind::ComponentsHeading => 1,
        _ => 0,
    }
}

/// The index of the disks heading in the host report of `snapshot`. The
/// process lines stand before it, from index ten on.
pub open spec fn disks_heading_index(snapshot: HostSnapshotView) -> int {
    10 + snapshot.processes.len() as int
}

/// The index of the networks heading in the host report of `snapshot`.
pub open spec fn networks_heading_index(snapshot: HostSnapshotView) -> int {
    disks_heading_index(snapshot) + 1 + snapshot.disks.len()
}

/// The index of the components heading in the host report of `snapshot`.
pub open spec fn components_heading_index(snapshot: HostSnapshotView) -> int {
    networks_heading_index(snapshot) + 1 + snapshot.networks.len()
}

/// The host report has a fixed layout: thirteen lines that are always there
/// (four headings, four memory lines, four identity lines, the processor
/// count), and between them one line for each process, disk, network
/// interface and thermal component, in the order of the snapshot.
pub proof fn lemma_system_report_layout(snapshot: HostSnapshotView)
    ensures
        system_report_lines(snapshot).len() == 13 + snapshot.processes.len()
            + snapshot.disks.len() + snapshot.networks.len() + snapshot.components.len(),
        system_report_lines(snapshot)[0] == system_heading(),
        system_report_lines(snapshot).subrange(1, 5) == memory_lines(snapshot.memory),
        system_report_lines(snapshot).subrange(5, 9) == identity_lines(snapshot.identity),
        system_report_lines(snapshot)[9] == cpu_count_line(snapshot.cpu_count),
        system_report_lines(snapshot).subrange(10, disks_heading_index(snapshot))
            == process_lines(snapshot.processes),
        system_report_lines(snapshot)[disks_heading_index(snapshot)] == disks_heading(),
        system_report_lines(snapshot).subrange(
            disks_heading_index(snapshot) + 1,
            networks_heading_index(snapshot),
        ) == disk_lines(snapshot.disks),
        system_report_lines(snapshot)[networks_heading_index(snapshot)] == networks_heading(),
        system_report_lines(snapshot).subrange(
            networks_heading_index(snapshot) + 1,
            components_heading_index(snapshot),
        ) == network_lines(snapshot.networks),
        system_report_lines(snapshot)[components_heading_index(snapshot)]
            == components_heading(),
        system_report_lines(snapshot).subrange(
            components_heading_index(snapshot) + 1,
            system_report_lines(snapshot).len() as int,
        ) == component_lines(snapshot.components),
{
    let report = system_report_lines(snapshot);
    assert(report.subrange(10, disks_heading_index(snapshot)) =~= process_lines(
        snapshot.processes,
    ));
    assert(report.subrange(disks_heading_index(snapshot) + 1, networks_heading_index(snapshot))
        =~= disk_lines(snapshot.disks));
    assert(report.subrange(
        networks_heading_index(snapshot) + 1,
        components_heading_index(snapshot),
    ) =~= network_lines(snapshot.networks));
    assert(report.subrange(components_heading_index(snapshot) + 1, report.len() as int)
        =~= component_lines(snapshot.components));
}

/// The host report holds, of every kind of line, exactly the number that
/// [`expected_count`] gives, whatever the snapshot holds.
pub proof fn lemma_system_report_census(snapshot: HostSnapshotView, kind: LineKind)
    ensures
        count_kind(system_report_lines(snapshot), kind) == expected_count(snapshot, kind),
{
    let heading = seq![system_heading()];
    let memory = memory_lines(snapshot.memory);
    let identity = identity_lines(snapshot.identity);
    let cpus = seq![cpu_count_line(snapshot.cpu_count)];
    let processes = process_lines(snapshot.processes);
    let disks_head = seq![disks_heading()];
    let disks = disk_lines(snapshot.disks);
    let networks_head = seq![networks_heading()];
    let networks = network_lines(snapshot.networks);
    let components_head = seq![components_heading()];
    let components = component_lines(snapshot.components);

    lemma_count_kind_one(system_heading(), kind);
    lemma_count_kind_four(memory[0], memory[1], memory[2], memory[3], kind);
    lemma_count_kind_one(memory[0], kind);
    lemma_count_kind_one(memory[1], kind);
    lemma_count_kind_one(memory[2], kind);
    lemma_count_kind_one(memory[3], kind);
    lemma_count_kind_four(identity[0], identity[1], identity[2], identity[3], kind);
    lemma_count_kind_one(identity[0], kind);
    lemma_count_kind_one(identity[1], kind);
    lemma_count_kind_one(identity[2], kind);
    lemma_count_kind_one(identity[3], kind);
    lemma_count_kind_one(cpu_count_line(snapshot.cpu_count), kind);
    if kind == LineKind::Process {
        lemma_count_kind_all(processes, kind);
    } else {
        lemma_count_kind_none(processes, kind);
    }
    lemma_count_kind_one(disks_heading(), kind);
    if kind == LineKind::Disk {
        lemma_count_kind_all(disks, kind);
    } else {
        lemma_count_kind_none(disks, kind);
    }
    lemma_count_kind_one(networks_heading(), kind);
    if kind == LineKind::Network {
        lemma_count_kind_all(networks, kind);
    } else {
        lemma_count_kind_none(networks, kind);
    }
    lemma_count_kind_one(components_heading(), kind);
    if kind == LineKind::Component {
        lemma_count_kind_all(components, kind);
    } else {
        lemma_count_kind_none(components, kind);
    }

    let s1 = heading + memory;
    let s2 = s1 + identity;
    let s3 = s2 + cpus;
    let s4 = s3 + processes;
    let s5 = s4 + disks_head;
    let s6 = s5 + disks;
    let s7 = s6 + networks_head;
    let s8 = s7 + networks;
    let s9 = s8 + components_head;
    lemma_count_kind_add(heading, memory, kind);
    lemma_count_kind_add(s1, identity, kind);
    lemma_count_kind_add(s2, cpus, kind);
    lemma_count_kind_add(s3, processes, kind);
    lemma_count_kind_add(s4, disks_head, kind);
    lemma_count_kind_add(s5, disks, kind);
    lemma_count_kind_add(s6, networks_head, kind);
    lemma_count_kind_add(s7, networks, kind);
    lemma_count_kind_add(s8, components_head, kind);
    lemma_count_kind_add(s9, components, kind);
}

/// For a host with N running processes the report holds exactly N process
/// lines, in the order of the snapshot, and each of them shows the
/// identifier, the name and the disk usage of its process.
pub proof fn lemma_one_line_per_process(snapshot: HostSnapshotView)
    ensures
        count_kind(system_report_lines(snapshot), LineKind::Process)
            == snapshot.processes.len(),
        forall|i: int|
            0 <= i < snapshot.processes.len() ==> {
                let line = #[trigger] system_report_lines(snapshot)[10 + i];
                let process = snapshot.processes[i];
                &&& line.kind == LineKind::Process
                &&& line.stream == Stream::Standard
                &&& line.text == "["@ + decimal_text(process.pid as nat) + "] "@ + process.name
                    + " "@ + disk_usage_text(process.disk_usage)
            },
{
    lemma_system_report_census(snapshot, LineKind::Process);
}

/// The four identity lines are in every host report, at fixed places, each
/// once. Where a value is unavailable its line shows the absence marker
/// after the label; where it is available, the quoted value marked as
/// present.
pub proof fn lemma_identity_lines_always_shown(snapshot: HostSnapshotView)
    ensures
        count_kind(system_report_lines(snapshot), LineKind::SystemName) == 1,
        count_kind(system_report_lines(snapshot), LineKind::KernelVersion) == 1,
        count_kind(system_report_lines(snapshot), LineKind::OsVersion) == 1,
        count_kind(system_report_lines(snapshot), LineKind::HostName) == 1,
        system_report_lines(snapshot)[5] == standard_line(
            LineKind::SystemName,
            "System name:             "@ + optional_text(snapshot.identity.system_name),
        ),
        system_report_lines(snapshot)[6] == standard_line(
            LineKind::KernelVersion,
            "System kernel version:   "@ + optional_text(snapshot.identity.kernel_version),
        ),
        system_report_lines(snapshot)[7] == standard_line(
            LineKind::OsVersion,
            "System OS version:       "@ + optional_text(snapshot.identity.os_version),
        ),
        system_report_lines(snapshot)[8] == standard_line(
            LineKind::HostName,
            "System host name:        "@ + optional_text(snapshot.identity.host_name),
        ),
        snapshot.identity.system_name is None ==> system_report_lines(snapshot)[5].text
            == "System name:             "@ + absent_text(),
        snapshot.identity.kernel_version is None ==> system_report_lines(snapshot)[6].text
            == "System kernel version:   "@ + absent_text(),
        snapshot.identity.os_version is None ==> system_report_lines(snapshot)[7].text
            == "System OS version:       "@ + absent_text(),
        snapshot.identity.host_name is None ==> system_report_lines(snapshot)[8].text
            == "System host name:        "@ + absent_text(),
{
    lemma_system_report_census(snapshot, LineKind::SystemName);
    lemma_system_report_census(snapshot, LineKind::KernelVersion);
    lemma_system_report_census(snapshot, LineKind::OsVersion);
    lemma_system_report_census(snapshot, LineKind::HostName);
}

/// Every line of a host report is meant for the ordinary output.
pub proof fn lemma_system_report_is_standard(snapshot: HostSnapshotView)
    ensures
        forall|i: int|
            0 <= i < system_report_lines(snapshot).len() ==> (
            #[trigger] system_report_lines(snapshot)[i]).stream == Stream::Standard,
        count_stream(system_report_lines(snapshot), Stream::Diagnostic) == 0,
        count_stream(system_report_lines(snapshot), Stream::Standard) == system_report_lines(
            snapshot,
        ).len(),
{
    let report = system_report_lines(snapshot);
    lemma_count_stream_none(report, Stream::Diagnostic);
    lemma_count_stream_all(report, Stream::Standard);
}

/// The numeric lines of a host report depend on nothing but the number they
/// show: two snapshots give the same line for a number exactly when they
/// agree on that number, whatever else differs between them. Equal
/// snapshots give equal reports.
pub proof fn lemma_numeric_lines_repeat(a: HostSnapshotView, b: HostSnapshotView)
    ensures
        a.memory.total_memory == b.memory.total_memory <==> system_report_lines(a)[1]
            == system_report_lines(b)[1],
        a.memory.used_memory == b.memory.used_memory <==> system_report_lines(a)[2]
            == system_report_lines(b)[2],
        a.memory.total_swap == b.memory.total_swap <==> system_report_lines(a)[3]
            == system_report_lines(b)[3],
        a.memory.used_swap == b.memory.used_swap <==> system_report_lines(a)[4]
            == system_report_lines(b)[4],
        a.cpu_count == b.cpu_count <==> system_report_lines(a)[9] == system_report_lines(b)[9],
        a == b ==> system_report_lines(a) == system_report_lines(b),
{
    let ra = system_report_lines(a);
    let rb = system_report_lines(b);
    let bytes = " bytes"@;
    if ra[1] == rb[1] {
        lemma_measured_text_injective(
            "total memory: "@,
            a.memory.total_memory as nat,
            b.memory.total_memory as nat,
            bytes,
        );
    }
    if ra[2] == rb[2] {
        lemma_measured_text_injective(
            "used memory : "@,
            a.memory.used_memory as nat,
            b.memory.used_memory as nat,
            bytes,
        );
    }
    if ra[3] == rb[3] {
        lemma_measured_text_injective(
            "total swap  : "@,
            a.memory.total_swap as nat,
            b.memory.total_swap as nat,
            bytes,
        );
    }
    if ra[4] == rb[4] {
        lemma_measured_text_injective(
            "used swap   : "@,
            a.memory.used_swap as nat,
            b.memory.used_swap as nat,
            bytes,
        );
    }
    if ra[9] == rb[9] {
        let label = "NB CPUs: "@;
        let none = Seq::<char>::empty();
        assert(label + decimal_text(a.cpu_count as nat) + none =~= label + decimal_text(
            a.cpu_count as nat,
        ));
        assert(label + decimal_text(b.cpu_count as nat) + none =~= label + decimal_text(
            b.cpu_count as nat,
        ));
        lemma_measured_text_injective(label, a.cpu_count as nat, b.cpu_count as nat, none);
    }
}

/// Whether `lines` is the host report of some snapshot.
pub open spec fn is_system_report(lines: Seq<LineView>) -> bool {
    exists|snapshot: HostSnapshotView| lines == system_report_lines(snapshot)
}

/// Whether a kind of line is one of the thirteen that every host report
/// holds exactly once.
pub open spec fn is_fixed_host_line(kind: LineKind) -> bool {
    kind == LineKind::SystemHeading || kind == LineKind::TotalMemory || kind
        == LineKind::UsedMemory || kind == LineKind::TotalSwap || kind == LineKind::UsedSwap
        || kind == LineKind::SystemName || kind == LineKind::KernelVersion || kind
        == LineKind::OsVersion || kind == LineKind::HostName || kind == LineKind::CpuCount || kind
        == LineKind::DisksHeading || kind == LineKind::NetworksHeading || kind
        == LineKind::ComponentsHeading
}

/// Whether a kind of line belongs to the host report at all.
pub open spec fn is_host_line(kind: LineKind) -> bool {
    is_fixed_host_line(kind) || kind == LineKind::Process || kind == LineKind::Disk || kind
        == LineKind::Network || kind == LineKind::Component
}

/// What holds of a host report without knowing the snapshot it was written
/// from: it starts with the heading, the memory lines, the identity lines and
/// the processor count, in that order; it holds each of its thirteen fixed
/// lines once and no line of the device report; and none of its lines is a
/// diagnostic.
pub proof fn lemma_every_system_report(lines: Seq<LineView>)
    requires
        is_system_report(lines),
    ensures
        lines.len() >= 13,
        lines[0] == system_heading(),
        lines[1].kind == LineKind::TotalMemory,
        lines[2].kind == LineKind::UsedMemory,
        lines[3].kind == LineKind::TotalSwap,
        lines[4].kind == LineKind::UsedSwap,
        lines[5].kind == LineKind::SystemName,
        lines[6].kind == LineKind::KernelVersion,
        lines[7].kind == LineKind::OsVersion,
        lines[8].kind == LineKind::HostName,
        lines[9].kind == LineKind::CpuCount,
        forall|kind: LineKind| is_fixed_host_line(kind) ==> count_kind(lines, kind) == 1,
        forall|kind: LineKind| !is_host_line(kind) ==> count_kind(lines, kind) == 0,
        lines.len() == 13 + count_kind(lines, LineKind::Process) + count_kind(
            lines,
            LineKind::Disk,
        ) + count_kind(lines, LineKind::Network) + count_kind(lines, LineKind::Component),
        count_stream(lines, Stream::Diagnostic) == 0,
{
    let snapshot = choose|snapshot: HostSnapshotView| lines == system_report_lines(snapshot);
    lemma_system_report_head(snapshot);
    lemma_system_report_counts(snapshot);
    lemma_system_report_is_standard(snapshot);
}

/// The length of a host report and the kinds of its first ten lines.
proof fn lemma_system_report_head(snapshot: HostSnapshotView)
    ensures
        system_report_lines(snapshot).len() == 13 + snapshot.processes.len()
            + snapshot.disks.len() + snapshot.networks.len() + snapshot.components.len(),
        system_report_lines(snapshot)[0] == system_heading(),
        system_report_lines(snapshot)[1].kind == LineKind::TotalMemory,
        system_report_lines(snapshot)[2].kind == LineKind::UsedMemory,
        system_report_lines(snapshot)[3].kind == LineKind::TotalSwap,
        system_report_lines(snapshot)[4].kind == LineKind::UsedSwap,
        system_report_lines(snapshot)[5].kind == LineKind::SystemName,
        system_report_lines(snapshot)[6].kind == LineKind::KernelVersion,
        system_report_lines(snapshot)[7].kind == LineKind::OsVersion,
        system_report_lines(snapshot)[8].kind == LineKind::HostName,
        system_report_lines(snapshot)[9].kind == LineKind::CpuCount,
{
}

/// The census of a host report, stated kind by kind.
proof fn lemma_system_report_counts(snapshot: HostSnapshotView)
    ensures
        forall|kind: LineKind|
            is_fixed_host_line(kind) ==> count_kind(system_report_lines(snapshot), kind) == 1,
        forall|kind: LineKind|
            !is_host_line(kind) ==> count_kind(system_report_lines(snapshot), kind) == 0,
        count_kind(system_report_lines(snapshot), LineKind::Process)
            == snapshot.processes.len(),
        count_kind(system_report_lines(snapshot), LineKind::Disk) == snapshot.disks.len(),
        count_kind(system_report_lines(snapshot), LineKind::Network) == snapshot.networks.len(),
        count_kind(system_report_lines(snapshot), LineKind::Component)
            == snapshot.components.len(),
{
    assert forall|kind: LineKind| is_fixed_host_line(kind) implies count_kind(
        system_report_lines(snapshot),
        kind,
    ) == 1 by {
        lemma_system_report_census(snapshot, kind);
    }
    assert forall|kind: LineKind| !is_host_line(kind) implies count_kind(
        system_report_lines(snapshot),
        kind,
    ) == 0 by {
        lemma_system_report_census(snapshot, kind);
    }
    lemma_system_report_census(snapshot, LineKind::Process);
    lemma_system_report_census(snapshot, LineKind::Disk);
    lemma_system_report_census(snapshot, LineKind::Network);
    lemma_system_report_census(snapshot, LineKind::Component);
}

} // verus!
