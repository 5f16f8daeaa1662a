//! The device report: compute platforms, their GPU-class devices, and the
//! lines that show them.
//!
//! A platform or device query that fails is part of the data: a device
//! attribute that did not resolve is `None`, a discovery that failed is the
//! status it failed with. Nothing here aborts a report.

use vstd::prelude::*;
use vstd::string::StringExecFns;
use crate::report::{
    count_kind, count_stream, diagnostic_line, lemma_count_kind_add, lemma_count_kind_one,
    lemma_count_stream_add, lemma_count_stream_none, standard_line, Line, LineKind, LineView,
    Report, Stream,
};
use crate::text::{
    append_decimal, decimal_text, labelled, lemma_measured_text_injective, measured,
    optional_chars,
};

verus! {

/// What could be read of one device. Each attribute resolves, or fails to,
/// on its own.
#[derive(Clone, Debug, PartialEq, Eq)]
pub struct DeviceInfo {
    pub name: Option<String>,
    pub vendor: Option<String>,
    pub max_compute_units: Option<u32>,
    pub global_mem_size: Option<u64>,
}

/// The mathematical content of a [`DeviceInfo`].
pub struct DeviceInfoView {
    pub name: Option<Seq<char>>,
    pub vendor: Option<Seq<char>>,
    pub max_compute_units: Option<u32>,
    pub global_mem_size: Option<u64>,
}

impl View for DeviceInfo {
    type V = DeviceInfoView;

    open spec fn view(&self) -> DeviceInfoView {
        DeviceInfoView {
            name: optional_chars(self.name),
            vendor: optional_chars(self.vendor),
            max_compute_units: self.max_compute_units,
            global_mem_size: self.global_mem_size,
        }
    }
}

/// One platform: its name, and either its GPU-class devices or the status
/// with which looking for them failed.
#[derive(Debug, PartialEq, Eq)]
pub struct PlatformInfo {
    pub name: String,
    pub devices: Result<Vec<DeviceInfo>, i32>,
}

/// The mathematical content of a [`PlatformInfo`].
pub struct PlatformInfoView {
    pub name: Seq<char>,
    pub devices: Result<Seq<DeviceInfoView>, i32>,
}

/// The contents of a list of devices.
pub open spec fn device_views(devices: Seq<DeviceInfo>) -> Seq<DeviceInfoView> {
    devices.map_values(|device: DeviceInfo| device@)
}

impl View for PlatformInfo {
    type V = PlatformInfoView;

    open spec fn view(&self) -> PlatformInfoView {
        PlatformInfoView {
            name: self.name@,
            devices: match self.devices {
                Ok(devices) => Ok(device_views(devices@)),
                Err(status) => Err(status),
            },
        }
    }
}

/// The contents of a list of platforms.
pub open spec fn platform_views(platforms: Seq<PlatformInfo>) -> Seq<PlatformInfoView> {
    platforms.map_values(|platform: PlatformInfo| platform@)
}

/// The contents of the outcome of platform discovery: the platforms, or the
/// status with which discovery failed.
pub open spec fn discovery_view(discovery: Result<Vec<PlatformInfo>, i32>) -> Result<
    Seq<PlatformInfoView>,
    i32,
> {
    match discovery {
        Ok(platforms) => Ok(platform_views(platforms@)),
        Err(status) => Err(status),
    }
}

/// What is kept of the answer to a query: its value where it resolved,
/// nothing where it failed, whatever the failure was.
pub open spec fn resolved_value<T, E>(answer: Result<T, E>) -> Option<T> {
    match answer {
        Ok(value) => Some(value),
        Err(_) => None,
    }
}

/// What is kept of the answer to a query for a string: its characters where
/// it resolved, nothing where it failed.
pub open spec fn resolved_chars<E>(answer: Result<String, E>) -> Option<Seq<char>> {
    match answer {
        Ok(value) => Some(value@),
        Err(_) => None,
    }
}

/// The name under which a platform is held, given the answer to the query
/// for it: the name where it resolved, the empty name where it failed.
pub open spec fn resolved_name<E>(answer: Result<String, E>) -> Seq<char> {
    match answer {
        Ok(name) => name@,
        Err(_) => Seq::empty(),
    }
}

/// The name that the platform provider gives to a status, such as
/// `CL_DEVICE_NOT_FOUND`.
pub uninterp spec fn status_text(status: i32) -> Seq<char>;

/// The line that names a platform.
pub open spec fn platform_line(name: Seq<char>) -> LineView {
    standard_line(LineKind::Platform, "Platform: "@ + name)
}

/// The line for a device name.
pub open spec fn device_name_line(name: Seq<char>) -> LineView {
    standard_line(LineKind::DeviceName, "Device Name: "@ + name)
}

/// The line for a device vendor.
pub open spec fn device_vendor_line(vendor: Seq<char>) -> LineView {
    standard_line(LineKind::DeviceVendor, "Device Vendor: "@ + vendor)
}

/// The line for the number of compute units of a device.
pub open spec fn device_compute_units_line(units: u32) -> LineView {
    standard_line(
        LineKind::DeviceComputeUnits,
        "Device Max Compute Units: "@ + decimal_text(units as nat),
    )
}

/// The line for the global memory size of a device.
pub open spec fn device_global_memory_line(bytes: u64) -> LineView {
    standard_line(
        LineKind::DeviceGlobalMemory,
        "Device Global Memory Size: "@ + decimal_text(bytes as nat) + " bytes"@,
    )
}

/// The diagnostic line for a platform whose devices could not be listed,
/// given the description of the failure.
pub open spec fn device_failure_line_with(platform: Seq<char>, description: Seq<char>) -> LineView {
    diagnostic_line(
        LineKind::DeviceDiscoveryFailure,
        "Failed to get devices for platform "@ + platform + ": "@ + description,
    )
}

/// The diagnostic line for a failed platform discovery, given the
/// description of the failure.
pub open spec fn platform_failure_line_with(description: Seq<char>) -> LineView {
    diagnostic_line(LineKind::PlatformDiscoveryFailure, "Failed to get platforms: "@ + description)
}

/// The line that `make` gives for a value that resolved, and no line for one
/// that did not.
pub open spec fn line_if_present<T>(value: Option<T>, make: spec_fn(T) -> LineView) -> Seq<
    LineView,
> {
    match value {
        Some(v) => seq![make(v)],
        None => Seq::empty(),
    }
}

/// The lines of one device: name, vendor, compute units, global memory, each
/// only if it resolved.
pub open spec fn device_lines(device: DeviceInfoView) -> Seq<LineView> {
    line_if_present(device.name, |name: Seq<char>| device_name_line(name)) + line_if_present(
        device.vendor,
        |vendor: Seq<char>| device_vendor_line(vendor),
    ) + line_if_present(device.max_compute_units, |units: u32| device_compute_units_line(units))
        + line_if_present(device.global_mem_size, |bytes: u64| device_global_memory_line(bytes))
}

/// The lines of a list of devices: those of each device, in order.
pub open spec fn device_list_lines(devices: Seq<DeviceInfoView>) -> Seq<LineView>
    decreases devices.len(),
{
    if devices.len() == 0 {
        Seq::empty()
    } else {
        device_list_lines(devices.drop_last()) + device_lines(devices.last())
    }
}

/// The lines of one platform: its name, then its devices, or else the one
/// diagnostic line that says why there are none.
pub open spec fn platform_lines(platform: PlatformInfoView) -> Seq<LineView> {
    seq![platform_line(platform.name)] + match platform.devices {
        Ok(devices) => device_list_lines(devices),
        Err(status) => seq![device_failure_line_with(platform.name, status_text(status))],
    }
}

/// The lines of a list of platforms: those of each platform, in order.
pub open spec fn platform_list_lines(platforms: Seq<PlatformInfoView>) -> Seq<LineView>
    decreases platforms.len(),
{
    if platforms.len() == 0 {
        Seq::empty()
    } else {
        platform_list_lines(platforms.drop_last()) + platform_lines(platforms.last())
    }
}

/// The device report: the lines of every platform, or the one diagnostic
/// line that says why no platform could be listed.
pub open spec fn device_report_lines(discovery: Result<Seq<PlatformInfoView>, i32>) -> Seq<
    LineView,
> {
    match discovery {
        Ok(platforms) => platform_list_lines(platforms),
        Err(status) => seq![platform_failure_line_with(status_text(status))],
    }
}

/// Keeps the value of an answer that resolved and drops the failure of one
/// that did not.
fn keep<T, E>(answer: Result<T, E>) -> (value: Option<T>)
    ensures
        value == resolved_value(answer),
{
    match answer {
        Ok(value) => Some(value),
        Err(_) => None,
    }
}

/// Makes the record of a device from the answers to its four queries. Each
/// attribute is kept or dropped by its own answer alone.
pub fn device_info<E>(
    name: Result<String, E>,
    vendor: Result<String, E>,
    max_compute_units: Result<u32, E>,
    global_mem_size: Result<u64, E>,
) -> (info: DeviceInfo)
    ensures
        info@ == (DeviceInfoView {
            name: resolved_chars(name),
            vendor: resolved_chars(vendor),
            max_compute_units: resolved_value(max_compute_units),
            global_mem_size: resolved_value(global_mem_size),
        }),
{
    DeviceInfo {
        name: keep(name),
        vendor: keep(vendor),
        max_compute_units: keep(max_compute_units),
        global_mem_size: keep(global_mem_size),
    }
}

/// Makes the record of a platform from the answer to the query for its name
/// and the outcome of its device discovery. A platform whose name did not
/// resolve is held under the empty name; the outcome is kept as it is.
pub fn platform_info<E>(name: Result<String, E>, devices: Result<Vec<DeviceInfo>, i32>) -> (info:
    PlatformInfo)
    ensures
        info.name@ == resolved_name(name),
        info.devices == devices,
{
    let name = match name {
        Ok(name) => name,
        Err(_) => String::new(),
    };
    PlatformInfo { name, devices }
}

/// Asks the platform provider for the name of `status`, by formatting the
/// provider's error value `opencl3::error_codes::ClError` that holds it. The
/// name is a fixed table lookup on the status; nothing is claimed about the
/// table.
#[verifier::external_body]
fn status_name(status: i32) -> (name: String)
    ensures
        name@ == status_text(status),
{
    format!("{}", opencl3::error_codes::ClError(status))
}

/// Writes the lines of one device.
pub fn device_block(device: &DeviceInfo) -> (report: Report)
    ensures
        report@ == device_lines(device@),
{
    let mut report = Report::new();
    match &device.name {
        Some(name) => {
            report.push(
                Line::standard(LineKind::DeviceName, labelled("Device Name: ", name.as_str())),
            );
        },
        None => {},
    }
    match &device.vendor {
        Some(vendor) => {
            report.push(
                Line::standard(
                    LineKind::DeviceVendor,
                    labelled("Device Vendor: ", vendor.as_str()),
                ),
            );
        },
        None => {},
    }
    match device.max_compute_units {
        Some(units) => {
            let mut text = String::from_str("Device Max Compute Units: ");
            append_decimal(&mut text, units as u64);
            report.push(Line::standard(LineKind::DeviceComputeUnits, text));
        },
        None => {},
    }
    match device.global_mem_size {
        Some(bytes) => {
            report.push(
                Line::standard(
                    LineKind::DeviceGlobalMemory,
                    measured("Device Global Memory Size: ", bytes, " bytes"),
                ),
            );
        },
        None => {},
    }
    report
}

/// Writes the lines of a list of devices.
pub fn device_list_block(devices: &Vec<DeviceInfo>) -> (report: Report)
    ensures
        report@ == device_list_lines(device_views(devices@)),
{
    let ghost all = device_views(devices@);
    let mut report = Report::new();
    let mut i: usize = 0;
    while i < devices.len()
        invariant
            i <= devices.len(),
            all == device_views(devices@),
            report@ == device_list_lines(all.take(i as int)),
        decreases devices.len() - i,
    {
        proof {
            assert(all.take(i + 1).drop_last() =~= all.take(i as int));
        }
        report.append(device_block(&devices[i]));
        i = i + 1;
    }
    assert(all.take(i as int) =~= all);
    report
}

/// Writes the diagnostic line for a platform whose devices could not be
/// listed, from the description of the failure.
pub fn device_failure(platform: &str, description: &str) -> (line: Line)
    ensures
        line@ == device_failure_line_with(platform@, description@),
{
    let mut text = String::from_str("Failed to get devices for platform ");
    text.append(platform);
    text.append(": ");
    text.append(description);
    Line::diagnostic(LineKind::DeviceDiscoveryFailure, text)
}

/// Writes the diagnostic line for a failed platform discovery, from the
/// description of the failure.
pub fn platform_failure(description: &str) -> (line: Line)
    ensures
        line@ == platform_failure_line_with(description@),
{
    Line::diagnostic(
        LineKind::PlatformDiscoveryFailure,
        labelled("Failed to get platforms: ", description),
    )
}

/// Writes the lines of one platform.
pub fn platform_block(platform: &PlatformInfo) -> (report: Report)
    ensures
        report@ == platform_lines(platform@),
{
    let mut report = Report::new();
    report.push(Line::standard(LineKind::Platform, labelled("Platform: ", platform.name.as_str())));
    match &platform.devices {
        Ok(devices) => {
            report.append(device_list_block(devices));
        },
        Err(status) => {
            let description = status_name(*status);
            report.push(device_failure(platform.name.as_str(), description.as_str()));
        },
    }
    report
}

/// Writes the whole device report for the outcome of a platform discovery.
pub fn device_report(discovery: &Result<Vec<PlatformInfo>, i32>) -> (report: Report)
    ensures
        report@ == device_report_lines(discovery_view(*discovery)),
{
    match discovery {
        Ok(platforms) => {
            let ghost all = platform_views(platforms@);
            let mut report = Report::new();
            let mut i: usize = 0;
            while i < platforms.len()
                invariant
                    i <= platforms.len(),
                    all == platform_views(platforms@),
                    report@ == platform_list_lines(all.take(i as int)),
                decreases platforms.len() - i,
            {
                proof {
                    assert(all.take(i + 1).drop_last() =~= all.take(i as int));
                }
                report.append(platform_block(&platforms[i]));
                i = i + 1;
            }
            assert(all.take(i as int) =~= all);
            report
        },
        Err(status) => {
            let description = status_name(*status);
            let mut report = Report::new();
            report.push(platform_failure(description.as_str()));
            report
        },
    }
}

/// Whether a kind of line is one of the four attribute lines of a device.
pub open spec fn is_device_attribute(kind: LineKind) -> bool {
    kind == LineKind::DeviceName || kind == LineKind::DeviceVendor || kind
        == LineKind::DeviceComputeUnits || kind == LineKind::DeviceGlobalMemory
}

/// How many of the platforms are ones whose device discovery failed.
pub open spec fn failed_platform_count(platforms: Seq<PlatformInfoView>) -> nat
    decreases platforms.len(),
{
    if platforms.len() == 0 {
        0
    } else {
        failed_platform_count(platforms.drop_last()) + if platforms.last().devices is Err {
            1nat
        } else {
            0nat
        }
    }
}

/// A discovery that finds no platform gives an empty report: no platform
/// line, no device line, no diagnostic.
pub proof fn lemma_no_platform_no_line()
    ensures
        device_report_lines(Ok(Seq::<PlatformInfoView>::empty())) == Seq::<LineView>::empty(),
        device_report_lines(Ok(Seq::<PlatformInfoView>::empty())).len() == 0,
{
}

/// A failed platform discovery gives exactly one line, a diagnostic that
/// holds the name of the status.
pub proof fn lemma_failed_discovery_one_line(status: i32)
    ensures
        device_report_lines(Err(status)) == seq![
            diagnostic_line(
                LineKind::PlatformDiscoveryFailure,
                "Failed to get platforms: "@ + status_text(status),
            ),
        ],
{
}

/// The lines of two lists of devices, one after the other, are the lines of
/// the first followed by the lines of the second.
pub proof fn lemma_device_list_lines_add(a: Seq<DeviceInfoView>, b: Seq<DeviceInfoView>)
    ensures
        device_list_lines(a + b) == device_list_lines(a) + device_list_lines(b),
    decreases b.len(),
{
    if b.len() > 0 {
        assert((a + b).drop_last() =~= a + b.drop_last());
        lemma_device_list_lines_add(a, b.drop_last());
    }
}

/// The lines of two lists of platforms, one after the other, are the lines
/// of the first followed by the lines of the second.
pub proof fn lemma_platform_list_lines_add(a: Seq<PlatformInfoView>, b: Seq<PlatformInfoView>)
    ensures
        platform_list_lines(a + b) == platform_list_lines(a) + platform_list_lines(b),
    decreases b.len(),
{
    if b.len() > 0 {
        assert((a + b).drop_last() =~= a + b.drop_last());
        lemma_platform_list_lines_add(a, b.drop_last());
    }
}

/// The lines of one platform alone.
pub proof fn lemma_platform_list_lines_one(platform: PlatformInfoView)
    ensures
        platform_list_lines(seq![platform]) == platform_lines(platform),
{
    assert(seq![platform].drop_last() =~= Seq::<PlatformInfoView>::empty());
    assert(platform_list_lines(Seq::<PlatformInfoView>::empty()) =~= Seq::<LineView>::empty());
}

/// Every platform has its own block in the report, between the blocks of
/// the platforms before it and of those after it, and what one platform
/// holds changes nothing in the blocks of the others.
pub proof fn lemma_platform_block_in_report(platforms: Seq<PlatformInfoView>, i: int)
    requires
        0 <= i < platforms.len(),
    ensures
        device_report_lines(Ok(platforms)) == platform_list_lines(platforms.take(i))
            + platform_lines(platforms[i]) + platform_list_lines(platforms.skip(i + 1)),
{
    assert(platforms =~= platforms.take(i) + seq![platforms[i]] + platforms.skip(i + 1));
    lemma_platform_list_lines_add(platforms.take(i) + seq![platforms[i]], platforms.skip(i + 1));
    lemma_platform_list_lines_add(platforms.take(i), seq![platforms[i]]);
    lemma_platform_list_lines_one(platforms[i]);
}

/// A platform whose device discovery fails contributes its name line and
/// exactly one diagnostic line that names the platform and the status; it
/// contributes no device line, and the platforms after it are reported as
/// they would be without it.
pub proof fn lemma_failed_platform_one_diagnostic(platforms: Seq<PlatformInfoView>, i: int)
    requires
        0 <= i < platforms.len(),
        platforms[i].devices is Err,
    ensures
        platform_lines(platforms[i]) == seq![
            standard_line(LineKind::Platform, "Platform: "@ + platforms[i].name),
            diagnostic_line(
                LineKind::DeviceDiscoveryFailure,
                "Failed to get devices for platform "@ + platforms[i].name + ": "@ + status_text(
                    platforms[i].devices->Err_0,
                ),
            ),
        ],
        count_kind(platform_lines(platforms[i]), LineKind::DeviceDiscoveryFailure) == 1,
        forall|kind: LineKind|
            is_device_attribute(kind) ==> count_kind(platform_lines(platforms[i]), kind) == 0,
        device_report_lines(Ok(platforms)) == platform_list_lines(platforms.take(i))
            + platform_lines(platforms[i]) + platform_list_lines(platforms.skip(i + 1)),
{
    let name_line = platform_line(platforms[i].name);
    let failure = device_failure_line_with(
        platforms[i].name,
        status_text(platforms[i].devices->Err_0),
    );
    assert forall|kind: LineKind| true implies count_kind(platform_lines(platforms[i]), kind) == (
    if kind == LineKind::Platform || kind == LineKind::DeviceDiscoveryFailure {
        1nat
    } else {
        0nat
    }) by {
        lemma_count_kind_add(seq![name_line], seq![failure], kind);
        lemma_count_kind_one(name_line, kind);
        lemma_count_kind_one(failure, kind);
    }
    lemma_platform_block_in_report(platforms, i);
}

/// Each attribute of a device has its line exactly when it resolved, whatever
/// became of the other three; the lines that are there stand in the order
/// name, vendor, compute units, global memory.
pub proof fn lemma_device_lines_by_attribute(device: DeviceInfoView)
    ensures
        count_kind(device_lines(device), LineKind::DeviceName) == if device.name is Some {
            1nat
        } else {
            0nat
        },
        count_kind(device_lines(device), LineKind::DeviceVendor) == if device.vendor is Some {
            1nat
        } else {
            0nat
        },
        count_kind(device_lines(device), LineKind::DeviceComputeUnits)
            == if device.max_compute_units is Some {
            1nat
        } else {
            0nat
        },
        count_kind(device_lines(device), LineKind::DeviceGlobalMemory)
            == if device.global_mem_size is Some {
            1nat
        } else {
            0nat
        },
        forall|kind: LineKind|
            !is_device_attribute(kind) ==> count_kind(device_lines(device), kind) == 0,
        device.name is Some ==> device_lines(device).contains(
            device_name_line(device.name->Some_0),
        ),
        device.vendor is Some ==> device_lines(device).contains(
            device_vendor_line(device.vendor->Some_0),
        ),
        device.max_compute_units is Some ==> device_lines(device).contains(
            device_compute_units_line(device.max_compute_units->Some_0),
        ),
        device.global_mem_size is Some ==> device_lines(device).contains(
            device_global_memory_line(device.global_mem_size->Some_0),
        ),
{
    let a = line_if_present(device.name, |name: Seq<char>| device_name_line(name));
    let b = line_if_present(device.vendor, |vendor: Seq<char>| device_vendor_line(vendor));
    let c = line_if_present(
        device.max_compute_units,
        |units: u32| device_compute_units_line(units),
    );
    let d = line_if_present(
        device.global_mem_size,
        |bytes: u64| device_global_memory_line(bytes),
    );
    assert forall|kind: LineKind| true implies count_kind(device_lines(device), kind)
        == count_kind(a, kind) + count_kind(b, kind) + count_kind(c, kind) + count_kind(
        d,
        kind,
    ) by {
        lemma_count_kind_add(a, b, kind);
        lemma_count_kind_add(a + b, c, kind);
        lemma_count_kind_add(a + b + c, d, kind);
    }
    assert forall|kind: LineKind| true implies {
        &&& count_kind(a, kind) == if device.name is Some && kind == LineKind::DeviceName {
            1nat
        } else {
            0nat
        }
        &&& count_kind(b, kind) == if device.vendor is Some && kind == LineKind::DeviceVendor {
            1nat
        } else {
            0nat
        }
        &&& count_kind(c, kind) == if device.max_compute_units is Some && kind
            == LineKind::DeviceComputeUnits {
            1nat
        } else {
            0nat
        }
        &&& count_kind(d, kind) == if device.global_mem_size is Some && kind
            == LineKind::DeviceGlobalMemory {
            1nat
        } else {
            0nat
        }
    } by {
        if device.name is Some {
            lemma_count_kind_one(device_name_line(device.name->Some_0), kind);
        }
        if device.vendor is Some {
            lemma_count_kind_one(device_vendor_line(device.vendor->Some_0), kind);
        }
        if device.max_compute_units is Some {
            lemma_count_kind_one(
                device_compute_units_line(device.max_compute_units->Some_0),
                kind,
            );
        }
        if device.global_mem_size is Some {
            lemma_count_kind_one(device_global_memory_line(device.global_mem_size->Some_0), kind);
        }
    }
    if device.name is Some {
        assert((a + b + c + d)[0] == device_name_line(device.name->Some_0));
    }
    if device.vendor is Some {
        assert((a + b + c + d)[a.len() as int] == device_vendor_line(device.vendor->Some_0));
    }
    if device.max_compute_units is Some {
        assert((a + b + c + d)[(a.len() + b.len()) as int] == device_compute_units_line(
            device.max_compute_units->Some_0,
        ));
    }
    if device.global_mem_size is Some {
        assert((a + b + c + d)[(a.len() + b.len() + c.len()) as int]
            == device_global_memory_line(device.global_mem_size->Some_0));
    }
}

/// A device of which exactly one attribute failed to resolve has exactly the
/// three lines of the others, in their usual order.
pub proof fn lemma_one_attribute_missing(device: DeviceInfoView)
    ensures
        device.name is None && device.vendor is Some && device.max_compute_units is Some
            && device.global_mem_size is Some ==> device_lines(device) == seq![
            device_vendor_line(device.vendor->Some_0),
            device_compute_units_line(device.max_compute_units->Some_0),
            device_global_memory_line(device.global_mem_size->Some_0),
        ],
        device.name is Some && device.vendor is None && device.max_compute_units is Some
            && device.global_mem_size is Some ==> device_lines(device) == seq![
            device_name_line(device.name->Some_0),
            device_compute_units_line(device.max_compute_units->Some_0),
            device_global_memory_line(device.global_mem_size->Some_0),
        ],
        device.name is Some && device.vendor is Some && device.max_compute_units is None
            && device.global_mem_size is Some ==> device_lines(device) == seq![
            device_name_line(device.name->Some_0),
            device_vendor_line(device.vendor->Some_0),
            device_global_memory_line(device.global_mem_size->Some_0),
        ],
        device.name is Some && device.vendor is Some && device.max_compute_units is Some
            && device.global_mem_size is None ==> device_lines(device) == seq![
            device_name_line(device.name->Some_0),
            device_vendor_line(device.vendor->Some_0),
            device_compute_units_line(device.max_compute_units->Some_0),
        ],
{
    if device.name is None && device.vendor is Some && device.max_compute_units is Some
        && device.global_mem_size is Some {
        assert(device_lines(device) =~= seq![
            device_vendor_line(device.vendor->Some_0),
            device_compute_units_line(device.max_compute_units->Some_0),
            device_global_memory_line(device.global_mem_size->Some_0),
        ]);
    }
    if device.name is Some && device.vendor is None && device.max_compute_units is Some
        && device.global_mem_size is Some {
        assert(device_lines(device) =~= seq![
            device_name_line(device.name->Some_0),
            device_compute_units_line(device.max_compute_units->Some_0),
            device_global_memory_line(device.global_mem_size->Some_0),
        ]);
    }
    if device.name is Some && device.vendor is Some && device.max_compute_units is None
        && device.global_mem_size is Some {
        assert(device_lines(device) =~= seq![
            device_name_line(device.name->Some_0),
            device_vendor_line(device.vendor->Some_0),
            device_global_memory_line(device.global_mem_size->Some_0),
        ]);
    }
    if device.name is Some && device.vendor is Some && device.max_compute_units is Some
        && device.global_mem_size is None {
        assert(device_lines(device) =~= seq![
            device_name_line(device.name->Some_0),
            device_vendor_line(device.vendor->Some_0),
            device_compute_units_line(device.max_compute_units->Some_0),
        ]);
    }
}

/// The numeric lines of a device depend on nothing but the number they
/// show: two such lines are the same exactly when the numbers are.
pub proof fn lemma_device_numeric_lines_repeat(
    units_a: u32,
    units_b: u32,
    bytes_a: u64,
    bytes_b: u64,
)
    ensures
        units_a == units_b <==> device_compute_units_line(units_a) == device_compute_units_line(
            units_b,
        ),
        bytes_a == bytes_b <==> device_global_memory_line(bytes_a) == device_global_memory_line(
            bytes_b,
        ),
{
    let label = "Device Max Compute Units: "@;
    let none = Seq::<char>::empty();
    if device_compute_units_line(units_a) == device_compute_units_line(units_b) {
        assert(label + decimal_text(units_a as nat) + none =~= label + decimal_text(
            units_a as nat,
        ));
        assert(label + decimal_text(units_b as nat) + none =~= label + decimal_text(
            units_b as nat,
        ));
        lemma_measured_text_injective(label, units_a as nat, units_b as nat, none);
    }
    if device_global_memory_line(bytes_a) == device_global_memory_line(bytes_b) {
        lemma_measured_text_injective(
            "Device Global Memory Size: "@,
            bytes_a as nat,
            bytes_b as nat,
            " bytes"@,
        );
    }
}

/// The lines of a list of devices hold attribute lines only.
pub proof fn lemma_device_list_lines_kinds(devices: Seq<DeviceInfoView>, kind: LineKind)
    requires
        !is_device_attribute(kind),
    ensures
        count_kind(device_list_lines(devices), kind) == 0,
    decreases devices.len(),
{
    if devices.len() > 0 {
        lemma_device_list_lines_kinds(devices.drop_last(), kind);
        lemma_device_lines_by_attribute(devices.last());
        lemma_count_kind_add(
            device_list_lines(devices.drop_last()),
            device_lines(devices.last()),
            kind,
        );
    }
}

/// A report on platforms holds one platform line for each platform and one
/// device-discovery diagnostic for each platform whose device discovery
/// failed, and no diagnostic for a failed platform discovery.
pub proof fn lemma_platform_list_census(platforms: Seq<PlatformInfoView>)
    ensures
        count_kind(platform_list_lines(platforms), LineKind::Platform) == platforms.len(),
        count_kind(platform_list_lines(platforms), LineKind::DeviceDiscoveryFailure)
            == failed_platform_count(platforms),
        count_kind(platform_list_lines(platforms), LineKind::PlatformDiscoveryFailure) == 0,
    decreases platforms.len(),
{
    if platforms.len() > 0 {
        let last = platforms.last();
        let name_line = platform_line(last.name);
        let rest = match last.devices {
            Ok(devices) => device_list_lines(devices),
            Err(status) => seq![device_failure_line_with(last.name, status_text(status))],
        };
        lemma_platform_list_census(platforms.drop_last());
        assert forall|kind: LineKind|
            kind == LineKind::Platform || kind == LineKind::DeviceDiscoveryFailure || kind
                == LineKind::PlatformDiscoveryFailure implies count_kind(
            platform_list_lines(platforms),
            kind,
        ) == count_kind(platform_list_lines(platforms.drop_last()), kind) + (if kind
            == LineKind::Platform {
            1nat
        } else if kind == LineKind::DeviceDiscoveryFailure && last.devices is Err {
            1nat
        } else {
            0nat
        }) by {
            lemma_count_kind_add(
                platform_list_lines(platforms.drop_last()),
                platform_lines(last),
                kind,
            );
            lemma_count_kind_add(seq![name_line], rest, kind);
            lemma_count_kind_one(name_line, kind);
            match last.devices {
                Ok(devices) => {
                    lemma_device_list_lines_kinds(devices, kind);
                },
                Err(status) => {
                    lemma_count_kind_one(
                        device_failure_line_with(last.name, status_text(status)),
                        kind,
                    );
                },
            }
        }
    }
}

/// In a device report, the diagnostic lines are exactly the lines that tell
/// of a failed discovery; every other line is meant for the ordinary output.
pub proof fn lemma_device_report_streams(discovery: Result<Seq<PlatformInfoView>, i32>)
    ensures
        forall|i: int|
            0 <= i < device_report_lines(discovery).len() ==> {
                let line = #[trigger] device_report_lines(discovery)[i];
                line.stream == Stream::Diagnostic <==> (line.kind
                    == LineKind::DeviceDiscoveryFailure || line.kind
                    == LineKind::PlatformDiscoveryFailure)
            },
{
    match discovery {
        Ok(platforms) => {
            lemma_platform_list_streams(platforms);
        },
        Err(_) => {},
    }
}

/// The lines of a list of devices are attribute lines for the ordinary
/// output.
proof fn lemma_device_list_streams(devices: Seq<DeviceInfoView>)
    ensures
        forall|i: int|
            0 <= i < device_list_lines(devices).len() ==> {
                let line = #[trigger] device_list_lines(devices)[i];
                line.stream == Stream::Standard && is_device_attribute(line.kind)
            },
    decreases devices.len(),
{
    if devices.len() > 0 {
        lemma_device_list_streams(devices.drop_last());
    }
}

/// In the lines of a list of platforms, the diagnostics are the lines that
/// tell of a failed discovery.
proof fn lemma_platform_list_streams(platforms: Seq<PlatformInfoView>)
    ensures
        forall|i: int|
            0 <= i < platform_list_lines(platforms).len() ==> {
                let line = #[trigger] platform_list_lines(platforms)[i];
                line.stream == Stream::Diagnostic <==> (line.kind
                    == LineKind::DeviceDiscoveryFailure || line.kind
                    == LineKind::PlatformDiscoveryFailure)
            },
    decreases platforms.len(),
{
    if platforms.len() > 0 {
        lemma_platform_list_streams(platforms.drop_last());
        match platforms.last().devices {
            Ok(devices) => {
                lemma_device_list_streams(devices);
            },
            Err(_) => {},
        }
    }
}

/// A report on platforms holds as many diagnostic lines as there are
/// platforms whose device discovery failed.
pub proof fn lemma_one_diagnostic_per_failed_platform(platforms: Seq<PlatformInfoView>)
    ensures
        count_stream(platform_list_lines(platforms), Stream::Diagnostic) == failed_platform_count(
            platforms,
        ),
    decreases platforms.len(),
{
    if platforms.len() > 0 {
        let last = platforms.last();
        let name_line = seq![platform_line(last.name)];
        let rest = match last.devices {
            Ok(devices) => device_list_lines(devices),
            Err(status) => seq![device_failure_line_with(last.name, status_text(status))],
        };
        lemma_one_diagnostic_per_failed_platform(platforms.drop_last());
        lemma_count_stream_add(
            platform_list_lines(platforms.drop_last()),
            platform_lines(last),
            Stream::Diagnostic,
        );
        lemma_count_stream_add(name_line, rest, Stream::Diagnostic);
        lemma_count_stream_none(name_line, Stream::Diagnostic);
        match last.devices {
            Ok(devices) => {
                lemma_device_list_streams(devices);
                lemma_count_stream_none(rest, Stream::Diagnostic);
            },
            Err(status) => {
                assert(rest.drop_last() =~= Seq::<LineView>::empty());
                assert(count_stream(Seq::<LineView>::empty(), Stream::Diagnostic) == 0);
            },
        }
    }
}

/// Whether `lines` is the device report of some discovery.
pub open spec fn is_device_report(lines: Seq<LineView>) -> bool {
    exists|discovery: Result<Seq<PlatformInfoView>, i32>| lines == device_report_lines(discovery)
}

/// What holds of a device report without knowing the discovery it was
/// written from: a line is a diagnostic exactly when it tells of a failed
/// discovery; where platform discovery itself failed the report is that one
/// diagnostic and nothing else; and otherwise it holds one diagnostic for
/// each platform line that is followed by no device.
pub proof fn lemma_every_device_report(lines: Seq<LineView>)
    requires
        is_device_report(lines),
    ensures
        forall|i: int|
            0 <= i < lines.len() ==> ((#[trigger] lines[i]).stream == Stream::Diagnostic <==> (
            lines[i].kind == LineKind::DeviceDiscoveryFailure || lines[i].kind
                == LineKind::PlatformDiscoveryFailure)),
        count_kind(lines, LineKind::PlatformDiscoveryFailure) <= 1,
        count_kind(lines, LineKind::PlatformDiscoveryFailure) == 1 ==> lines.len() == 1,
        count_kind(lines, LineKind::PlatformDiscoveryFailure) == 0 ==> count_stream(
            lines,
            Stream::Diagnostic,
        ) == count_kind(lines, LineKind::DeviceDiscoveryFailure),
        count_kind(lines, LineKind::DeviceDiscoveryFailure) <= count_kind(lines, LineKind::Platform),
{
    let discovery = choose|discovery: Result<Seq<PlatformInfoView>, i32>|
        lines == device_report_lines(discovery);
    lemma_device_report_streams(discovery);
    match discovery {
        Ok(platforms) => {
            lemma_platform_list_census(platforms);
            lemma_one_diagnostic_per_failed_platform(platforms);
            lemma_failed_platform_count_bound(platforms);
        },
        Err(status) => {
            let failure = platform_failure_line_with(status_text(status));
            lemma_count_kind_one(failure, LineKind::PlatformDiscoveryFailure);
            lemma_count_kind_one(failure, LineKind::DeviceDiscoveryFailure);
            lemma_count_kind_one(failure, LineKind::Platform);
        },
    }
}

/// No more platforms failed than there are.
proof fn lemma_failed_platform_count_bound(platforms: Seq<PlatformInfoView>)
    ensures
        failed_platform_count(platforms) <= platforms.len(),
    decreases platforms.len(),
{
    if platforms.len() > 0 {
        lemma_failed_platform_count_bound(platforms.drop_last());
    }
}

} // verus!
