use sysreport::compute::{
    device_block, device_failure, device_info, device_list_block, device_report, platform_block,
    platform_failure, platform_info, DeviceInfo, PlatformInfo,
};
use sysreport::discovery::{discover_platforms, get_gpu_info};
use sysreport::report::{Line, LineKind, Report, Stream};

fn texts(report: &Report) -> Vec<String> {
    report.lines.iter().map(|line| line.text.clone()).collect()
}

fn kinds(report: &Report) -> Vec<LineKind> {
    report.lines.iter().map(|line| line.kind).collect()
}

fn streams(report: &Report) -> Vec<Stream> {
    report.lines.iter().map(|line| line.stream).collect()
}

fn device(name: &str, vendor: &str, units: u32, bytes: u64) -> DeviceInfo {
    DeviceInfo {
        name: Some(String::from(name)),
        vendor: Some(String::from(vendor)),
        max_compute_units: Some(units),
        global_mem_size: Some(bytes),
    }
}

fn platform(name: &str, devices: Result<Vec<DeviceInfo>, i32>) -> PlatformInfo {
    PlatformInfo { name: String::from(name), devices }
}

#[test]
fn no_platform_gives_an_empty_report() {
    let report = device_report(&Ok(Vec::new()));
    assert_eq!(report.len(), 0);
    assert_eq!(report.count(LineKind::Platform), 0);
    assert_eq!(report.count(LineKind::DeviceName), 0);
    assert_eq!(report.count_on(Stream::Diagnostic), 0);
}

#[test]
fn failed_platform_discovery_gives_one_diagnostic() {
    let report = device_report(&Err(-1001));
    assert_eq!(
        report.lines,
        vec![Line {
            stream: Stream::Diagnostic,
            kind: LineKind::PlatformDiscoveryFailure,
            text: String::from("Failed to get platforms: CL_PLATFORM_NOT_FOUND_KHR"),
        }]
    );
}

#[test]
fn status_is_shown_by_its_name() {
    let cases = [
        (-1, "CL_DEVICE_NOT_FOUND"),
        (-5, "CL_OUT_OF_RESOURCES"),
        (-6, "CL_OUT_OF_HOST_MEMORY"),
        (-30, "CL_INVALID_VALUE"),
        (-32, "CL_INVALID_PLATFORM"),
        (-2000, "DLOPEN_RUNTIME_LOAD_FAILED"),
        (12345, "UNKNOWN_ERROR"),
    ];
    for (status, name) in cases {
        let report = device_report(&Err(status));
        assert_eq!(report.lines[0].text, format!("Failed to get platforms: {}", name));
    }
}

#[test]
fn full_device_has_four_lines() {
    let report = device_block(&device("Radeon RX 7900", "AMD", 96, 25_753_026_560));
    assert_eq!(
        texts(&report),
        vec![
            "Device Name: Radeon RX 7900",
            "Device Vendor: AMD",
            "Device Max Compute Units: 96",
            "Device Global Memory Size: 25753026560 bytes",
        ]
    );
    assert_eq!(
        kinds(&report),
        vec![
            LineKind::DeviceName,
            LineKind::DeviceVendor,
            LineKind::DeviceComputeUnits,
            LineKind::DeviceGlobalMemory,
        ]
    );
    assert_eq!(streams(&report), vec![Stream::Standard; 4]);
}

#[test]
fn device_without_name_keeps_the_other_three() {
    let mut d = device("GPU", "Vendor", 4, 1024);
    d.name = None;
    assert_eq!(
        texts(&device_block(&d)),
        vec![
            "Device Vendor: Vendor",
            "Device Max Compute Units: 4",
            "Device Global Memory Size: 1024 bytes",
        ]
    );
}

#[test]
fn device_without_vendor_keeps_the_other_three() {
    let mut d = device("GPU", "Vendor", 4, 1024);
    d.vendor = None;
    assert_eq!(
        texts(&device_block(&d)),
        vec!["Device Name: GPU", "Device Max Compute Units: 4", "Device Global Memory Size: 1024 bytes"]
    );
}

#[test]
fn device_without_compute_units_keeps_the_other_three() {
    let mut d = device("GPU", "Vendor", 4, 1024);
    d.max_compute_units = None;
    assert_eq!(
        texts(&device_block(&d)),
        vec!["Device Name: GPU", "Device Vendor: Vendor", "Device Global Memory Size: 1024 bytes"]
    );
}

#[test]
fn device_without_memory_size_keeps_the_other_three() {
    let mut d = device("GPU", "Vendor", 4, 1024);
    d.global_mem_size = None;
    assert_eq!(
        texts(&device_block(&d)),
        vec!["Device Name: GPU", "Device Vendor: Vendor", "Device Max Compute Units: 4"]
    );
}

#[test]
fn every_combination_of_missing_attributes() {
    for mask in 0u32..16 {
        let d = DeviceInfo {
            name: if mask & 1 != 0 { Some(String::from("n")) } else { None },
            vendor: if mask & 2 != 0 { Some(String::from("v")) } else { None },
            max_compute_units: if mask & 4 != 0 { Some(3) } else { None },
            global_mem_size: if mask & 8 != 0 { Some(9) } else { None },
        };
        let report = device_block(&d);
        assert_eq!(report.len(), mask.count_ones() as usize);
        assert_eq!(report.count(LineKind::DeviceName), (mask & 1 != 0) as usize);
        assert_eq!(report.count(LineKind::DeviceVendor), (mask & 2 != 0) as usize);
        assert_eq!(report.count(LineKind::DeviceComputeUnits), (mask & 4 != 0) as usize);
        assert_eq!(report.count(LineKind::DeviceGlobalMemory), (mask & 8 != 0) as usize);
        let mut expected = Vec::new();
        if mask & 1 != 0 {
            expected.push(String::from("Device Name: n"));
        }
        if mask & 2 != 0 {
            expected.push(String::from("Device Vendor: v"));
        }
        if mask & 4 != 0 {
            expected.push(String::from("Device Max Compute Units: 3"));
        }
        if mask & 8 != 0 {
            expected.push(String::from("Device Global Memory Size: 9 bytes"));
        }
        assert_eq!(texts(&report), expected);
    }
}

#[test]
fn device_numbers_at_their_limits() {
    let report = device_block(&device("", "", u32::MAX, u64::MAX));
    assert_eq!(
        texts(&report),
        vec![
            "Device Name: ",
            "Device Vendor: ",
            "Device Max Compute Units: 4294967295",
            "Device Global Memory Size: 18446744073709551615 bytes",
        ]
    );
}

#[test]
fn device_list_keeps_order_and_does_not_merge_duplicates() {
    let devices = vec![device("B", "x", 2, 2), device("A", "x", 1, 1), device("B", "x", 2, 2)];
    let report = device_list_block(&devices);
    assert_eq!(report.len(), 12);
    assert_eq!(report.lines[0].text, "Device Name: B");
    assert_eq!(report.lines[4].text, "Device Name: A");
    assert_eq!(report.lines[8].text, "Device Name: B");
}

#[test]
fn platform_without_devices_has_its_name_line_only() {
    let report = platform_block(&platform("Empty Platform", Ok(Vec::new())));
    assert_eq!(
        report.lines,
        vec![Line {
            stream: Stream::Standard,
            kind: LineKind::Platform,
            text: String::from("Platform: Empty Platform"),
        }]
    );
}

#[test]
fn platform_with_failed_device_discovery() {
    let report = platform_block(&platform("NVIDIA CUDA", Err(-1)));
    assert_eq!(
        report.lines,
        vec![
            Line {
                stream: Stream::Standard,
                kind: LineKind::Platform,
                text: String::from("Platform: NVIDIA CUDA"),
            },
            Line {
                stream: Stream::Diagnostic,
                kind: LineKind::DeviceDiscoveryFailure,
                text: String::from("Failed to get devices for platform NVIDIA CUDA: CL_DEVICE_NOT_FOUND"),
            },
        ]
    );
}

#[test]
fn failed_platform_does_not_stop_the_next_one() {
    let discovery = Ok(vec![
        platform("First", Ok(vec![device("GPU 0", "V", 8, 2048)])),
        platform("Broken", Err(-6)),
        platform("Last", Ok(vec![device("GPU 1", "W", 16, 4096)])),
    ]);
    let report = device_report(&discovery);
    assert_eq!(
        texts(&report),
        vec![
            "Platform: First",
            "Device Name: GPU 0",
            "Device Vendor: V",
            "Device Max Compute Units: 8",
            "Device Global Memory Size: 2048 bytes",
            "Platform: Broken",
            "Failed to get devices for platform Broken: CL_OUT_OF_HOST_MEMORY",
            "Platform: Last",
            "Device Name: GPU 1",
            "Device Vendor: W",
            "Device Max Compute Units: 16",
            "Device Global Memory Size: 4096 bytes",
        ]
    );
    assert_eq!(report.count(LineKind::DeviceDiscoveryFailure), 1);
    assert_eq!(report.count_on(Stream::Diagnostic), 1);
    assert_eq!(report.lines[6].stream, Stream::Diagnostic);
    assert_eq!(report.count(LineKind::Platform), 3);
    assert_eq!(report.count(LineKind::DeviceName), 2);
}

#[test]
fn every_platform_failing_gives_one_diagnostic_each() {
    let discovery = Ok(vec![platform("A", Err(-1)), platform("B", Err(-2)), platform("A", Err(-1))]);
    let report = device_report(&discovery);
    assert_eq!(
        texts(&report),
        vec![
            "Platform: A",
            "Failed to get devices for platform A: CL_DEVICE_NOT_FOUND",
            "Platform: B",
            "Failed to get devices for platform B: CL_DEVICE_NOT_AVAILABLE",
            "Platform: A",
            "Failed to get devices for platform A: CL_DEVICE_NOT_FOUND",
        ]
    );
    assert_eq!(report.count(LineKind::DeviceDiscoveryFailure), 3);
    assert_eq!(report.count(LineKind::DeviceName), 0);
}

#[test]
fn missing_attribute_does_not_touch_the_next_device() {
    let mut first = device("GPU 0", "V", 8, 2048);
    first.vendor = None;
    let discovery = Ok(vec![platform("P", Ok(vec![first, device("GPU 1", "V", 8, 2048)]))]);
    let report = device_report(&discovery);
    assert_eq!(
        texts(&report),
        vec![
            "Platform: P",
            "Device Name: GPU 0",
            "Device Max Compute Units: 8",
            "Device Global Memory Size: 2048 bytes",
            "Device Name: GPU 1",
            "Device Vendor: V",
            "Device Max Compute Units: 8",
            "Device Global Memory Size: 2048 bytes",
        ]
    );
}

#[test]
fn device_failure_names_platform_and_reason() {
    let line = device_failure("Intel(R) OpenCL", "CL_OUT_OF_RESOURCES");
    assert_eq!(line.text, "Failed to get devices for platform Intel(R) OpenCL: CL_OUT_OF_RESOURCES");
    assert_eq!(line.stream, Stream::Diagnostic);
    assert_eq!(line.kind, LineKind::DeviceDiscoveryFailure);
}

#[test]
fn platform_failure_names_the_reason() {
    let line = platform_failure("CL_PLATFORM_NOT_FOUND_KHR");
    assert_eq!(line.text, "Failed to get platforms: CL_PLATFORM_NOT_FOUND_KHR");
    assert_eq!(line.stream, Stream::Diagnostic);
    assert_eq!(line.kind, LineKind::PlatformDiscoveryFailure);
}

#[test]
fn same_discovery_gives_the_same_report() {
    let make =
        || Ok(vec![platform("P", Ok(vec![device("GPU", "V", 8, 2048)])), platform("Q", Err(-1))]);
    assert_eq!(device_report(&make()), device_report(&make()));
}

#[test]
fn live_discovery_is_reported_line_by_line() {
    let discovery = discover_platforms();
    let report = device_report(&discovery);
    match &discovery {
        Ok(platforms) => {
            assert_eq!(report.count(LineKind::Platform), platforms.len());
            let failed = platforms.iter().filter(|p| p.devices.is_err()).count();
            assert_eq!(report.count(LineKind::DeviceDiscoveryFailure), failed);
            assert_eq!(report.count_on(Stream::Diagnostic), failed);
        }
        Err(_) => {
            assert_eq!(report.len(), 1);
            assert_eq!(report.lines[0].kind, LineKind::PlatformDiscoveryFailure);
            assert_eq!(report.lines[0].stream, Stream::Diagnostic);
            assert!(report.lines[0].text.starts_with("Failed to get platforms: "));
        }
    }
}

#[test]
fn get_gpu_info_runs_to_completion() {
    let report = get_gpu_info();
    for line in &report.lines {
        let failure = line.kind == LineKind::DeviceDiscoveryFailure
            || line.kind == LineKind::PlatformDiscoveryFailure;
        assert_eq!(line.stream == Stream::Diagnostic, failure);
    }
    assert_eq!(report.count(LineKind::SystemHeading), 0);
    assert_eq!(report.count(LineKind::Process), 0);
    if report.count(LineKind::PlatformDiscoveryFailure) > 0 {
        assert_eq!(report.len(), 1);
    }
}

#[test]
fn device_info_keeps_what_resolved() {
    let info = device_info::<i32>(
        Ok(String::from("GPU")),
        Ok(String::from("Vendor")),
        Ok(12),
        Ok(8_589_934_592),
    );
    assert_eq!(info, device("GPU", "Vendor", 12, 8_589_934_592));
}

#[test]
fn device_info_drops_each_failed_answer_alone() {
    let info = device_info(Err(-30), Ok(String::from("Vendor")), Ok(12), Ok(1024));
    assert_eq!(
        info,
        DeviceInfo {
            name: None,
            vendor: Some(String::from("Vendor")),
            max_compute_units: Some(12),
            global_mem_size: Some(1024),
        }
    );
    let info = device_info(Ok(String::from("GPU")), Err(-30), Ok(12), Ok(1024));
    assert_eq!(
        info,
        DeviceInfo {
            name: Some(String::from("GPU")),
            vendor: None,
            max_compute_units: Some(12),
            global_mem_size: Some(1024),
        }
    );
    let info =
        device_info(Ok(String::from("GPU")), Ok(String::from("Vendor")), Err(-30), Ok(1024));
    assert_eq!(
        info,
        DeviceInfo {
            name: Some(String::from("GPU")),
            vendor: Some(String::from("Vendor")),
            max_compute_units: None,
            global_mem_size: Some(1024),
        }
    );
    let info = device_info(Ok(String::from("GPU")), Ok(String::from("Vendor")), Ok(12), Err(-30));
    assert_eq!(
        info,
        DeviceInfo {
            name: Some(String::from("GPU")),
            vendor: Some(String::from("Vendor")),
            max_compute_units: Some(12),
            global_mem_size: None,
        }
    );
}

#[test]
fn device_info_of_nothing_but_failures() {
    let info = device_info(Err("a"), Err("b"), Err("c"), Err("d"));
    assert_eq!(
        info,
        DeviceInfo { name: None, vendor: None, max_compute_units: None, global_mem_size: None }
    );
    assert_eq!(device_block(&info).len(), 0);
}

#[test]
fn platform_info_keeps_name_and_outcome() {
    let info = platform_info::<i32>(Ok(String::from("P")), Ok(vec![device("GPU", "V", 1, 2)]));
    assert_eq!(info, platform("P", Ok(vec![device("GPU", "V", 1, 2)])));
    let info = platform_info::<i32>(Ok(String::from("P")), Err(-1));
    assert_eq!(info, platform("P", Err(-1)));
}

#[test]
fn platform_info_without_a_name_is_held_under_the_empty_name() {
    let info = platform_info(Err(-32), Ok(vec![device("GPU", "V", 1, 2)]));
    assert_eq!(info, platform("", Ok(vec![device("GPU", "V", 1, 2)])));
    assert_eq!(platform_block(&info).lines[0].text, "Platform: ");
    let info = platform_info(Err(-32), Err(-1));
    assert_eq!(
        texts(&platform_block(&info)),
        vec!["Platform: ", "Failed to get devices for platform : CL_DEVICE_NOT_FOUND"]
    );
}
