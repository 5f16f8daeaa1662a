//! Discovering compute platforms and their GPU-class devices through
//! `opencl3`, and the device report on what was found.
//!
//! What the platform provider answers depends on the drivers installed, so
//! nothing is promised about the values: the contracts here say what holds
//! of the report whatever the answers were.

use vstd::prelude::*;
use crate::compute::{
    device_info, device_report, is_device_report, platform_info, DeviceInfo, PlatformInfo,
};
use crate::report::Report;

verus! {

/// `opencl3::platform::Platform`: the handle of one platform.
#[verifier::external_type_specification]
#[verifier::external_body]
pub struct ExPlatform(opencl3::platform::Platform);

/// `opencl3::device::Device`: the handle of one device.
#[verifier::external_type_specification]
#[verifier::external_body]
pub struct ExDevice(opencl3::device::Device);

/// `opencl3::error_codes::ClError`: the status with which a query failed.
#[verifier::external_type_specification]
#[verifier::external_body]
pub struct ExClError(opencl3::error_codes::ClError);

/// `get_platforms` lists the platforms or fails with a status; nothing is
/// claimed about which.
pub assume_specification[ opencl3::platform::get_platforms ]() -> (platforms: Result<
    Vec<opencl3::platform::Platform>,
    opencl3::error_codes::ClError,
>)
;

/// `Platform::name` reads the name of a platform or fails with a status.
pub assume_specification[ opencl3::platform::Platform::name ](
    platform: &opencl3::platform::Platform,
) -> (name: Result<String, opencl3::error_codes::ClError>)
;

/// `Device::name` reads the name of a device or fails with a status.
pub assume_specification[ opencl3::device::Device::name ](
    device: &opencl3::device::Device,
) -> (name: Result<String, opencl3::error_codes::ClError>)
;

/// `Device::vendor` reads the vendor of a device or fails with a status.
pub assume_specification[ opencl3::device::Device::vendor ](
    device: &opencl3::device::Device,
) -> (vendor: Result<String, opencl3::error_codes::ClError>)
;

/// `Device::max_compute_units` reads the number of compute units of a device
/// or fails with a status.
pub assume_specification[ opencl3::device::Device::max_compute_units ](
    device: &opencl3::device::Device,
) -> (units: Result<u32, opencl3::error_codes::ClError>)
;

/// `Device::global_mem_size` reads the global memory size of a device, in
/// bytes, or fails with a status.
pub assume_specification[ opencl3::device::Device::global_mem_size ](
    device: &opencl3::device::Device,
) -> (bytes: Result<u64, opencl3::error_codes::ClError>)
;

/// Asks `Platform::get_devices` for the GPU-class devices of a platform and
/// makes a `Device` handle of each identifier with `Device::new`, in the
/// order given. Nothing is claimed about what is found.
#[verifier::external_body]
fn gpu_devices(platform: &opencl3::platform::Platform) -> (devices: Result<
    Vec<opencl3::device::Device>,
    opencl3::error_codes::ClError,
>) {
    let ids = platform.get_devices(opencl3::device::CL_DEVICE_TYPE_GPU)?;
    let mut devices = Vec::new();
    for id in ids {
        devices.push(opencl3::device::Device::new(id));
    }
    Ok(devices)
}

/// The status number that a `ClError` holds.
#[verifier::external_body]
fn status_of(error: &opencl3::error_codes::ClError) -> (status: i32) {
    error.0
}

/// Queries the four attributes of a device, each on its own.
fn probe_device(device: &opencl3::device::Device) -> (info: DeviceInfo) {
    device_info(
        device.name(),
        device.vendor(),
        device.max_compute_units(),
        device.global_mem_size(),
    )
}

/// Queries the GPU-class devices of a platform: the record of each device
/// found, in the order found, or the status with which the discovery failed.
fn probe_devices(platform: &opencl3::platform::Platform) -> (devices: Result<
    Vec<DeviceInfo>,
    i32,
>) {
    devices_outcome(gpu_devices(platform))
}

/// What becomes of the listing of the devices of a platform: where it
/// succeeded, one record for each device listed, in the order listed; where
/// it failed, the status of the failure and no record at all.
fn devices_outcome(
    listing: Result<Vec<opencl3::device::Device>, opencl3::error_codes::ClError>,
) -> (devices: Result<Vec<DeviceInfo>, i32>)
    ensures
        devices is Ok <==> listing is Ok,
        listing is Ok ==> devices->Ok_0.len() == listing->Ok_0.len(),
{
    match listing {
        Ok(handles) => Ok(probe_each_device(&handles)),
        Err(error) => Err(status_of(&error)),
    }
}

/// Queries the name of a platform, then its GPU-class devices.
fn probe_platform(platform: &opencl3::platform::Platform) -> (info: PlatformInfo) {
    let name = platform.name();
    let devices = probe_devices(platform);
    platform_info(name, devices)
}

/// Discovers the platforms and, on each, the GPU-class devices. A failure to
/// list the platforms is the result; a failure on one platform is held in
/// that platform and does not stop the others.
pub fn discover_platforms() -> (discovery: Result<Vec<PlatformInfo>, i32>) {
    platforms_outcome(opencl3::platform::get_platforms())
}

/// Discovers the platforms and writes the device report. Whatever was
/// found, the result is the report of one discovery, so all that is proved
/// of device reports holds of it.
pub fn get_gpu_info() -> (report: Report)
    ensures
        is_device_report(report@),
{
    let discovery = discover_platforms();
    device_report(&discovery)
}

/// What becomes of the listing of the platforms: where it succeeded, one
/// record for each platform listed, in the order listed, whatever happened
/// on any of them; where it failed, the status of the failure and no record
/// at all.
fn platforms_outcome(
    listing: Result<Vec<opencl3::platform::Platform>, opencl3::error_codes::ClError>,
) -> (discovery: Result<Vec<PlatformInfo>, i32>)
    ensures
        discovery is Ok <==> listing is Ok,
        listing is Ok ==> discovery->Ok_0.len() == listing->Ok_0.len(),
{
    match listing {
        Ok(handles) => Ok(probe_each_platform(&handles)),
        Err(error) => Err(status_of(&error)),
    }
}

/// Queries every device of a list in turn: one record for each handle, in
/// the order of the handles. No device is skipped for what another one
/// answered.
fn probe_each_device(handles: &Vec<opencl3::device::Device>) -> (found: Vec<DeviceInfo>)
    ensures
        found.len() == handles.len(),
{
    let mut found: Vec<DeviceInfo> = Vec::new();
    let mut i: usize = 0;
    while i < handles.len()
        invariant
            i <= handles.len(),
            found.len() == i,
        decreases handles.len() - i,
    {
        found.push(probe_device(&handles[i]));
        i = i + 1;
    }
    found
}

/// Queries every platform of a list in turn: one record for each handle, in
/// the order of the handles. No platform is skipped for what another one
/// answered.
fn probe_each_platform(handles: &Vec<opencl3::platform::Platform>) -> (found: Vec<PlatformInfo>)
    ensures
        found.len() == handles.len(),
{
    let mut found: Vec<PlatformInfo> = Vec::new();
    let mut i: usize = 0;
    while i < handles.len()
        invariant
            i <= handles.len(),
            found.len() == i,
        decreases handles.len() - i,
    {
        found.push(probe_platform(&handles[i]));
        i = i + 1;
    }
    found
}

} // verus!
