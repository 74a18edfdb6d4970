//! Human-readable names for the GPU adapter's vendor, backend and device type.
use vstd::prelude::*;

verus! {

/// Graphics API an adapter runs on.
#[derive(Clone, Copy, Debug, PartialEq, Eq, Structural)]
pub enum Backend {
    Empty,
    Vulkan,
    Metal,
    Dx12,
    Dx11,
    Gl,
    BrowserWebGpu,
}

/// Kind of GPU an adapter drives.
#[derive(Clone, Copy, Debug, PartialEq, Eq, Structural)]
pub enum DeviceType {
    Other,
    IntegratedGpu,
    DiscreteGpu,
    VirtualGpu,
    Cpu,
}

pub open spec fn vendor_label(vendor: usize) -> Seq<char> {
    if vendor == 0x1002 {
        "AMD"@
    } else if vendor == 0x1010 {
        "ImgTec"@
    } else if vendor == 0x10DE {
        "NVIDIA Corporation"@
    } else if vendor == 0x13B5 {
        "ARM"@
    } else if vendor == 0x5143 {
        "Qualcomm"@
    } else if vendor == 0x8086 {
        "INTEL Corporation"@
    } else {
        "Unknown vendor"@
    }
}

pub open spec fn backend_label(b: Backend) -> Seq<char> {
    match b {
        Backend::Empty => "Empty"@,
        Backend::Vulkan => "Vulkan"@,
        Backend::Metal => "Metal"@,
        Backend::Dx12 => "Dx12"@,
        Backend::Dx11 => "Dx11"@,
        Backend::Gl => "GL"@,
        Backend::BrowserWebGpu => "Browser WGPU"@,
    }
}

pub open spec fn device_type_label(t: DeviceType) -> Seq<char> {
    match t {
        DeviceType::Other => "Other"@,
        DeviceType::IntegratedGpu => "Integrated GPU"@,
        DeviceType::DiscreteGpu => "Discrete GPU"@,
        DeviceType::VirtualGpu => "Virtual GPU"@,
        DeviceType::Cpu => "CPU"@,
    }
}

/// Name of the vendor with PCI vendor id `vendor`.
pub fn vendor_name(vendor: usize) -> (r: &'static str)
    ensures
        r@ == vendor_label(vendor),
{
    match vendor {
        0x1002 => "AMD",
        0x1010 => "ImgTec",
        0x10DE => "NVIDIA Corporation",
        0x13B5 => "ARM",
        0x5143 => "Qualcomm",
        0x8086 => "INTEL Corporation",
        _ => "Unknown vendor",
    }
}

pub fn backend_name(backend: Backend) -> (r: &'static str)
    ensures
        r@ == backend_label(backend),
{
    match backend {
        Backend::Empty => "Empty",
        Backend::Vulkan => "Vulkan",
        Backend::Metal => "Metal",
        Backend::Dx12 => "Dx12",
        Backend::Dx11 => "Dx11",
        Backend::Gl => "GL",
        Backend::BrowserWebGpu => "Browser WGPU",
    }
}

pub fn device_type_name(device_type: DeviceType) -> (r: &'static str)
    ensures
        r@ == device_type_label(device_type),
{
    match device_type {
        DeviceType::Other => "Other",
        DeviceType::IntegratedGpu => "Integrated GPU",
        DeviceType::DiscreteGpu => "Discrete GPU",
        DeviceType::VirtualGpu => "Virtual GPU",
        DeviceType::Cpu => "CPU",
    }
}

} // verus!
