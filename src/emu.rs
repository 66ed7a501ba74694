//! Emulated devices: their kinds, the context of a trapped access, and the
//! table entry that routes an address range to a device handler.

use vstd::prelude::*;

verus! {

/// A guest memory-mapped access that trapped to the hypervisor.
#[derive(Debug)]
pub struct EmuContext {
    /// Faulting guest address.
    pub address: usize,
    /// Access width in bytes.
    pub width: usize,
    /// Whether the access is a write.
    pub write: bool,
    /// Whether the loaded item is sign-extended.
    pub sign_ext: bool,
    /// Index of the source or target register.
    pub reg: usize,
    /// Width of the source or target register.
    pub reg_width: usize,
}

/// An emulated device and the guest address range it answers; `F` is the
/// handler, which takes the device id and the trapped access and says whether
/// it handled the access.
pub struct EmuDevEntry<F> {
    /// Device kind.
    pub emu_type: EmuDeviceType,
    /// Owning VM.
    pub vm_id: usize,
    /// Device id.
    pub id: usize,
    /// Guest-physical base address.
    pub ipa: usize,
    /// Size of the address range.
    pub size: usize,
    /// Handler for accesses in the range.
    pub handler: F,
}

/// Kind of an emulated device.
#[derive(Clone, Copy, Debug, PartialEq, Eq, Structural)]
pub enum EmuDeviceType {
    /// Console.
    EmuDeviceTConsole,
    /// Interrupt controller distributor.
    EmuDeviceTGicd,
    /// Interrupt controller system-register enable.
    EmuDeviceTICCSRE,
    /// Software-generated interrupt register.
    EmuDeviceTSGIR,
    /// Interrupt controller redistributor.
    EmuDeviceTGICR,
    /// Partial passthrough interrupt controller.
    EmuDeviceTGPPT,
    /// Virtio block device.
    EmuDeviceTVirtioBlk,
    /// Virtio network device.
    EmuDeviceTVirtioNet,
    /// Virtio console.
    EmuDeviceTVirtioConsole,
    /// IOMMU.
    EmuDeviceTIOMMU,
}

/// The number that identifies each device kind.
pub open spec fn emu_type_code(t: EmuDeviceType) -> usize {
    match t {
        EmuDeviceType::EmuDeviceTConsole => 0,
        EmuDeviceType::EmuDeviceTGicd => 1,
        EmuDeviceType::EmuDeviceTGPPT => 2,
        EmuDeviceType::EmuDeviceTVirtioBlk => 3,
        EmuDeviceType::EmuDeviceTVirtioNet => 4,
        EmuDeviceType::EmuDeviceTVirtioConsole => 5,
        EmuDeviceType::EmuDeviceTIOMMU => 6,
        EmuDeviceType::EmuDeviceTICCSRE => 9,
        EmuDeviceType::EmuDeviceTSGIR => 10,
        EmuDeviceType::EmuDeviceTGICR => 11,
    }
}

/// Whether `value` identifies a device kind.
pub open spec fn is_emu_type_code(value: usize) -> bool {
    value <= 6 || (9 <= value && value <= 11)
}

/// The human-readable name of a device kind.
pub open spec fn emu_type_name(t: EmuDeviceType) -> Seq<char> {
    match t {
        EmuDeviceType::EmuDeviceTGicd => "interrupt controller"@,
        EmuDeviceType::EmuDeviceTICCSRE => "interrupt controller icc"@,
        EmuDeviceType::EmuDeviceTSGIR => "interrupt controller sgi"@,
        EmuDeviceType::EmuDeviceTGICR => "interrupt controller gicr"@,
        EmuDeviceType::EmuDeviceTConsole => "console"@,
        EmuDeviceType::EmuDeviceTGPPT => "partial passthrough interrupt controller"@,
        EmuDeviceType::EmuDeviceTVirtioBlk => "virtio block"@,
        EmuDeviceType::EmuDeviceTVirtioNet => "virtio net"@,
        EmuDeviceType::EmuDeviceTVirtioConsole => "virtio console"@,
        EmuDeviceType::EmuDeviceTIOMMU => "IOMMU"@,
    }
}

impl EmuDeviceType {
    /// Whether a device of this kind may be removed from a running VM: all
    /// kinds but the console and the IOMMU.
    pub fn removable(&self) -> (r: bool)
        ensures
            r == !(*self is EmuDeviceTConsole || *self is EmuDeviceTIOMMU),
    {
        match *self {
            EmuDeviceType::EmuDeviceTGicd
            | EmuDeviceType::EmuDeviceTICCSRE
            | EmuDeviceType::EmuDeviceTSGIR
            | EmuDeviceType::EmuDeviceTGICR
            | EmuDeviceType::EmuDeviceTGPPT
            | EmuDeviceType::EmuDeviceTVirtioBlk
            | EmuDeviceType::EmuDeviceTVirtioNet
            | EmuDeviceType::EmuDeviceTVirtioConsole => true,
            _ => false,
        }
    }

    /// The device kind that `value` identifies.
    pub fn from_usize(value: usize) -> (r: EmuDeviceType)
        requires
            is_emu_type_code(value),
        ensures
            emu_type_code(r) == value,
    {
        match value {
            0 => EmuDeviceType::EmuDeviceTConsole,
            1 => EmuDeviceType::EmuDeviceTGicd,
            9 => EmuDeviceType::EmuDeviceTICCSRE,
            10 => EmuDeviceType::EmuDeviceTSGIR,
            11 => EmuDeviceType::EmuDeviceTGICR,
            2 => EmuDeviceType::EmuDeviceTGPPT,
            3 => EmuDeviceType::EmuDeviceTVirtioBlk,
            4 => EmuDeviceType::EmuDeviceTVirtioNet,
            5 => EmuDeviceType::EmuDeviceTVirtioConsole,
            _ => EmuDeviceType::EmuDeviceTIOMMU,
        }
    }

    /// The number that identifies this device kind.
    pub fn to_usize(&self) -> (r: usize)
        ensures
            r == emu_type_code(*self),
            is_emu_type_code(r),
    {
        match *self {
            EmuDeviceType::EmuDeviceTConsole => 0,
            EmuDeviceType::EmuDeviceTGicd => 1,
            EmuDeviceType::EmuDeviceTGPPT => 2,
            EmuDeviceType::EmuDeviceTVirtioBlk => 3,
            EmuDeviceType::EmuDeviceTVirtioNet => 4,
            EmuDeviceType::EmuDeviceTVirtioConsole => 5,
            EmuDeviceType::EmuDeviceTIOMMU => 6,
            EmuDeviceType::EmuDeviceTICCSRE => 9,
            EmuDeviceType::EmuDeviceTSGIR => 10,
            EmuDeviceType::EmuDeviceTGICR => 11,
        }
    }

    /// The human-readable name of this device kind.
    pub fn name(&self) -> (r: &'static str)
        ensures
            r@ == emu_type_name(*self),
    {
        match *self {
            EmuDeviceType::EmuDeviceTGicd => "interrupt controller",
            EmuDeviceType::EmuDeviceTICCSRE => "interrupt controller icc",
            EmuDeviceType::EmuDeviceTSGIR => "interrupt controller sgi",
            EmuDeviceType::EmuDeviceTGICR => "interrupt controller gicr",
            EmuDeviceType::EmuDeviceTConsole => "console",
            EmuDeviceType::EmuDeviceTGPPT => "partial passthrough interrupt controller",
            EmuDeviceType::EmuDeviceTVirtioBlk => "virtio block",
            EmuDeviceType::EmuDeviceTVirtioNet => "virtio net",
            EmuDeviceType::EmuDeviceTVirtioConsole => "virtio console",
            EmuDeviceType::EmuDeviceTIOMMU => "IOMMU",
        }
    }
}

} // verus!
