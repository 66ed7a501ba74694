//! Core of a bare-metal AArch64 hypervisor: vCPU registry and context model,
//! virtual interrupt controller with list-register allocation, inter-processor
//! messaging for guest power events, and the small helpers they share.

pub mod context;
pub mod cpu;
pub mod emu;
pub mod error;
pub mod gic;
pub mod hal;
pub mod ipi;
pub mod psci;
pub mod util;
pub mod vcpu;
pub mod vcpus_array;
pub mod vgic;
pub mod vm;
pub mod vuart;

pub use context::{ContextFrame, ContextFrameTrait, VmContext};
pub use cpu::{PerCpu, PerCpuSet};
pub use error::{HyperError, HyperResult};
pub use gic::IrqState;
pub use hal::HyperCraftHal;
pub use vcpu::{VCpu, VcpuState};
pub use vcpus_array::{VcpusArray, VmCpus};
pub use vgic::Vgic;
pub use vm::{GuestPageTableTrait, VM};
