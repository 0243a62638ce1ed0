//! What has to be known before a guest can run: the contents of its memory,
//! where its memory regions lie, and the registers it starts with.

use crate::image::{
    load_fails_with, load_flat, load_image, load_outcome, place, zeroed, GuestImage, LoadError,
    LoadFault,
};
use crate::memory::{
    flat_regions, image_regions, layout_flat, layout_image, well_laid_out, GuestMemoryRegion,
    PAGE_SIZE,
};
use crate::vcpu::{boot_registers, setup_regs, BootRegisters};
use vstd::prelude::*;

verus! {

/// A guest that is ready to be handed to the virtual machine.
#[derive(Debug, PartialEq, Eq)]
pub struct MachinePlan {
    /// The contents of the primary region. Every other region starts as
    /// zeroes.
    pub memory: Vec<u8>,
    /// The regions to register, the primary region first.
    pub regions: Vec<GuestMemoryRegion>,
    /// The registers to set before the guest runs.
    pub registers: BootRegisters,
}

/// Why a guest cannot be set up.
#[derive(Debug, PartialEq, Eq)]
pub enum SetupError {
    /// A section of the image stopped the load.
    Load(LoadError),
    /// The flat program is longer than the guest's memory.
    ProgramTooLarge,
    /// The regions reach beyond the last guest-physical address.
    AddressSpace,
}

/// Plans a guest from a sectioned image.
///
/// The memory is laid out as a primary region of `mem_size` bytes at address
/// zero and a stack of the same size one page beyond it; regions that reach
/// beyond the last address are an error. The image is then loaded into the
/// primary region, and a section that stops the load is the error. The guest
/// starts at the entry point of the image.
pub fn plan_image(mem_size: usize, image: &GuestImage) -> (res: Result<MachinePlan, SetupError>)
    ensures
        match res {
            Ok(plan) => {
                &&& 2 * mem_size + PAGE_SIZE <= u64::MAX
                &&& load_outcome(zeroed(mem_size as nat), image.sections@) == Ok::<
                    Seq<u8>,
                    (int, LoadFault),
                >(plan.memory@)
                &&& plan.memory@.len() == mem_size
                &&& plan.regions@ == image_regions(mem_size)
                &&& well_laid_out(plan.regions@)
                &&& plan.registers == boot_registers(image.entry)
            },
            Err(SetupError::AddressSpace) => 2 * mem_size + PAGE_SIZE > u64::MAX,
            Err(SetupError::Load(error)) => 2 * mem_size + PAGE_SIZE <= u64::MAX && load_fails_with(
                zeroed(mem_size as nat),
                image.sections@,
                error,
            ),
            Err(SetupError::ProgramTooLarge) => false,
        },
{
    let regions = match layout_image(mem_size) {
        Some(regions) => regions,
        None => {
            return Err(SetupError::AddressSpace);
        },
    };
    let memory = match load_image(mem_size, image) {
        Ok(memory) => memory,
        Err(error) => {
            return Err(SetupError::Load(error));
        },
    };
    proof {
        crate::image::lemma_load_keeps_size(zeroed(mem_size as nat), image.sections@);
    }
    Ok(MachinePlan { memory, regions, registers: setup_regs(image.entry) })
}

/// Plans a guest from a flat program that is to run at `guest_phys_addr`.
///
/// The program has to fit into `mem_size` bytes of memory, which form the
/// only region, and the region must not reach beyond the last address. The
/// program is copied to the start of the memory, and the guest starts at its
/// first byte.
pub fn plan_flat(mem_size: usize, guest_phys_addr: u64, code: &[u8]) -> (res: Result<
    MachinePlan,
    SetupError,
>)
    ensures
        match res {
            Ok(plan) => {
                &&& code@.len() <= mem_size
                &&& guest_phys_addr + mem_size <= u64::MAX
                &&& plan.memory@ == place(zeroed(mem_size as nat), 0, code@)
                &&& plan.regions@ == flat_regions(mem_size, guest_phys_addr)
                &&& well_laid_out(plan.regions@)
                &&& plan.registers == boot_registers(guest_phys_addr)
            },
            Err(SetupError::ProgramTooLarge) => code@.len() > mem_size,
            Err(SetupError::AddressSpace) => code@.len() <= mem_size && guest_phys_addr + mem_size
                > u64::MAX,
            Err(SetupError::Load(_)) => false,
        },
{
    if code.len() > mem_size {
        return Err(SetupError::ProgramTooLarge);
    }
    let regions = match layout_flat(mem_size, guest_phys_addr) {
        Some(regions) => regions,
        None => {
            return Err(SetupError::AddressSpace);
        },
    };
    match load_flat(mem_size, code) {
        Some(memory) => Ok(MachinePlan { memory, regions, registers: setup_regs(guest_phys_addr) }),
        None => Err(SetupError::ProgramTooLarge),
    }
}

} // verus!
