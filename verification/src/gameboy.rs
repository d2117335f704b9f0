use vstd::prelude::*;
use crate::rom::BootRom;
use crate::mmu::{MMU, after_boot_writes};
use crate::register::{Registers, power_on_registers, after_boot_registers};
use crate::cpu::{CPU, CpuView};
use crate::cartridge::Cartridge;
use crate::instruction::opcode;
use crate::framebuffer;

verus! {

/// A gameboy: the processor with its memory, and the instruction table.
pub struct Gameboy {
    pub cpu: CPU,
    pub instructions: opcode::Fetcher,
}

impl Gameboy {
    /// A gameboy around a boot ROM and a cartridge. Skipping the boot starts it in the state
    /// the boot program leaves: registers, I/O registers and the boot ROM switched off.
    pub fn new(boot_rom: BootRom, cartridge: Cartridge, skip_boot: bool) -> (g: Gameboy)
        ensures
            g.cpu@ == (CpuView {
                mmu: if skip_boot {
                    after_boot_writes(MMU::initial(BootRom::zeroed(), cartridge@))
                } else {
                    MMU::initial(boot_rom, cartridge@)
                },
                registers: if skip_boot { after_boot_registers() } else { power_on_registers() },
                buffer: framebuffer::blank(),
            }),
    {
        let mmu = if skip_boot {
            MMU::skip_boot(cartridge)
        } else {
            MMU::new(boot_rom, cartridge)
        };

        let registers = if skip_boot {
            Registers::skip_boot()
        } else {
            Registers::new()
        };

        let instructions = opcode::Fetcher::new();
        let cpu = CPU::new(registers, mmu);

        Gameboy { cpu: cpu, instructions: instructions }
    }
}

}
