pub mod bytes;
pub mod pixel;
pub mod shade;
pub mod palette;
pub mod device;
pub mod tile;
pub mod gpu;
pub mod cartridge;
pub mod rom;
pub mod mmu;
pub mod register;
pub mod framebuffer;
pub mod msg;
pub mod text;
pub mod cpu;
pub mod instruction;
pub mod gameboy;
pub mod repl;
pub mod debugger;
pub mod control;
