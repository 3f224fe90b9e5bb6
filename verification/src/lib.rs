//! Memory subsystem of a small custom ISA simulator: a unified 32-bit address
//! bus that multiplexes accesses across a register file, main memory,
//! memory-mapped I/O ports and a video framebuffer, plus a big-endian binary
//! image codec for saving and restoring machine state.

pub mod types;
pub mod hex;
pub mod error;
pub mod isa_def;
pub mod addr;
pub mod device;
pub mod image;
pub mod memory;
pub mod reg;
pub mod io;
pub mod vram;
pub mod address_space;

pub use types::Word;
pub use error::CoreError;
pub use addr::{Addr, AddrKind};
pub use device::AddrPort;
pub use memory::Memory;
pub use address_space::Address;
pub use reg::{RegFile, SpecialReg};
pub use io::Io;
pub use vram::Vram;
pub use isa_def::{Opcode, Register};
