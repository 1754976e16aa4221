//! An emulator for a small 8-bit teaching processor: instruction codec,
//! addressing modes, the fetch-decode-execute step and a disassembler.
pub mod addressing;
pub mod disassembler;
pub mod error;
pub mod instructions;
pub mod io_device;
pub mod loader;
pub mod processor;
pub mod text;

pub use error::FlispError;
pub use instructions::Instruction;
pub use io_device::IoDevice;
pub use processor::Flisp;
pub use text::write_mem;
