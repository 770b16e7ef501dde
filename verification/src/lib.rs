//! Verified core of a 32-bit MIPS game-console emulator.
//!
//! The library covers the CPU instruction-decode/execute engine with its
//! coprocessor-0 exception model and load-delay semantics, the address-space
//! router that dispatches every load and store to the backing device, and the
//! DMA engine with block and linked-list transfer modes.  The GPU and SPU are
//! external collaborators: the core models only their register-level ports and
//! hands the command streams to the embedder.

pub mod bios;
pub mod channel;
pub mod cpu;
pub mod dma;
pub mod fault;
pub mod gpu;
pub mod instruction;
pub mod interconnect;
pub mod map;
pub mod ram;
pub mod spu;
