//! Fatal host-side aborts.
//!
//! The guest cannot recover from any of these: they signal either an emulator
//! bug or guest behaviour the core does not implement.  The embedder is
//! expected to stop the machine and report the payload.  Guest-visible
//! exceptions (overflow, address errors, syscalls) are not faults; the CPU
//! delivers those through the coprocessor-0 exception protocol.

use vstd::prelude::*;

verus! {

/// A condition that must terminate emulation, with the offending address,
/// instruction word or register value.
#[derive(Clone, Copy, Debug, PartialEq, Eq, Structural)]
pub enum Fault {
    /// A load reached an address that no bus range backs.
    UnmappedLoad(u32),
    /// A store reached an address that no bus range backs.
    UnmappedStore(u32),
    /// A word or halfword bus access was not aligned to its size.
    UnalignedAccess(u32),
    /// A memory-control register was written with the wrong fixed base.
    BadExpansionBase(u32),
    /// A read of a DMA register offset the controller does not decode.
    UnhandledDmaRead(u32),
    /// A write of a DMA register offset the controller does not decode.
    UnhandledDmaWrite(u32),
    /// A channel control word named the reserved sync mode.
    UnknownDmaSync(u32),
    /// A block transfer was started in a mode with no fixed size.
    DmaSizeUnknown,
    /// A from-RAM transfer targeted a port other than the GPU.
    DmaBadDestination(u32),
    /// A to-RAM transfer named a source port other than the ordering table.
    DmaBadSource(u32),
    /// A linked-list transfer was started with the to-RAM direction.
    DmaListToRam,
    /// A linked-list transfer targeted a port other than the GPU.
    DmaListBadPort(u32),
    /// A linked-list transfer walked more nodes than RAM holds headers.
    DmaListTooLong,
    /// A GP0 command word with an opcode the GPU does not implement.
    UnhandledGp0(u32),
    /// A GP1 command word with an opcode the GPU does not implement.
    UnhandledGp1(u32),
    /// A display mode the GPU does not implement.
    UnsupportedDisplayMode(u32),
    /// A texture-depth field value the GPU does not implement.
    UnhandledTextureDepth(u32),
    /// A GPU register offset outside the two command ports.
    UnhandledGpuAccess(u32),
    /// An instruction word the CPU does not decode.
    UnhandledInstruction(u32),
    /// A coprocessor-0 instruction word the CPU does not decode.
    UnhandledCopInstruction(u32),
    /// A geometry-coprocessor instruction; the core does not execute them.
    UnhandledGteInstruction(u32),
    /// A write of a non-zero value to a breakpoint or cause register, or a
    /// write to a coprocessor-0 register the core does not hold.
    UnhandledCop0Write(u32),
    /// A read of a coprocessor-0 register the core does not hold.
    UnhandledCop0Read(u32),
    /// A return-from-exception encoding the CPU does not decode.
    InvalidRfe(u32),
}

} // verus!
