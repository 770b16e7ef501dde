//! The bus: routes every CPU-issued load and store to the backing device,
//! and runs DMA transfers when a store makes a channel active.

use vstd::prelude::*;

use crate::bios::{Bios, BIOS_SIZE};
use crate::channel::{
    spec_active, spec_control, spec_set_control, spec_transfer_size, Channel, Direction, Step, Sync,
};
use crate::dma::{port_index, spec_interrupt, spec_port, spec_set_interrupt, Dma, DmaV, Port};
use crate::fault::Fault;
use crate::gpu::{spec_gp0, spec_gp1, spec_status, Gpu, GpuV};
use crate::map::{
    mask_region, spec_contains, spec_mask_region, Range, BIOS_BASE, BIOS_LEN, CACHE_CONTROL_BASE,
    CACHE_CONTROL_LEN, DMA_BASE, DMA_LEN, EXPANSION_1_BASE, EXPANSION_1_LEN, EXPANSION_2_BASE,
    EXPANSION_2_LEN, GPU_BASE, GPU_LEN, IRQ_CONTROL_BASE, IRQ_CONTROL_LEN, MEM_CONTROL_BASE,
    MEM_CONTROL_LEN, RAM_BASE, RAM_LEN, RAM_SIZE_BASE, RAM_SIZE_LEN, SPU_BASE, SPU_LEN, TIMERS_BASE,
    TIMERS_LEN,
};
use crate::ram::{half_at, store_half, store_word, word_at, Ram, RAM_SIZE};
use crate::spu::{spec_spu_load, Spu};

verus! {

/// Every word a DMA transfer touches is masked into the RAM window and kept
/// word-aligned.
pub const DMA_ADDR_MASK: u32 = 0x001F_FFFC;

/// The mask applied to the value the ordering-table transfer writes.
pub const OTC_VALUE_MASK: u32 = 0x001F_FFFF;

/// The header word that ends an ordering-table list.
pub const OTC_END_MARKER: u32 = 0x00FF_FFFF;

/// A linked list with more nodes than RAM holds headers must revisit one, so
/// the walk would never end; the transfer stops with a fault there instead.
pub const LINKED_LIST_MAX_NODES: u32 = 0x0008_0000;

/// Mathematical model of the bus: the two memories, the DMA controller, and
/// the two peripheral ports.
#[verifier::ext_equal]
pub struct BusV {
    pub bios: Seq<u8>,
    pub ram: Seq<u8>,
    pub dma: DmaV,
    pub gpu: GpuV,
    pub spu: Seq<(u32, u16)>,
}

/// The memories span their windows, the controller holds its seven channels,
/// and the GPU assembler is inside its bounds.
pub open spec fn bus_wf(b: BusV) -> bool {
    &&& b.bios.len() == BIOS_SIZE
    &&& b.ram.len() == RAM_SIZE
    &&& b.dma.channels.len() == 7
    &&& b.gpu.buf.len() + b.gpu.remaining <= 12
}

/// A masked DMA address stays word-aligned and inside the RAM window.
pub proof fn lemma_dma_addr_mask(a: u32)
    by (bit_vector)
    ensures
        (a & 0x001F_FFFC) % 4 == 0,
        (a & 0x001F_FFFC) + 4 <= 0x0020_0000,
{
}

/// The region mask keeps word and halfword alignment.
pub proof fn lemma_mask_keeps_alignment(addr: u32)
    ensures
        addr % 4 == 0 ==> spec_mask_region(addr) % 4 == 0,
        addr % 2 == 0 ==> spec_mask_region(addr) % 2 == 0,
{
    assert((addr % 4 == 0 ==> (addr & 0x7FFF_FFFF) % 4 == 0 && (addr & 0x1FFF_FFFF) % 4 == 0) && (
    addr % 2 == 0 ==> (addr & 0x7FFF_FFFF) % 2 == 0 && (addr & 0x1FFF_FFFF) % 2 == 0))
        by (bit_vector);
}

/// A word-aligned address inside a word-aligned range gives a word-aligned
/// offset with room for the full word.
pub proof fn lemma_aligned_word_offset(a: u32, base: u32, len: u32)
    requires
        a % 4 == 0,
        base % 4 == 0,
        len % 4 == 0,
        len > 0,
        base <= a,
        a < base + len,
    ensures
        (a - base) % 4 == 0,
        a - base + 4 <= len,
{
    let d = (a - base) as u32;
    assert(d % 4 == 0 && d + 4 <= len) by (bit_vector)
        requires
            a % 4 == 0 && base % 4 == 0 && len % 4 == 0 && len > 0 && base <= a && a < base + len
                && base + d == a,
    ;
}

/// A halfword-aligned address inside a halfword-aligned range gives an offset
/// with room for the full halfword.
pub proof fn lemma_aligned_half_offset(a: u32, base: u32, len: u32)
    requires
        a % 2 == 0,
        base % 2 == 0,
        len % 2 == 0,
        len > 0,
        base <= a,
        a < base + len,
    ensures
        a - base + 2 <= len,
{
    let d = (a - base) as u32;
    assert(d + 2 <= len) by (bit_vector)
        requires
            a % 2 == 0 && base % 2 == 0 && len % 2 == 0 && len > 0 && base <= a && a < base + len
                && base + d == a,
    ;
}

/// The DMA register selectors: major selects a channel or the global block,
/// minor the register within it.
pub open spec fn spec_dma_major(offset: u32) -> u32 {
    (offset & 0x70) >> 4
}

/// The register within a DMA channel or the global block.
pub open spec fn spec_dma_minor(offset: u32) -> u32 {
    offset & 0x0F
}

/// The major selector stays below eight.
pub proof fn lemma_dma_major_bound(offset: u32)
    by (bit_vector)
    ensures
        spec_dma_major(offset) < 8,
{
}

/// The value a DMA register read returns.
pub open spec fn spec_dma_reg(d: DmaV, offset: u32) -> Result<u32, Fault> {
    let major = spec_dma_major(offset);
    let minor = spec_dma_minor(offset);
    if major <= 6 {
        if minor == 8 {
            Ok(spec_control(d.channels[major as int]))
        } else {
            Err(Fault::UnhandledDmaRead(offset))
        }
    } else {
        if minor == 0 {
            Ok(d.control)
        } else if minor == 4 {
            Ok(spec_interrupt(d))
        } else {
            Err(Fault::UnhandledDmaRead(offset))
        }
    }
}

/// One block transfer walked to its end: the RAM and GPU it leaves behind.
/// From RAM, each word is read at the masked address and handed to the GPU
/// port; to RAM, the ordering-table pattern is written.  The address steps by
/// four, up or down, each word.
pub open spec fn spec_dma_block_loop(
    ram: Seq<u8>,
    gpu: GpuV,
    port: Port,
    dir: Direction,
    step: Step,
    addr: u32,
    remsz: u32,
) -> Result<(Seq<u8>, GpuV), Fault>
    decreases remsz,
{
    if remsz == 0 {
        Ok((ram, gpu))
    } else {
        let cur = addr & DMA_ADDR_MASK;
        let next_addr = match step {
            Step::Increment => addr.wrapping_add(4),
            Step::Decrement => addr.wrapping_sub(4),
        };
        match dir {
            Direction::FromRam => {
                let word = word_at(ram, cur as int);
                match port {
                    Port::Gpu => match spec_gp0(gpu, word) {
                        Ok(g2) => spec_dma_block_loop(
                            ram,
                            g2,
                            port,
                            dir,
                            step,
                            next_addr,
                            (remsz - 1) as u32,
                        ),
                        Err(f) => Err(f),
                    },
                    _ => Err(Fault::DmaBadDestination(port_index(port) as u32)),
                }
            },
            Direction::ToRam => {
                match port {
                    Port::Otc => {
                        let word = if remsz == 1 {
                            OTC_END_MARKER
                        } else {
                            addr.wrapping_sub(4) & OTC_VALUE_MASK
                        };
                        spec_dma_block_loop(
                            store_word(ram, cur as int, word),
                            gpu,
                            port,
                            dir,
                            step,
                            next_addr,
                            (remsz - 1) as u32,
                        )
                    },
                    _ => Err(Fault::DmaBadSource(port_index(port) as u32)),
                }
            },
        }
    }
}

/// The controller with one channel's transfer marked finished.
pub open spec fn spec_dma_done(d: DmaV, port: Port) -> DmaV {
    DmaV {
        channels: d.channels.update(
            port_index(port),
            Channel { enable: false, trigger: false, ..d.channels[port_index(port)] },
        ),
        ..d
    }
}

/// A whole block or request transfer, triggered by a channel going active.
pub open spec fn spec_dma_block(b: BusV, port: Port) -> Result<BusV, Fault> {
    let ch = b.dma.channels[port_index(port)];
    match spec_transfer_size(ch) {
        None => Err(Fault::DmaSizeUnknown),
        Some(remsz) => match spec_dma_block_loop(
            b.ram,
            b.gpu,
            port,
            ch.direction,
            ch.step,
            ch.base,
            remsz,
        ) {
            Ok((ram2, gpu2)) => Ok(
                BusV { ram: ram2, gpu: gpu2, dma: spec_dma_done(b.dma, port), ..b },
            ),
            Err(f) => Err(f),
        },
    }
}

/// The words of one linked-list node handed to the GPU port, and the address
/// of the node's last word.
pub open spec fn spec_dma_ll_node(
    ram: Seq<u8>,
    gpu: GpuV,
    addr: u32,
    remsz: u32,
) -> Result<(GpuV, u32), Fault>
    decreases remsz,
{
    if remsz == 0 {
        Ok((gpu, addr))
    } else {
        let next = addr.wrapping_add(4) & DMA_ADDR_MASK;
        match spec_gp0(gpu, word_at(ram, next as int)) {
            Ok(g2) => spec_dma_ll_node(ram, g2, next, (remsz - 1) as u32),
            Err(f) => Err(f),
        }
    }
}

/// The linked-list walk from one node header onwards, with the number of
/// headers still allowed.
pub open spec fn spec_dma_ll_loop(ram: Seq<u8>, gpu: GpuV, addr: u32, fuel: u32) -> Result<
    GpuV,
    Fault,
>
    decreases fuel,
{
    if fuel == 0 {
        Err(Fault::DmaListTooLong)
    } else {
        let header = word_at(ram, addr as int);
        match spec_dma_ll_node(ram, gpu, addr, header >> 24) {
            Ok((gpu2, _end)) => {
                if header & 0x0080_0000 != 0 {
                    Ok(gpu2)
                } else {
                    spec_dma_ll_loop(ram, gpu2, header & DMA_ADDR_MASK, (fuel - 1) as u32)
                }
            },
            Err(f) => Err(f),
        }
    }
}

/// A whole linked-list transfer: only the GPU port, only from RAM.
pub open spec fn spec_dma_linked_list(b: BusV, port: Port) -> Result<BusV, Fault> {
    let ch = b.dma.channels[port_index(port)];
    if ch.direction == Direction::ToRam {
        Err(Fault::DmaListToRam)
    } else if port != Port::Gpu {
        Err(Fault::DmaListBadPort(port_index(port) as u32))
    } else {
        match spec_dma_ll_loop(b.ram, b.gpu, ch.base & DMA_ADDR_MASK, LINKED_LIST_MAX_NODES) {
            Ok(gpu2) => Ok(BusV { gpu: gpu2, dma: spec_dma_done(b.dma, port), ..b }),
            Err(f) => Err(f),
        }
    }
}

/// The transfer an active channel runs: its sync mode picks the engine.
pub open spec fn spec_do_dma(b: BusV, port: Port) -> Result<BusV, Fault> {
    match b.dma.channels[port_index(port)].sync {
        Sync::LinkedList => spec_dma_linked_list(b, port),
        _ => spec_dma_block(b, port),
    }
}

/// The bus after a DMA register write, including any transfer the write
/// triggers.
pub open spec fn spec_set_dma_reg(b: BusV, offset: u32, val: u32) -> Result<BusV, Fault> {
    let major = spec_dma_major(offset);
    let minor = spec_dma_minor(offset);
    if major <= 6 {
        let port = spec_port(major as int);
        let ch = b.dma.channels[major as int];
        let ch2 = if minor == 0 {
            Ok(Channel { base: val & 0x00FF_FFFF, ..ch })
        } else if minor == 4 {
            Ok(Channel { block_size: val as u16, block_count: (val >> 16) as u16, ..ch })
        } else if minor == 8 {
            spec_set_control(ch, val)
        } else {
            Err(Fault::UnhandledDmaWrite(offset))
        };
        match ch2 {
            Err(f) => Err(f),
            Ok(c2) => {
                let b2 = BusV {
                    dma: DmaV { channels: b.dma.channels.update(major as int, c2), ..b.dma },
                    ..b
                };
                if spec_active(c2) {
                    spec_do_dma(b2, port)
                } else {
                    Ok(b2)
                }
            },
        }
    } else {
        if minor == 0 {
            Ok(BusV { dma: DmaV { control: val, ..b.dma }, ..b })
        } else if minor == 4 {
            Ok(BusV { dma: spec_set_interrupt(b.dma, val), ..b })
        } else {
            Err(Fault::UnhandledDmaWrite(offset))
        }
    }
}

/// The value a 32-bit load returns for every address, or the fault that
/// stops the machine.
pub open spec fn spec_load32(b: BusV, addr: u32) -> Result<u32, Fault> {
    if addr % 4 != 0 {
        Err(Fault::UnalignedAccess(addr))
    } else {
        let a = spec_mask_region(addr);
        if spec_contains(Range(BIOS_BASE, BIOS_LEN), a) is Some {
            Ok(word_at(b.bios, spec_contains(Range(BIOS_BASE, BIOS_LEN), a)->Some_0 as int))
        } else if spec_contains(Range(RAM_BASE, RAM_LEN), a) is Some {
            Ok(word_at(b.ram, spec_contains(Range(RAM_BASE, RAM_LEN), a)->Some_0 as int))
        } else if spec_contains(Range(IRQ_CONTROL_BASE, IRQ_CONTROL_LEN), a) is Some {
            Ok(0)
        } else if spec_contains(Range(DMA_BASE, DMA_LEN), a) is Some {
            spec_dma_reg(b.dma, spec_contains(Range(DMA_BASE, DMA_LEN), a)->Some_0)
        } else if spec_contains(Range(GPU_BASE, GPU_LEN), a) is Some {
            let offset = spec_contains(Range(GPU_BASE, GPU_LEN), a)->Some_0;
            if offset == 0 {
                Ok(0)
            } else if offset == 4 {
                Ok(spec_status(b.gpu.regs))
            } else {
                Err(Fault::UnhandledGpuAccess(offset))
            }
        } else if spec_contains(Range(TIMERS_BASE, TIMERS_LEN), a) is Some {
            Ok(0)
        } else {
            Err(Fault::UnmappedLoad(addr))
        }
    }
}

/// The bus after a 32-bit store, including any DMA transfer it triggers.
pub open spec fn spec_store32(b: BusV, addr: u32, val: u32) -> Result<BusV, Fault> {
    if addr % 4 != 0 {
        Err(Fault::UnalignedAccess(addr))
    } else {
        let a = spec_mask_region(addr);
        if spec_contains(Range(MEM_CONTROL_BASE, MEM_CONTROL_LEN), a) is Some {
            let offset = spec_contains(Range(MEM_CONTROL_BASE, MEM_CONTROL_LEN), a)->Some_0;
            if offset == 0 {
                if val == 0x1F00_0000 {
                    Ok(b)
                } else {
                    Err(Fault::BadExpansionBase(val))
                }
            } else if offset == 4 {
                if val == 0x1F80_2000 {
                    Ok(b)
                } else {
                    Err(Fault::BadExpansionBase(val))
                }
            } else {
                Ok(b)
            }
        } else if spec_contains(Range(RAM_SIZE_BASE, RAM_SIZE_LEN), a) is Some {
            Ok(b)
        } else if spec_contains(Range(CACHE_CONTROL_BASE, CACHE_CONTROL_LEN), a) is Some {
            Ok(b)
        } else if spec_contains(Range(RAM_BASE, RAM_LEN), a) is Some {
            Ok(
                BusV {
                    ram: store_word(
                        b.ram,
                        spec_contains(Range(RAM_BASE, RAM_LEN), a)->Some_0 as int,
                        val,
                    ),
                    ..b
                },
            )
        } else if spec_contains(Range(IRQ_CONTROL_BASE, IRQ_CONTROL_LEN), a) is Some {
            Ok(b)
        } else if spec_contains(Range(DMA_BASE, DMA_LEN), a) is Some {
            spec_set_dma_reg(b, spec_contains(Range(DMA_BASE, DMA_LEN), a)->Some_0, val)
        } else if spec_contains(Range(GPU_BASE, GPU_LEN), a) is Some {
            let offset = spec_contains(Range(GPU_BASE, GPU_LEN), a)->Some_0;
            if offset == 0 {
                match spec_gp0(b.gpu, val) {
                    Ok(g2) => Ok(BusV { gpu: g2, ..b }),
                    Err(f) => Err(f),
                }
            } else if offset == 4 {
                match spec_gp1(b.gpu.regs, val) {
                    Ok(rg) => Ok(BusV { gpu: GpuV { regs: rg, ..b.gpu }, ..b }),
                    Err(f) => Err(f),
                }
            } else {
                Err(Fault::UnhandledGpuAccess(offset))
            }
        } else if spec_contains(Range(TIMERS_BASE, TIMERS_LEN), a) is Some {
            Ok(b)
        } else {
            Err(Fault::UnmappedStore(addr))
        }
    }
}

/// The value a 16-bit load returns for every address.
pub open spec fn spec_load16(b: BusV, addr: u32) -> Result<u16, Fault> {
    if addr % 2 != 0 {
        Err(Fault::UnalignedAccess(addr))
    } else {
        let a = spec_mask_region(addr);
        if spec_contains(Range(SPU_BASE, SPU_LEN), a) is Some {
            Ok(spec_spu_load(spec_contains(Range(SPU_BASE, SPU_LEN), a)->Some_0))
        } else if spec_contains(Range(RAM_BASE, RAM_LEN), a) is Some {
            Ok(half_at(b.ram, spec_contains(Range(RAM_BASE, RAM_LEN), a)->Some_0 as int))
        } else if spec_contains(Range(IRQ_CONTROL_BASE, IRQ_CONTROL_LEN), a) is Some {
            Ok(0)
        } else {
            Err(Fault::UnmappedLoad(addr))
        }
    }
}

/// The bus after a 16-bit store.
pub open spec fn spec_store16(b: BusV, addr: u32, val: u16) -> Result<BusV, Fault> {
    if addr % 2 != 0 {
        Err(Fault::UnalignedAccess(addr))
    } else {
        let a = spec_mask_region(addr);
        if spec_contains(Range(RAM_BASE, RAM_LEN), a) is Some {
            Ok(
                BusV {
                    ram: store_half(
                        b.ram,
                        spec_contains(Range(RAM_BASE, RAM_LEN), a)->Some_0 as int,
                        val,
                    ),
                    ..b
                },
            )
        } else if spec_contains(Range(SPU_BASE, SPU_LEN), a) is Some {
            Ok(
                BusV {
                    spu: b.spu.push((spec_contains(Range(SPU_BASE, SPU_LEN), a)->Some_0, val)),
                    ..b
                },
            )
        } else if spec_contains(Range(TIMERS_BASE, TIMERS_LEN), a) is Some {
            Ok(b)
        } else if spec_contains(Range(IRQ_CONTROL_BASE, IRQ_CONTROL_LEN), a) is Some {
            Ok(b)
        } else {
            Err(Fault::UnmappedStore(addr))
        }
    }
}

/// The value a byte load returns for every address.
pub open spec fn spec_load8(b: BusV, addr: u32) -> Result<u8, Fault> {
    let a = spec_mask_region(addr);
    if spec_contains(Range(BIOS_BASE, BIOS_LEN), a) is Some {
        Ok(b.bios[spec_contains(Range(BIOS_BASE, BIOS_LEN), a)->Some_0 as int])
    } else if spec_contains(Range(RAM_BASE, RAM_LEN), a) is Some {
        Ok(b.ram[spec_contains(Range(RAM_BASE, RAM_LEN), a)->Some_0 as int])
    } else if spec_contains(Range(EXPANSION_1_BASE, EXPANSION_1_LEN), a) is Some {
        Ok(0xFF)
    } else {
        Err(Fault::UnmappedLoad(addr))
    }
}

/// The bus after a byte store.
pub open spec fn spec_store8(b: BusV, addr: u32, val: u8) -> Result<BusV, Fault> {
    let a = spec_mask_region(addr);
    if spec_contains(Range(EXPANSION_2_BASE, EXPANSION_2_LEN), a) is Some {
        Ok(b)
    } else if spec_contains(Range(RAM_BASE, RAM_LEN), a) is Some {
        Ok(
            BusV {
                ram: b.ram.update(spec_contains(Range(RAM_BASE, RAM_LEN), a)->Some_0 as int, val),
                ..b
            },
        )
    } else {
        Err(Fault::UnmappedStore(addr))
    }
}

/// The interconnect: owns the memories, the DMA controller and the
/// peripheral ports.
pub struct Interconnect {
    bios: Bios,
    ram: Ram,
    dma: Dma,
    pub gpu: Gpu,
    pub spu: Spu,
}

impl View for Interconnect {
    type V = BusV;

    closed spec fn view(&self) -> BusV {
        BusV { bios: self.bios@, ram: self.ram@, dma: self.dma@, gpu: self.gpu@, spu: self.spu@ }
    }
}

impl Interconnect {
    /// The bus invariant over the view.
    pub open spec fn wf(&self) -> bool {
        bus_wf(self@)
    }

    /// Assembles the bus around a ROM image, with fresh RAM, an idle DMA
    /// controller and the two ports.
    pub fn new(bios: Bios, gpu: Gpu, spu: Spu) -> (r: Interconnect)
        requires
            bios.wf(),
            gpu.wf(),
        ensures
            r.wf(),
            r@.bios == bios@,
            r@.gpu == gpu@,
            r@.spu == spu@,
            r@.dma == crate::dma::dma_power_on(),
            forall|i: int| 0 <= i < RAM_SIZE ==> r@.ram[i] == crate::ram::RAM_FILL,
    {
        Interconnect { bios, ram: Ram::new(), dma: Dma::new(), gpu, spu }
    }

    /// 32-bit load from any bus address.
    pub fn load32(&self, addr: u32) -> (r: Result<u32, Fault>)
        requires
            self.wf(),
        ensures
            r == spec_load32(self@, addr),
    {
        if addr % 4 != 0 {
            return Err(Fault::UnalignedAccess(addr));
        }
        let abs_addr = mask_region(addr);
        proof {
            lemma_mask_keeps_alignment(addr);
        }
        if let Some(offset) = Range(BIOS_BASE, BIOS_LEN).contains(abs_addr) {
            proof {
                lemma_aligned_word_offset(abs_addr, BIOS_BASE, BIOS_LEN);
            }
            return Ok(self.bios.load32(offset));
        }
        if let Some(offset) = Range(RAM_BASE, RAM_LEN).contains(abs_addr) {
            proof {
                lemma_aligned_word_offset(abs_addr, RAM_BASE, RAM_LEN);
            }
            return Ok(self.ram.load32(offset));
        }
        if let Some(_offset) = Range(IRQ_CONTROL_BASE, IRQ_CONTROL_LEN).contains(abs_addr) {
            return Ok(0);
        }
        if let Some(offset) = Range(DMA_BASE, DMA_LEN).contains(abs_addr) {
            return self.dma_reg(offset);
        }
        if let Some(offset) = Range(GPU_BASE, GPU_LEN).contains(abs_addr) {
            return if offset == 0 {
                Ok(self.gpu.read())
            } else if offset == 4 {
                Ok(self.gpu.status())
            } else {
                Err(Fault::UnhandledGpuAccess(offset))
            };
        }
        if let Some(_offset) = Range(TIMERS_BASE, TIMERS_LEN).contains(abs_addr) {
            return Ok(0);
        }
        Err(Fault::UnmappedLoad(addr))
    }

    /// DMA register read.
    fn dma_reg(&self, offset: u32) -> (r: Result<u32, Fault>)
        requires
            self.wf(),
        ensures
            r == spec_dma_reg(self@.dma, offset),
    {
        proof {
            lemma_dma_major_bound(offset);
        }
        let major = (offset & 0x70) >> 4;
        let minor = offset & 0x0F;
        if major <= 6 {
            let channel = self.dma.channel(Port::from_index(major));
            if minor == 8 {
                Ok(channel.control())
            } else {
                Err(Fault::UnhandledDmaRead(offset))
            }
        } else {
            if minor == 0 {
                Ok(self.dma.control())
            } else if minor == 4 {
                Ok(self.dma.interrupt())
            } else {
                Err(Fault::UnhandledDmaRead(offset))
            }
        }
    }

    /// 16-bit load from any bus address.
    pub fn load16(&self, addr: u32) -> (r: Result<u16, Fault>)
        requires
            self.wf(),
        ensures
            r == spec_load16(self@, addr),
    {
        if addr % 2 != 0 {
            return Err(Fault::UnalignedAccess(addr));
        }
        let abs_addr = mask_region(addr);
        proof {
            lemma_mask_keeps_alignment(addr);
        }
        if let Some(offset) = Range(SPU_BASE, SPU_LEN).contains(abs_addr) {
            return Ok(self.spu.load(offset));
        }
        if let Some(offset) = Range(RAM_BASE, RAM_LEN).contains(abs_addr) {
            proof {
                lemma_aligned_half_offset(abs_addr, RAM_BASE, RAM_LEN);
            }
            return Ok(self.ram.load16(offset));
        }
        if let Some(_offset) = Range(IRQ_CONTROL_BASE, IRQ_CONTROL_LEN).contains(abs_addr) {
            return Ok(0);
        }
        Err(Fault::UnmappedLoad(addr))
    }

    /// Byte load from any bus address.
    pub fn load8(&self, addr: u32) -> (r: Result<u8, Fault>)
        requires
            self.wf(),
        ensures
            r == spec_load8(self@, addr),
    {
        let abs_addr = mask_region(addr);
        if let Some(offset) = Range(BIOS_BASE, BIOS_LEN).contains(abs_addr) {
            return Ok(self.bios.load8(offset));
        }
        if let Some(offset) = Range(RAM_BASE, RAM_LEN).contains(abs_addr) {
            return Ok(self.ram.load8(offset));
        }
        if let Some(_offset) = Range(EXPANSION_1_BASE, EXPANSION_1_LEN).contains(abs_addr) {
            return Ok(0xFF);
        }
        Err(Fault::UnmappedLoad(addr))
    }

    /// 32-bit store to any bus address; a store that makes a DMA channel
    /// active runs the whole transfer before returning.  On a fault the
    /// machine stops, so only the fault value is promised then.
    pub fn store32(&mut self, addr: u32, val: u32) -> (r: Result<(), Fault>)
        requires
            old(self).wf(),
        ensures
            final(self).wf(),
            match spec_store32(old(self)@, addr, val) {
                Ok(b2) => r is Ok && final(self)@ == b2,
                Err(f) => r == Err::<(), Fault>(f),
            },
    {
        if addr % 4 != 0 {
            return Err(Fault::UnalignedAccess(addr));
        }
        let abs_addr = mask_region(addr);
        proof {
            lemma_mask_keeps_alignment(addr);
        }
        if let Some(offset) = Range(MEM_CONTROL_BASE, MEM_CONTROL_LEN).contains(abs_addr) {
            return if offset == 0 {
                if val == 0x1F00_0000 {
                    Ok(())
                } else {
                    Err(Fault::BadExpansionBase(val))
                }
            } else if offset == 4 {
                if val == 0x1F80_2000 {
                    Ok(())
                } else {
                    Err(Fault::BadExpansionBase(val))
                }
            } else {
                Ok(())
            };
        }
        if let Some(_offset) = Range(RAM_SIZE_BASE, RAM_SIZE_LEN).contains(abs_addr) {
            return Ok(());
        }
        if let Some(_offset) = Range(CACHE_CONTROL_BASE, CACHE_CONTROL_LEN).contains(abs_addr) {
            return Ok(());
        }
        if let Some(offset) = Range(RAM_BASE, RAM_LEN).contains(abs_addr) {
            proof {
                lemma_aligned_word_offset(abs_addr, RAM_BASE, RAM_LEN);
            }
            self.ram.store32(offset, val);
            proof {
                assert(self@ =~= (BusV {
                    ram: store_word(old(self)@.ram, offset as int, val),
                    ..old(self)@
                }));
            }
            return Ok(());
        }
        if let Some(_offset) = Range(IRQ_CONTROL_BASE, IRQ_CONTROL_LEN).contains(abs_addr) {
            return Ok(());
        }
        if let Some(offset) = Range(DMA_BASE, DMA_LEN).contains(abs_addr) {
            return self.set_dma_reg(offset, val);
        }
        if let Some(offset) = Range(GPU_BASE, GPU_LEN).contains(abs_addr) {
            if offset == 0 {
                let pushed = self.gpu.gp0(val);
                if let Err(f) = pushed {
                    return Err(f);
                }
                proof {
                    assert(self@ =~= (BusV { gpu: self.gpu@, ..old(self)@ }));
                }
                return Ok(());
            } else if offset == 4 {
                let handled = self.gpu.gp1(val);
                if let Err(f) = handled {
                    return Err(f);
                }
                proof {
                    assert(self@ =~= (BusV { gpu: self.gpu@, ..old(self)@ }));
                }
                return Ok(());
            } else {
                return Err(Fault::UnhandledGpuAccess(offset));
            }
        }
        if let Some(_offset) = Range(TIMERS_BASE, TIMERS_LEN).contains(abs_addr) {
            return Ok(());
        }
        Err(Fault::UnmappedStore(addr))
    }

    /// 16-bit store to any bus address.
    pub fn store16(&mut self, addr: u32, val: u16) -> (r: Result<(), Fault>)
        requires
            old(self).wf(),
        ensures
            final(self).wf(),
            match spec_store16(old(self)@, addr, val) {
                Ok(b2) => r is Ok && final(self)@ == b2,
                Err(f) => r == Err::<(), Fault>(f) && final(self)@ == old(self)@,
            },
    {
        if addr % 2 != 0 {
            return Err(Fault::UnalignedAccess(addr));
        }
        let abs_addr = mask_region(addr);
        proof {
            lemma_mask_keeps_alignment(addr);
        }
        if let Some(offset) = Range(RAM_BASE, RAM_LEN).contains(abs_addr) {
            proof {
                lemma_aligned_half_offset(abs_addr, RAM_BASE, RAM_LEN);
            }
            self.ram.store16(offset, val);
            proof {
                assert(self@ =~= (BusV {
                    ram: store_half(old(self)@.ram, offset as int, val),
                    ..old(self)@
                }));
            }
            return Ok(());
        }
        if let Some(offset) = Range(SPU_BASE, SPU_LEN).contains(abs_addr) {
            self.spu.store(offset, val);
            proof {
                assert(self@ =~= (BusV { spu: old(self)@.spu.push((offset, val)), ..old(self)@ }));
            }
            return Ok(());
        }
        if let Some(_offset) = Range(TIMERS_BASE, TIMERS_LEN).contains(abs_addr) {
            return Ok(());
        }
        if let Some(_offset) = Range(IRQ_CONTROL_BASE, IRQ_CONTROL_LEN).contains(abs_addr) {
            return Ok(());
        }
        Err(Fault::UnmappedStore(addr))
    }

    /// Byte store to any bus address.
    pub fn store8(&mut self, addr: u32, val: u8) -> (r: Result<(), Fault>)
        requires
            old(self).wf(),
        ensures
            final(self).wf(),
            match spec_store8(old(self)@, addr, val) {
                Ok(b2) => r is Ok && final(self)@ == b2,
                Err(f) => r == Err::<(), Fault>(f) && final(self)@ == old(self)@,
            },
    {
        let abs_addr = mask_region(addr);
        if let Some(_offset) = Range(EXPANSION_2_BASE, EXPANSION_2_LEN).contains(abs_addr) {
            return Ok(());
        }
        if let Some(offset) = Range(RAM_BASE, RAM_LEN).contains(abs_addr) {
            self.ram.store8(offset, val);
            proof {
                assert(self@ =~= (BusV {
                    ram: old(self)@.ram.update(offset as int, val),
                    ..old(self)@
                }));
            }
            return Ok(());
        }
        Err(Fault::UnmappedStore(addr))
    }

    /// DMA register write; a write that leaves the channel active runs the
    /// transfer to completion before returning.
    fn set_dma_reg(&mut self, offset: u32, val: u32) -> (r: Result<(), Fault>)
        requires
            old(self).wf(),
        ensures
            final(self).wf(),
            match spec_set_dma_reg(old(self)@, offset, val) {
                Ok(b2) => r is Ok && final(self)@ == b2,
                Err(f) => r == Err::<(), Fault>(f),
            },
    {
        proof {
            lemma_dma_major_bound(offset);
        }
        let major = (offset & 0x70) >> 4;
        let minor = offset & 0x0F;
        if major <= 6 {
            let port = Port::from_index(major);
            let active: bool;
            {
                let channel = self.dma.channel_mut(port);
                if minor == 0 {
                    channel.set_base(val);
                } else if minor == 4 {
                    channel.set_block_control(val);
                } else if minor == 8 {
                    let set = channel.set_control(val);
                    if let Err(f) = set {
                        return Err(f);
                    }
                } else {
                    return Err(Fault::UnhandledDmaWrite(offset));
                }
                active = channel.active();
            }
            proof {
                assert(self@ =~= (BusV {
                    dma: DmaV {
                        channels: old(self)@.dma.channels.update(
                            major as int,
                            self@.dma.channels[major as int],
                        ),
                        ..old(self)@.dma
                    },
                    ..old(self)@
                }));
            }
            if active {
                self.do_dma(port)
            } else {
                Ok(())
            }
        } else {
            if minor == 0 {
                self.dma.set_control(val);
                proof {
                    assert(self@ =~= (BusV {
                        dma: DmaV { control: val, ..old(self)@.dma },
                        ..old(self)@
                    }));
                }
                Ok(())
            } else if minor == 4 {
                self.dma.set_interrupt(val);
                proof {
                    assert(self@ =~= (BusV {
                        dma: spec_set_interrupt(old(self)@.dma, val),
                        ..old(self)@
                    }));
                }
                Ok(())
            } else {
                Err(Fault::UnhandledDmaWrite(offset))
            }
        }
    }

    /// Runs the transfer an active channel asks for.
    fn do_dma(&mut self, port: Port) -> (r: Result<(), Fault>)
        requires
            old(self).wf(),
        ensures
            final(self).wf(),
            match spec_do_dma(old(self)@, port) {
                Ok(b2) => r is Ok && final(self)@ == b2,
                Err(f) => r == Err::<(), Fault>(f),
            },
    {
        let sync = self.dma.channel(port).sync();
        match sync {
            Sync::LinkedList => self.do_dma_linked_list(port),
            _ => self.do_dma_block(port),
        }
    }

    /// Block and request transfers: a fixed number of words moved between
    /// RAM and the port, the address stepping by four each word.
    #[verifier::loop_isolation(false)]
    fn do_dma_block(&mut self, port: Port) -> (r: Result<(), Fault>)
        requires
            old(self).wf(),
        ensures
            final(self).wf(),
            match spec_dma_block(old(self)@, port) {
                Ok(b2) => r is Ok && final(self)@ == b2,
                Err(f) => r == Err::<(), Fault>(f),
            },
    {
        let ch = *self.dma.channel(port);
        let increment = ch.step();
        let direction = ch.direction();
        let mut addr = ch.base();
        let mut remsz = match ch.transfer_size() {
            Some(n) => n,
            None => {
                return Err(Fault::DmaSizeUnknown);
            },
        };
        while remsz > 0
            invariant
                self.wf(),
                self@.bios == old(self)@.bios,
                self@.dma == old(self)@.dma,
                self@.spu == old(self)@.spu,
                spec_dma_block_loop(
                    self@.ram,
                    self@.gpu,
                    port,
                    direction,
                    increment,
                    addr,
                    remsz,
                ) == spec_dma_block_loop(
                    old(self)@.ram,
                    old(self)@.gpu,
                    port,
                    ch.direction,
                    ch.step,
                    ch.base,
                    spec_transfer_size(ch)->Some_0,
                ),
            decreases remsz,
        {
            let cur_addr = addr & DMA_ADDR_MASK;
            proof {
                lemma_dma_addr_mask(addr);
            }
            match direction {
                Direction::FromRam => {
                    let src_word = self.ram.load32(cur_addr);
                    match port {
                        Port::Gpu => {
                            let pushed = self.gpu.gp0(src_word);
                            if let Err(f) = pushed {
                                return Err(f);
                            }
                        },
                        _ => {
                            return Err(Fault::DmaBadDestination(port_index_exec(port)));
                        },
                    }
                },
                Direction::ToRam => {
                    let src_word: u32 = match port {
                        Port::Otc => {
                            if remsz == 1 {
                                OTC_END_MARKER
                            } else {
                                addr.wrapping_sub(4) & OTC_VALUE_MASK
                            }
                        },
                        _ => {
                            return Err(Fault::DmaBadSource(port_index_exec(port)));
                        },
                    };
                    self.ram.store32(cur_addr, src_word);
                },
            }
            addr = match increment {
                Step::Increment => addr.wrapping_add(4),
                Step::Decrement => addr.wrapping_sub(4),
            };
            remsz = remsz - 1;
        }
        let channel = self.dma.channel_mut(port);
        channel.done();
        proof {
            assert(self@ =~= (BusV {
                ram: self@.ram,
                gpu: self@.gpu,
                dma: spec_dma_done(old(self)@.dma, port),
                ..old(self)@
            }));
            assert(self@.dma =~= spec_dma_done(old(self)@.dma, port));
        }
        Ok(())
    }

    /// One linked-list node's data words pushed into the GPU port, starting
    /// just past the header at `addr`.
    #[verifier::loop_isolation(false)]
    fn run_ll_node(&mut self, addr: u32, remsz: u32) -> (r: Result<(), Fault>)
        requires
            old(self).wf(),
        ensures
            final(self).wf(),
            final(self)@.bios == old(self)@.bios,
            final(self)@.dma == old(self)@.dma,
            final(self)@.spu == old(self)@.spu,
            final(self)@.ram == old(self)@.ram,
            match spec_dma_ll_node(old(self)@.ram, old(self)@.gpu, addr, remsz) {
                Ok((g2, _end)) => r is Ok && final(self)@.gpu == g2,
                Err(f) => r == Err::<(), Fault>(f),
            },
    {
        let mut cur = addr;
        let mut rem = remsz;
        while rem > 0
            invariant
                self.wf(),
                self@.bios == old(self)@.bios,
                self@.dma == old(self)@.dma,
                self@.spu == old(self)@.spu,
                self@.ram == old(self)@.ram,
                spec_dma_ll_node(self@.ram, self@.gpu, cur, rem) == spec_dma_ll_node(
                    old(self)@.ram,
                    old(self)@.gpu,
                    addr,
                    remsz,
                ),
            decreases rem,
        {
            let stepped = cur.wrapping_add(4);
            proof {
                lemma_dma_addr_mask(stepped);
            }
            cur = stepped & DMA_ADDR_MASK;
            let command = self.ram.load32(cur);
            let pushed = self.gpu.gp0(command);
            if let Err(f) = pushed {
                return Err(f);
            }
            rem = rem - 1;
        }
        Ok(())
    }

    /// Linked-list transfers: walks the chained nodes, pushing each node's
    /// words into the GPU port, until the terminal header or the node budget
    /// runs out.
    #[verifier::loop_isolation(false)]
    fn do_dma_linked_list(&mut self, port: Port) -> (r: Result<(), Fault>)
        requires
            old(self).wf(),
        ensures
            final(self).wf(),
            match spec_dma_linked_list(old(self)@, port) {
                Ok(b2) => r is Ok && final(self)@ == b2,
                Err(f) => r == Err::<(), Fault>(f),
            },
    {
        let ch = *self.dma.channel(port);
        let mut addr = ch.base() & DMA_ADDR_MASK;
        if ch.direction() == Direction::ToRam {
            return Err(Fault::DmaListToRam);
        }
        match port {
            Port::Gpu => {},
            _ => {
                return Err(Fault::DmaListBadPort(port_index_exec(port)));
            },
        }
        proof {
            lemma_dma_addr_mask(ch.base);
        }
        let mut fuel: u32 = LINKED_LIST_MAX_NODES;
        let mut finished = false;
        while !finished
            invariant
                self.wf(),
                self@.bios == old(self)@.bios,
                self@.dma == old(self)@.dma,
                self@.spu == old(self)@.spu,
                self@.ram == old(self)@.ram,
                addr % 4 == 0,
                addr + 4 <= RAM_SIZE,
                !finished ==> spec_dma_ll_loop(self@.ram, self@.gpu, addr, fuel)
                    == spec_dma_ll_loop(
                    old(self)@.ram,
                    old(self)@.gpu,
                    ch.base & DMA_ADDR_MASK,
                    LINKED_LIST_MAX_NODES,
                ),
                finished ==> spec_dma_ll_loop(
                    old(self)@.ram,
                    old(self)@.gpu,
                    ch.base & DMA_ADDR_MASK,
                    LINKED_LIST_MAX_NODES,
                ) == Ok::<GpuV, Fault>(self@.gpu),
            decreases fuel, (if finished {
                0int
            } else {
                1int
            }),
        {
            if fuel == 0 {
                return Err(Fault::DmaListTooLong);
            }
            let header = self.ram.load32(addr);
            let walked = self.run_ll_node(addr, header >> 24);
            if let Err(f) = walked {
                return Err(f);
            }
            if header & 0x0080_0000 != 0 {
                finished = true;
            } else {
                addr = header & DMA_ADDR_MASK;
                proof {
                    lemma_dma_addr_mask(header);
                }
                fuel = fuel - 1;
            }
        }
        let channel = self.dma.channel_mut(port);
        channel.done();
        proof {
            assert(self@.dma =~= spec_dma_done(old(self)@.dma, port));
            assert(self@ =~= (BusV {
                gpu: self@.gpu,
                dma: spec_dma_done(old(self)@.dma, port),
                ..old(self)@
            }));
        }
        Ok(())
    }
}

/// A word stored through the bus into RAM reads back identically through
/// the bus at the same aligned address.
pub proof fn lemma_word_roundtrip_bus(b: BusV, addr: u32, v: u32)
    requires
        bus_wf(b),
        addr % 4 == 0,
        spec_contains(Range(RAM_BASE, RAM_LEN), spec_mask_region(addr)) is Some,
    ensures
        spec_store32(b, addr, v) is Ok,
        spec_load32(spec_store32(b, addr, v)->Ok_0, addr) == Ok::<u32, Fault>(v),
{
    lemma_mask_keeps_alignment(addr);
    let a = spec_mask_region(addr);
    lemma_aligned_word_offset(a, RAM_BASE, RAM_LEN);
    crate::ram::lemma_word_roundtrip(b.ram, a as int, v);
}

/// A halfword stored through the bus into RAM reads back identically
/// through the bus at the same aligned address; the CPU's sign-extending
/// halfword load then sees exactly the sign extension of the stored value.
pub proof fn lemma_half_roundtrip_bus(b: BusV, addr: u32, v: u16)
    requires
        bus_wf(b),
        addr % 2 == 0,
        spec_contains(Range(RAM_BASE, RAM_LEN), spec_mask_region(addr)) is Some,
    ensures
        spec_store16(b, addr, v) is Ok,
        spec_load16(spec_store16(b, addr, v)->Ok_0, addr) == Ok::<u16, Fault>(v),
{
    lemma_mask_keeps_alignment(addr);
    let a = spec_mask_region(addr);
    lemma_aligned_half_offset(a, RAM_BASE, RAM_LEN);
    crate::ram::lemma_half_roundtrip(b.ram, a as int, v);
}

/// A byte stored through the bus into RAM reads back identically through
/// the bus at the same address; the CPU's sign-extending byte load then
/// sees exactly the sign extension of the stored value.
pub proof fn lemma_byte_roundtrip_bus(b: BusV, addr: u32, v: u8)
    requires
        bus_wf(b),
        spec_contains(Range(RAM_BASE, RAM_LEN), spec_mask_region(addr)) is Some,
    ensures
        spec_store8(b, addr, v) is Ok,
        spec_load8(spec_store8(b, addr, v)->Ok_0, addr) == Ok::<u8, Fault>(v),
{
}

/// The word address the ordering-table transfer visits at its `i`-th step:
/// the base, stepped down or up by four each word.
pub open spec fn otc_addr(base: u32, i: u32, step: Step) -> u32 {
    match step {
        Step::Increment => base.wrapping_add((4 * i) as u32),
        Step::Decrement => base.wrapping_sub((4 * i) as u32),
    }
}

/// Two distinct steps of a walk shorter than the RAM window land on distinct
/// masked word addresses.
pub proof fn lemma_otc_distinct(a: u32, k: u32, step: Step)
    requires
        1 <= k < 0x0008_0000,
    ensures
        otc_addr(a, k, step) & DMA_ADDR_MASK != a & DMA_ADDR_MASK,
{
    let d = (4 * k) as u32;
    match step {
        Step::Increment => {
            let b = a.wrapping_add(d);
            assert(b & 0x001F_FFFC != a & 0x001F_FFFC) by (bit_vector)
                requires
                    4 <= d <= 0x001F_FFFC && d % 4 == 0 && (a + d == b || a + d == b
                        + 0x1_0000_0000),
            ;
        },
        Step::Decrement => {
            let b = a.wrapping_sub(d);
            assert(b & 0x001F_FFFC != a & 0x001F_FFFC) by (bit_vector)
                requires
                    4 <= d <= 0x001F_FFFC && d % 4 == 0 && (b + d == a || b + d == a
                        + 0x1_0000_0000),
            ;
        },
    }
}

/// Advancing the walk once shifts the visited addresses by one.
pub proof fn lemma_otc_addr_step(base: u32, i: u32, step: Step)
    requires
        i < 0x0008_0000,
    ensures
        otc_addr(
            match step {
                Step::Increment => base.wrapping_add(4),
                Step::Decrement => base.wrapping_sub(4),
            },
            i,
            step,
        ) == otc_addr(base, (i + 1) as u32, step),
{
}

/// The ordering-table initialization pattern: a to-RAM block transfer on
/// the ordering-table port, stepping the address down or up from the base,
/// writes at every visited word the masked address of the word four below
/// it, and at the last visited word the end marker.  The GPU is untouched.
/// Every other byte of RAM is either untouched or part of one of the
/// visited words.  A transfer longer than the RAM window holds words would
/// wrap and overwrite its own earlier words, so the claim is bounded by
/// that length.
pub proof fn lemma_otc_block_pattern(ram: Seq<u8>, gpu: GpuV, addr: u32, n: u32, step: Step)
    requires
        ram.len() == RAM_SIZE,
        1 <= n <= 0x0008_0000,
    ensures
        ({
            let r = spec_dma_block_loop(ram, gpu, Port::Otc, Direction::ToRam, step, addr, n);
            &&& r is Ok
            &&& (r->Ok_0).1 == gpu
            &&& (r->Ok_0).0.len() == ram.len()
            &&& forall|i: u32|
                i < n ==> word_at(
                    (r->Ok_0).0,
                    (#[trigger] otc_addr(addr, i, step) & DMA_ADDR_MASK) as int,
                ) == (if i == n - 1 {
                    OTC_END_MARKER
                } else {
                    otc_addr(addr, i, step).wrapping_sub(4) & OTC_VALUE_MASK
                })
            &&& forall|p: int|
                0 <= p < ram.len() && (forall|i: u32|
                    i < n ==> !((#[trigger] otc_addr(addr, i, step) & DMA_ADDR_MASK) <= p < (
                    otc_addr(addr, i, step) & DMA_ADDR_MASK) + 4)) ==> (r->Ok_0).0[p] == ram[p]
        }),
    decreases n,
{
    lemma_dma_addr_mask(addr);
    let cur = addr & DMA_ADDR_MASK;
    let w0: u32 = if n == 1 {
        OTC_END_MARKER
    } else {
        addr.wrapping_sub(4) & OTC_VALUE_MASK
    };
    let ram1 = store_word(ram, cur as int, w0);
    crate::ram::lemma_word_roundtrip(ram, cur as int, w0);
    assert(otc_addr(addr, 0, step) == addr);
    let next = match step {
        Step::Increment => addr.wrapping_add(4),
        Step::Decrement => addr.wrapping_sub(4),
    };
    if n == 1 {
        assert(spec_dma_block_loop(ram1, gpu, Port::Otc, Direction::ToRam, step, next, 0)
            == Ok::<(Seq<u8>, GpuV), Fault>((ram1, gpu)));
    } else {
        lemma_otc_block_pattern(ram1, gpu, next, (n - 1) as u32, step);
        let r1 = spec_dma_block_loop(
            ram1,
            gpu,
            Port::Otc,
            Direction::ToRam,
            step,
            next,
            (n - 1) as u32,
        );
        let fin = (r1->Ok_0).0;
        assert forall|i: u32| 1 <= i < n implies otc_addr(addr, i, step) == otc_addr(
            next,
            (i - 1) as u32,
            step,
        ) by {
            lemma_otc_addr_step(addr, (i - 1) as u32, step);
        }
        // The word written first is never revisited: every later step lands
        // on a different masked address, so its bytes survive to the end.
        assert forall|i: u32| 1 <= i < n implies otc_addr(addr, i, step) & DMA_ADDR_MASK != cur by {
            lemma_otc_distinct(addr, i, step);
        }
        assert forall|p: int| cur <= p < cur + 4 implies fin[p] == ram1[p] by {
            assert forall|j: u32| j < n - 1 implies !(((#[trigger] otc_addr(next, j, step))
                & DMA_ADDR_MASK) <= p < (otc_addr(next, j, step) & DMA_ADDR_MASK) + 4) by {
                lemma_otc_addr_step(addr, j, step);
                lemma_otc_distinct(addr, (j + 1) as u32, step);
                lemma_dma_addr_mask(otc_addr(next, j, step));
            }
        }
        assert(word_at(fin, cur as int) == word_at(ram1, cur as int));
        assert forall|i: u32| i < n implies word_at(
            fin,
            (otc_addr(addr, i, step) & DMA_ADDR_MASK) as int,
        ) == (if i == n - 1 {
            OTC_END_MARKER
        } else {
            otc_addr(addr, i, step).wrapping_sub(4) & OTC_VALUE_MASK
        }) by {
            if i == 0 {
            } else {
                lemma_otc_addr_step(addr, (i - 1) as u32, step);
            }
        }
        assert forall|p: int|
            0 <= p < ram.len() && (forall|i: u32|
                i < n ==> !((#[trigger] otc_addr(addr, i, step) & DMA_ADDR_MASK) <= p < (otc_addr(
                    addr,
                    i,
                    step,
                ) & DMA_ADDR_MASK) + 4)) implies fin[p] == ram[p] by {
            assert(!((otc_addr(addr, 0, step) & DMA_ADDR_MASK) <= p < (otc_addr(addr, 0, step)
                & DMA_ADDR_MASK) + 4));
            assert(ram1[p] == ram[p]);
            assert forall|j: u32| j < n - 1 implies !(((#[trigger] otc_addr(next, j, step))
                & DMA_ADDR_MASK) <= p < (otc_addr(next, j, step) & DMA_ADDR_MASK) + 4) by {
                lemma_otc_addr_step(addr, j, step);
                assert(!((otc_addr(addr, (j + 1) as u32, step) & DMA_ADDR_MASK) <= p < (otc_addr(
                    addr,
                    (j + 1) as u32,
                    step,
                ) & DMA_ADDR_MASK) + 4));
            }
            assert(fin[p] == ram1[p]);
        }
    }
}

/// The words a from-RAM block hands to the GPU port: one word per step,
/// read at the masked address, ascending when the step increments.
pub open spec fn gpu_block_words(ram: Seq<u8>, addr: u32, n: u32) -> Seq<u32>
    decreases n,
{
    if n == 0 {
        Seq::empty()
    } else {
        seq![word_at(ram, (addr & DMA_ADDR_MASK) as int)] + gpu_block_words(
            ram,
            addr.wrapping_add(4),
            (n - 1) as u32,
        )
    }
}

/// A from-RAM block transfer on the GPU port that runs to completion hands
/// exactly the block's words to the command stream, in address order, and
/// leaves RAM untouched.
pub proof fn lemma_gpu_block_stream(ram: Seq<u8>, gpu: GpuV, addr: u32, n: u32)
    requires
        ram.len() == RAM_SIZE,
    ensures
        ({
            let r = spec_dma_block_loop(
                ram,
                gpu,
                Port::Gpu,
                Direction::FromRam,
                Step::Increment,
                addr,
                n,
            );
            r is Ok ==> (r->Ok_0).0 == ram && (r->Ok_0).1.words == gpu.words + gpu_block_words(
                ram,
                addr,
                n,
            )
        }),
    decreases n,
{
    let r = spec_dma_block_loop(ram, gpu, Port::Gpu, Direction::FromRam, Step::Increment, addr, n);
    if n == 0 {
        assert(gpu.words + gpu_block_words(ram, addr, 0) =~= gpu.words);
    } else {
        let w = word_at(ram, (addr & DMA_ADDR_MASK) as int);
        if spec_gp0(gpu, w) is Ok {
            let g2 = spec_gp0(gpu, w)->Ok_0;
            assert(g2.words == gpu.words.push(w));
            lemma_gpu_block_stream(ram, g2, addr.wrapping_add(4), (n - 1) as u32);
            if r is Ok {
                assert(gpu.words + gpu_block_words(ram, addr, n) =~= gpu.words.push(w)
                    + gpu_block_words(ram, addr.wrapping_add(4), (n - 1) as u32));
            }
        }
    }
}

/// The whole ordering-table transfer: a to-RAM transfer on the
/// ordering-table port with a fixed size inside the RAM window writes the
/// backward-list pattern along its walk, in either step direction, and
/// leaves the channel disabled with the GPU untouched.
pub proof fn lemma_otc_dma(b: BusV)
    requires
        bus_wf(b),
        b.dma.channels[port_index(Port::Otc)].direction == Direction::ToRam,
        spec_transfer_size(b.dma.channels[port_index(Port::Otc)]) is Some,
        1 <= spec_transfer_size(b.dma.channels[port_index(Port::Otc)])->Some_0 <= 0x0008_0000,
    ensures
        spec_dma_block(b, Port::Otc) is Ok,
        ({
            let ch = b.dma.channels[port_index(Port::Otc)];
            let n = spec_transfer_size(ch)->Some_0;
            let r = spec_dma_block(b, Port::Otc)->Ok_0;
            &&& r.gpu == b.gpu
            &&& r.dma == spec_dma_done(b.dma, Port::Otc)
            &&& !r.dma.channels[port_index(Port::Otc)].enable
            &&& !r.dma.channels[port_index(Port::Otc)].trigger
            &&& forall|i: u32|
                i < n ==> word_at(
                    r.ram,
                    (#[trigger] otc_addr(ch.base, i, ch.step) & DMA_ADDR_MASK) as int,
                ) == (if i == n - 1 {
                    OTC_END_MARKER
                } else {
                    otc_addr(ch.base, i, ch.step).wrapping_sub(4) & OTC_VALUE_MASK
                })
        }),
{
    let ch = b.dma.channels[port_index(Port::Otc)];
    lemma_otc_block_pattern(
        b.ram,
        b.gpu,
        ch.base,
        spec_transfer_size(ch)->Some_0,
        ch.step,
    );
}

/// The channel index a port occupies, as the fault payloads carry it.
fn port_index_exec(port: Port) -> (r: u32)
    ensures
        r == port_index(port) as u32,
{
    match port {
        Port::MdecIn => 0,
        Port::MdecOut => 1,
        Port::Gpu => 2,
        Port::CdRom => 3,
        Port::Spu => 4,
        Port::Pio => 5,
        Port::Otc => 6,
    }
}

} // verus!
