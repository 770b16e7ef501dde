use psx_core::bios::Bios;
use psx_core::fault::Fault;
use psx_core::gpu::Gpu;
use psx_core::instruction::Instruction;
use psx_core::interconnect::Interconnect;
use psx_core::map::{mask_region, Range};
use psx_core::ram::Ram;
use psx_core::spu::Spu;

fn machine() -> Interconnect {
    let bios = Bios::new(vec![0u8; 512 * 1024]).unwrap();
    Interconnect::new(bios, Gpu::new(), Spu::new())
}

#[test]
fn region_mask_aliases_ram() {
    // The three segments alias the same physical RAM word.
    assert_eq!(mask_region(0xA000_0000), 0x0000_0000);
    assert_eq!(mask_region(0x8000_0000), 0x0000_0000);
    assert_eq!(mask_region(0x0000_0000), 0x0000_0000);
    let ram = Range(0x0000_0000, 2 * 1024 * 1024);
    assert_eq!(ram.contains(mask_region(0xA000_0000)), Some(0));
    assert_eq!(ram.contains(mask_region(0x8000_0000)), Some(0));
    assert_eq!(ram.contains(mask_region(0x0000_0000)), Some(0));
    assert_eq!(
        ram.contains(mask_region(0xA000_1234)),
        ram.contains(mask_region(0x8000_1234))
    );
}

#[test]
fn region_mask_resolves_rom() {
    let bios = Range(0x1FC0_0000, 512 * 1024);
    assert_eq!(bios.contains(mask_region(0xBFC0_0000)), Some(0));
    assert_eq!(bios.contains(mask_region(0x9FC0_0004)), Some(4));
}

#[test]
fn range_contains_bounds() {
    let r = Range(0x100, 0x10);
    assert_eq!(r.contains(0xFF), None);
    assert_eq!(r.contains(0x100), Some(0));
    assert_eq!(r.contains(0x10F), Some(0xF));
    assert_eq!(r.contains(0x110), None);
}

#[test]
fn instruction_fields() {
    let i = Instruction(0xAC01_0100);
    assert_eq!(i.function(), 0x2B);
    assert_eq!(i.s(), 0);
    assert_eq!(i.t(), 1);
    assert_eq!(i.imm(), 0x100);
    let j = Instruction(0x0086_001A);
    assert_eq!(j.function(), 0);
    assert_eq!(j.subfunction(), 0x1A);
    assert_eq!(j.s(), 4);
    assert_eq!(j.t(), 6);
    let k = Instruction(0x2405_FFF9);
    assert_eq!(k.imm_se(), 0xFFFF_FFF9);
    assert_eq!(Instruction(0x2405_7FF9).imm_se(), 0x0000_7FF9);
}

#[test]
fn ram_word_roundtrip_little_endian() {
    let mut ram = Ram::new();
    ram.store32(0x100, 0x1234_5678);
    assert_eq!(ram.load32(0x100), 0x1234_5678);
    assert_eq!(ram.load8(0x100), 0x78);
    assert_eq!(ram.load8(0x101), 0x56);
    assert_eq!(ram.load8(0x102), 0x34);
    assert_eq!(ram.load8(0x103), 0x12);
    ram.store16(0x200, 0xBEEF);
    assert_eq!(ram.load16(0x200), 0xBEEF);
    assert_eq!(ram.load8(0x200), 0xEF);
    ram.store8(0x300, 0xA5);
    assert_eq!(ram.load8(0x300), 0xA5);
}

#[test]
fn bios_requires_exact_size() {
    assert!(Bios::new(vec![0u8; 512 * 1024]).is_some());
    assert!(Bios::new(vec![0u8; 512 * 1024 - 1]).is_none());
    assert!(Bios::new(vec![0u8; 512 * 1024 + 1]).is_none());
    assert!(Bios::new(Vec::new()).is_none());
}

#[test]
fn bios_little_endian() {
    let mut data = vec![0u8; 512 * 1024];
    data[0] = 0x78;
    data[1] = 0x56;
    data[2] = 0x34;
    data[3] = 0x12;
    let bios = Bios::new(data).unwrap();
    assert_eq!(bios.load32(0), 0x1234_5678);
    assert_eq!(bios.load8(1), 0x56);
}

#[test]
fn bus_word_roundtrip_across_aliases() {
    // Stored through one segment, read back through another: same RAM cell.
    let mut m = machine();
    m.store32(0x8000_0100, 0xCAFE_BABE).unwrap();
    assert_eq!(m.load32(0xA000_0100), Ok(0xCAFE_BABE));
    assert_eq!(m.load32(0x0000_0100), Ok(0xCAFE_BABE));
}

#[test]
fn bus_half_and_byte_roundtrip() {
    let mut m = machine();
    m.store16(0x0000_0200, 0x8001).unwrap();
    assert_eq!(m.load16(0x0000_0200), Ok(0x8001));
    m.store8(0x0000_0300, 0x80).unwrap();
    assert_eq!(m.load8(0x0000_0300), Ok(0x80));
}

#[test]
fn bus_unaligned_access_faults() {
    let mut m = machine();
    assert_eq!(m.load32(0x0000_0102), Err(Fault::UnalignedAccess(0x102)));
    assert_eq!(m.load16(0x0000_0101), Err(Fault::UnalignedAccess(0x101)));
    assert_eq!(
        m.store32(0x0000_0101, 0),
        Err(Fault::UnalignedAccess(0x101))
    );
    assert_eq!(
        m.store16(0x0000_0101, 0),
        Err(Fault::UnalignedAccess(0x101))
    );
}

#[test]
fn bus_unmapped_access_faults() {
    let mut m = machine();
    assert_eq!(m.load32(0x1F00_0000), Err(Fault::UnmappedLoad(0x1F00_0000)));
    assert_eq!(
        m.store8(0x1FC0_0000, 1),
        Err(Fault::UnmappedStore(0x1FC0_0000))
    );
}

#[test]
fn mem_control_checks_fixed_bases() {
    let mut m = machine();
    assert_eq!(m.store32(0x1F80_1000, 0x1F00_0000), Ok(()));
    assert_eq!(m.store32(0x1F80_1004, 0x1F80_2000), Ok(()));
    assert_eq!(
        m.store32(0x1F80_1000, 0x1234_5678),
        Err(Fault::BadExpansionBase(0x1234_5678))
    );
    assert_eq!(
        m.store32(0x1F80_1004, 0),
        Err(Fault::BadExpansionBase(0))
    );
    // The remaining memory-control registers are write sinks.
    assert_eq!(m.store32(0x1F80_1008, 0xDEAD_BEEF), Ok(()));
}

#[test]
fn stub_registers_read_back() {
    let mut m = machine();
    // IRQ control and timers read as zero, expansion 1 reads open-bus bytes.
    assert_eq!(m.load32(0x1F80_1070), Ok(0));
    assert_eq!(m.load32(0x1F80_1100), Ok(0));
    assert_eq!(m.load8(0x1F00_0000), Ok(0xFF));
    // RAM size and cache control are write sinks.
    assert_eq!(m.store32(0x1F80_1060, 0x1234), Ok(()));
    assert_eq!(m.store32(0xFFFE_0130, 0x1234), Ok(()));
}

#[test]
fn spu_port_queues_writes() {
    let mut m = machine();
    assert_eq!(m.load16(0x1F80_1DAC), Ok(0x0004));
    assert_eq!(m.load16(0x1F80_1C00), Ok(0));
    m.store16(0x1F80_1C00, 0x1234).unwrap();
    m.store16(0x1F80_1D80, 0x3FFF).unwrap();
    let writes = m.spu.drain_writes();
    assert_eq!(writes, vec![(0x0000, 0x1234), (0x0180, 0x3FFF)]);
    assert!(m.spu.drain_writes().is_empty());
}

#[test]
fn dma_control_register_resets_and_reads() {
    let mut m = machine();
    assert_eq!(m.load32(0x1F80_10F0), Ok(0x0765_4321));
    m.store32(0x1F80_10F0, 0x1234_5678).unwrap();
    assert_eq!(m.load32(0x1F80_10F0), Ok(0x1234_5678));
}

#[test]
fn dma_interrupt_register_roundtrip() {
    let mut m = machine();
    // Force-IRQ alone drives the master IRQ bit.
    m.store32(0x1F80_10F4, 1 << 15).unwrap();
    let v = m.load32(0x1F80_10F4).unwrap();
    assert_eq!(v & (1 << 15), 1 << 15);
    assert_eq!(v >> 31, 1);
    // Clearing force-IRQ drops the master bit.
    m.store32(0x1F80_10F4, 0).unwrap();
    assert_eq!(m.load32(0x1F80_10F4).unwrap() >> 31, 0);
}

#[test]
fn dma_channel_control_roundtrip() {
    let mut m = machine();
    // Channel 0 control: from-RAM, decrement, chopping, request sync.
    let val = 1 | (1 << 1) | (1 << 8) | (1 << 9) | (3 << 16) | (5 << 20);
    m.store32(0x1F80_1080 + 8, val).unwrap();
    assert_eq!(m.load32(0x1F80_1080 + 8), Ok(val));
}

#[test]
fn dma_reserved_sync_faults() {
    let mut m = machine();
    assert_eq!(
        m.store32(0x1F80_1088, 3 << 9),
        Err(Fault::UnknownDmaSync(3))
    );
}

#[test]
fn dma_gpu_block_copies_words_in_order() {
    // A manual-sync from-RAM transfer on the GPU channel hands exactly the
    // block to the GP0 port, in ascending address order, then idles.
    let mut m = machine();
    for i in 0..4u32 {
        // Each word is a one-word GP0 command the port accepts.
        m.store32(0x1000 + 4 * i, 0x0000_0000 + i % 2).unwrap();
    }
    m.store32(0x1F80_10A0, 0x1000).unwrap(); // base
    m.store32(0x1F80_10A4, 4).unwrap(); // block size 4, count 0
    m.store32(0x1F80_10A8, 0x1100_0001).unwrap(); // enable + trigger, from RAM
    let words = m.gpu.gp0_words();
    assert_eq!(words.as_slice(), &[0, 1, 0, 1]);
    // Enable and trigger fall once the transfer finishes.
    let control = m.load32(0x1F80_10A8).unwrap();
    assert_eq!(control & (1 << 24), 0);
    assert_eq!(control & (1 << 28), 0);
    assert_eq!(control & 1, 1);
}

#[test]
fn dma_otc_builds_backward_list() {
    // An ordering-table clear of size 4 from base 0x2000 writes the
    // backward-linked free list, the last word holding the end marker.
    let mut m = machine();
    m.store32(0x1F80_10E0, 0x2000).unwrap(); // base
    m.store32(0x1F80_10E4, 4).unwrap(); // block size
    m.store32(0x1F80_10E8, 0x1100_0002).unwrap(); // enable + trigger, to RAM, decrement
    assert_eq!(m.load32(0x2000), Ok(0x1FFC));
    assert_eq!(m.load32(0x1FFC), Ok(0x1FF8));
    assert_eq!(m.load32(0x1FF8), Ok(0x1FF4));
    assert_eq!(m.load32(0x1FF4), Ok(0x00FF_FFFF));
    let control = m.load32(0x1F80_10E8).unwrap();
    assert_eq!(control & (1 << 24), 0);
    assert_eq!(control & (1 << 28), 0);
}

#[test]
fn dma_linked_list_walks_nodes() {
    let mut m = machine();
    // Node 1 at 0x3000: one data word, then a link to node 2.
    m.store32(0x3000, (1 << 24) | 0x3100).unwrap();
    m.store32(0x3004, 0xE100_0001).unwrap();
    // Node 2 at 0x3100: two data words, terminal marker in the header.
    m.store32(0x3100, (2 << 24) | 0x00FF_FFFF).unwrap();
    m.store32(0x3104, 0x0000_0000).unwrap();
    m.store32(0x3108, 0xE100_0002).unwrap();
    m.store32(0x1F80_10A0, 0x3000).unwrap(); // base
    m.store32(0x1F80_10A8, 0x0100_0401).unwrap(); // linked list, from RAM, enabled
    let words = m.gpu.gp0_words();
    assert_eq!(words.as_slice(), &[0xE100_0001, 0x0000_0000, 0xE100_0002]);
}

#[test]
fn dma_from_ram_to_non_gpu_port_faults() {
    let mut m = machine();
    m.store32(0x1F80_1080, 0x1000).unwrap(); // channel 0 base
    m.store32(0x1F80_1084, 1).unwrap(); // block size 1
    assert_eq!(
        m.store32(0x1F80_1088, 0x1100_0001),
        Err(Fault::DmaBadDestination(0))
    );
}

#[test]
fn dma_to_ram_from_non_otc_port_faults() {
    let mut m = machine();
    m.store32(0x1F80_1090, 0x1000).unwrap(); // channel 1 base
    m.store32(0x1F80_1094, 1).unwrap();
    assert_eq!(
        m.store32(0x1F80_1098, 0x1100_0000),
        Err(Fault::DmaBadSource(1))
    );
}

#[test]
fn dma_otc_pattern_holds_counting_up() {
    // The ordering-table pattern also holds when the channel steps the
    // address upwards: each word links four below itself, the last visited
    // word carries the end marker.
    let mut m = machine();
    m.store32(0x1F80_10E0, 0x2000).unwrap(); // base
    m.store32(0x1F80_10E4, 3).unwrap(); // block size
    m.store32(0x1F80_10E8, 0x1100_0000).unwrap(); // enable + trigger, to RAM, increment
    assert_eq!(m.load32(0x2000), Ok(0x1FFC));
    assert_eq!(m.load32(0x2004), Ok(0x2000));
    assert_eq!(m.load32(0x2008), Ok(0x00FF_FFFF));
}
