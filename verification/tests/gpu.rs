use psx_core::fault::Fault;
use psx_core::gpu::Gpu;

#[test]
fn status_at_power_on() {
    let gpu = Gpu::new();
    // Top field, display disabled, the three ready bits, everything else off.
    assert_eq!(
        gpu.status(),
        (1 << 13) | (1 << 23) | (1 << 26) | (1 << 27) | (1 << 28)
    );
    assert_eq!(gpu.read(), 0);
}

#[test]
fn gp0_draw_mode_updates_status() {
    let mut gpu = Gpu::new();
    gpu.gp0(0xE100_0005).unwrap();
    assert_eq!(
        gpu.status(),
        5 | (1 << 13) | (1 << 23) | (1 << 26) | (1 << 27) | (1 << 28)
    );
}

#[test]
fn gp0_unknown_opcode_faults() {
    let mut gpu = Gpu::new();
    assert_eq!(gpu.gp0(0x7F00_0000), Err(Fault::UnhandledGp0(0x7F00_0000)));
}

#[test]
fn gp0_reserved_texture_depth_faults() {
    let mut gpu = Gpu::new();
    assert_eq!(
        gpu.gp0(0xE100_0000 | (3 << 7)),
        Err(Fault::UnhandledTextureDepth(3))
    );
}

#[test]
fn gp0_quad_consumes_five_words() {
    let mut gpu = Gpu::new();
    let before = gpu.status();
    gpu.gp0(0x2800_0000).unwrap();
    // The next four words are vertices, not new commands, so an opcode-like
    // word in them must not fault.
    gpu.gp0(0x7F00_0000).unwrap();
    gpu.gp0(0x0001_0001).unwrap();
    gpu.gp0(0x0002_0002).unwrap();
    gpu.gp0(0x0003_0003).unwrap();
    assert_eq!(gpu.status(), before);
    assert_eq!(gpu.gp0_words().len(), 5);
    // The port is back to expecting a command.
    assert_eq!(gpu.gp0(0x7F00_0000), Err(Fault::UnhandledGp0(0x7F00_0000)));
}

#[test]
fn gp1_display_mode_and_reset() {
    let mut gpu = Gpu::new();
    // 368-wide mode: hr2 set, 480 lines, PAL, 15-bit depth, interlaced.
    gpu.gp1(0x0800_0000 | 0x40 | 0x04 | 0x08 | 0x10 | 0x20).unwrap();
    let s = gpu.status();
    assert_eq!((s >> 16) & 7, 1); // horizontal resolution field
    assert_eq!((s >> 20) & 1, 1); // PAL
    assert_eq!((s >> 21) & 1, 0); // 15-bit display depth
    assert_eq!((s >> 22) & 1, 1); // interlaced
    // Reset restores the power-on drawing state but flags interlace.
    gpu.gp1(0x0000_0000).unwrap();
    let s = gpu.status();
    assert_eq!(s & 0xFFFF, 1 << 13);
    assert_eq!((s >> 22) & 1, 1);
    assert_eq!((s >> 23) & 1, 1);
}

#[test]
fn gp1_unknown_opcode_and_reserved_mode_fault() {
    let mut gpu = Gpu::new();
    assert_eq!(gpu.gp1(0x7F00_0000), Err(Fault::UnhandledGp1(0x7F00_0000)));
    assert_eq!(
        gpu.gp1(0x0800_0080),
        Err(Fault::UnsupportedDisplayMode(0x0800_0080))
    );
}

#[test]
fn gp0_word_stream_drains() {
    let mut gpu = Gpu::new();
    gpu.gp0(0x0000_0000).unwrap();
    gpu.gp0(0x0100_0000).unwrap();
    let drained = gpu.drain_gp0_words();
    assert_eq!(drained, vec![0x0000_0000, 0x0100_0000]);
    assert!(gpu.gp0_words().is_empty());
}

#[test]
fn gp1_dma_direction_reports_request() {
    let mut gpu = Gpu::new();
    // Fifo direction raises the DMA request bit.
    gpu.gp1(0x0400_0001).unwrap();
    let s = gpu.status();
    assert_eq!((s >> 29) & 3, 1);
    assert_eq!((s >> 25) & 1, 1);
    gpu.gp1(0x0400_0000).unwrap();
    assert_eq!((gpu.status() >> 25) & 1, 0);
}
