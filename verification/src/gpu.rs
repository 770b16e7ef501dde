//! The GPU's register-level port: status, the two command ports and the
//! multi-word command assembler.
//!
//! Rendering itself is an external collaborator.  The core assembles and
//! validates the command stream, tracks the drawing state the status register
//! reads back, and appends every accepted GP0 word to a queue the embedder
//! drains for its renderer.

use vstd::prelude::*;

use crate::fault::Fault;

verus! {

/// Texture page colour depth.
#[derive(Clone, Copy, Debug, PartialEq, Eq, Structural)]
pub enum TextureDepth {
    T4Bit,
    T8Bit,
    T15Bit,
}

/// Interlace field currently displayed.
#[derive(Clone, Copy, Debug, PartialEq, Eq, Structural)]
pub enum Field {
    Top,
    Bottom,
}

/// Horizontal display resolution, encoded from the two mode fields.
#[derive(Clone, Copy, Debug, PartialEq, Eq, Structural)]
pub struct HorizontalRes(pub u8);

/// The encoded horizontal-resolution field.
pub open spec fn spec_hres_from_fields(hr1: u8, hr2: u8) -> HorizontalRes {
    HorizontalRes(((hr2 & 1) | ((hr1 & 3) << 1)) as u8)
}

/// The status-register bits the horizontal resolution occupies.
pub open spec fn spec_hres_into_status(h: HorizontalRes) -> u32 {
    (h.0 as u32) << 16
}

impl HorizontalRes {
    /// Builds the field from the two mode bits.
    pub fn from_fields(hr1: u8, hr2: u8) -> (r: HorizontalRes)
        ensures
            r == spec_hres_from_fields(hr1, hr2),
    {
        HorizontalRes((hr2 & 1) | ((hr1 & 3) << 1))
    }

    /// Places the field at its status-register position.
    pub fn into_status(self) -> (r: u32)
        ensures
            r == spec_hres_into_status(self),
    {
        (self.0 as u32) << 16
    }
}

/// Vertical display resolution.
#[derive(Clone, Copy, Debug, PartialEq, Eq, Structural)]
pub enum VerticalRes {
    Y240Lines,
    Y480Lines,
}

/// Video standard.
#[derive(Clone, Copy, Debug, PartialEq, Eq, Structural)]
pub enum VMode {
    Ntsc,
    Pal,
}

/// Display colour depth.
#[derive(Clone, Copy, Debug, PartialEq, Eq, Structural)]
pub enum DisplayDepth {
    D15Bits,
    D24Bits,
}

/// DMA request mode the GPU advertises.
#[derive(Clone, Copy, Debug, PartialEq, Eq, Structural)]
pub enum DmaDirection {
    Off,
    Fifo,
    CpuToGp0,
    VramToCpu,
}

/// The kind of GP0 command being assembled; dispatched once the expected
/// word count has arrived.
#[derive(Clone, Copy, Debug, PartialEq, Eq, Structural)]
pub enum Gp0Kind {
    Nop,
    ClearCache,
    QuadMonoOpaque,
    DrawMode,
    TextureWindow,
    DrawingAreaTopLeft,
    DrawingAreaBottomRight,
    DrawingOffset,
    MaskBitSetting,
}

/// The drawing and display state the status register reads back.
#[derive(Clone, Copy, Debug, PartialEq, Eq, Structural)]
pub struct GpuRegs {
    pub page_base_x: u8,
    pub page_base_y: u8,
    pub semi_transparency: u8,
    pub texture_depth: TextureDepth,
    pub dithering: bool,
    pub draw_to_display: bool,
    pub force_set_mask_bit: bool,
    pub preserve_masked_pixels: bool,
    pub field: Field,
    pub texture_disable: bool,
    pub hres: HorizontalRes,
    pub vres: VerticalRes,
    pub vmode: VMode,
    pub display_depth: DisplayDepth,
    pub interlaced: bool,
    pub display_disabled: bool,
    pub interrupt: bool,
    pub dma_direction: DmaDirection,
    pub rectangle_texture_x_flip: bool,
    pub rectangle_texture_y_flip: bool,
    pub texture_window_x_mask: u8,
    pub texture_window_y_mask: u8,
    pub texture_window_x_offset: u8,
    pub texture_window_y_offset: u8,
    pub drawing_area_left: u16,
    pub drawing_area_top: u16,
    pub drawing_area_right: u16,
    pub drawing_area_bottom: u16,
    pub drawing_x_offset: i16,
    pub drawing_y_offset: i16,
    pub display_vram_x_start: u16,
    pub display_vram_y_start: u16,
    pub display_horiz_start: u16,
    pub display_horiz_end: u16,
    pub display_line_start: u16,
    pub display_line_end: u16,
}

/// The register state at power-on.
pub open spec fn power_on_regs() -> GpuRegs {
    GpuRegs {
        page_base_x: 0,
        page_base_y: 0,
        semi_transparency: 0,
        texture_depth: TextureDepth::T4Bit,
        dithering: false,
        draw_to_display: false,
        force_set_mask_bit: false,
        preserve_masked_pixels: false,
        field: Field::Top,
        texture_disable: false,
        hres: spec_hres_from_fields(0, 0),
        vres: VerticalRes::Y240Lines,
        vmode: VMode::Ntsc,
        display_depth: DisplayDepth::D15Bits,
        interlaced: false,
        display_disabled: true,
        interrupt: false,
        dma_direction: DmaDirection::Off,
        rectangle_texture_x_flip: false,
        rectangle_texture_y_flip: false,
        texture_window_x_mask: 0,
        texture_window_y_mask: 0,
        texture_window_x_offset: 0,
        texture_window_y_offset: 0,
        drawing_area_left: 0,
        drawing_area_top: 0,
        drawing_area_right: 0,
        drawing_area_bottom: 0,
        drawing_x_offset: 0,
        drawing_y_offset: 0,
        display_vram_x_start: 0,
        display_vram_y_start: 0,
        display_horiz_start: 0,
        display_horiz_end: 0,
        display_line_start: 0,
        display_line_end: 0,
    }
}

/// The bit each field variant reads back as in the status register.
pub open spec fn field_bit(f: Field) -> u32 {
    match f {
        Field::Top => 1,
        Field::Bottom => 0,
    }
}

/// The status bits of the texture depth.
pub open spec fn texture_depth_bits(t: TextureDepth) -> u32 {
    match t {
        TextureDepth::T4Bit => 0,
        TextureDepth::T8Bit => 1,
        TextureDepth::T15Bit => 2,
    }
}

/// The status bit of the video standard.
pub open spec fn vmode_bit(v: VMode) -> u32 {
    match v {
        VMode::Ntsc => 0,
        VMode::Pal => 1,
    }
}

/// The status bit of the display depth.
pub open spec fn display_depth_bit(d: DisplayDepth) -> u32 {
    match d {
        DisplayDepth::D15Bits => 0,
        DisplayDepth::D24Bits => 1,
    }
}

/// The status bits of the DMA request mode.
pub open spec fn dma_direction_bits(d: DmaDirection) -> u32 {
    match d {
        DmaDirection::Off => 0,
        DmaDirection::Fifo => 1,
        DmaDirection::CpuToGp0 => 2,
        DmaDirection::VramToCpu => 3,
    }
}

/// Converts a flag to its status bit.
pub open spec fn bit(b: bool) -> u32 {
    if b {
        1
    } else {
        0
    }
}

/// The status word before the DMA-request bit is merged in.
pub open spec fn spec_status_base(r: GpuRegs) -> u32 {
    (r.page_base_x as u32) | ((r.page_base_y as u32) << 4) | ((r.semi_transparency as u32) << 5) | (
    texture_depth_bits(r.texture_depth) << 7) | (bit(r.dithering) << 9) | (bit(r.draw_to_display)
        << 10) | (bit(r.force_set_mask_bit) << 11) | (bit(r.preserve_masked_pixels) << 12) | (
    field_bit(r.field) << 13) | (bit(r.texture_disable) << 15) | spec_hres_into_status(r.hres) | (
    vmode_bit(r.vmode) << 20) | (display_depth_bit(r.display_depth) << 21) | (bit(r.interlaced)
        << 22) | (bit(r.display_disabled) << 23) | (bit(r.interrupt) << 24) | (1u32 << 26) | (1u32
        << 27) | (1u32 << 28) | (dma_direction_bits(r.dma_direction) << 29)
}

/// The full status word: the base with the DMA request bit derived from the
/// current DMA direction.
pub open spec fn spec_status(r: GpuRegs) -> u32 {
    let base = spec_status_base(r);
    let dma_request = match r.dma_direction {
        DmaDirection::Off => 0u32,
        DmaDirection::Fifo => 1u32,
        DmaDirection::CpuToGp0 => (base >> 28) & 1,
        DmaDirection::VramToCpu => (base >> 27) & 1,
    };
    base | (dma_request << 25)
}

/// Mathematical model of the GPU port: registers, the command being
/// assembled, and every word the port has accepted, oldest first.
#[verifier::ext_equal]
pub struct GpuV {
    pub regs: GpuRegs,
    pub kind: Gp0Kind,
    pub remaining: u32,
    pub buf: Seq<u32>,
    pub words: Seq<u32>,
}

/// The command class and word count a fresh GP0 word selects.
pub open spec fn spec_gp0_decode(val: u32) -> Result<(u32, Gp0Kind), Fault> {
    let opcode = (val >> 24) & 0xFF;
    if opcode == 0x00 {
        Ok((1, Gp0Kind::Nop))
    } else if opcode == 0x01 {
        Ok((1, Gp0Kind::ClearCache))
    } else if opcode == 0x28 {
        Ok((5, Gp0Kind::QuadMonoOpaque))
    } else if opcode == 0xE1 {
        Ok((1, Gp0Kind::DrawMode))
    } else if opcode == 0xE2 {
        Ok((1, Gp0Kind::TextureWindow))
    } else if opcode == 0xE3 {
        Ok((1, Gp0Kind::DrawingAreaTopLeft))
    } else if opcode == 0xE4 {
        Ok((1, Gp0Kind::DrawingAreaBottomRight))
    } else if opcode == 0xE5 {
        Ok((1, Gp0Kind::DrawingOffset))
    } else if opcode == 0xE6 {
        Ok((1, Gp0Kind::MaskBitSetting))
    } else {
        Err(Fault::UnhandledGp0(val))
    }
}

/// The register state after the draw-mode command.
#[verifier::opaque]
pub open spec fn spec_draw_mode(r: GpuRegs, val: u32) -> Result<GpuRegs, Fault> {
    if (val >> 7) & 3 == 3 {
        Err(Fault::UnhandledTextureDepth((val >> 7) & 3))
    } else {
        Ok(
            GpuRegs {
                page_base_x: (val & 0x0F) as u8,
                page_base_y: ((val >> 4) & 1) as u8,
                semi_transparency: ((val >> 5) & 3) as u8,
                texture_depth: if (val >> 7) & 3 == 0 {
                    TextureDepth::T4Bit
                } else if (val >> 7) & 3 == 1 {
                    TextureDepth::T8Bit
                } else {
                    TextureDepth::T15Bit
                },
                dithering: (val >> 9) & 1 != 0,
                draw_to_display: (val >> 10) & 1 != 0,
                texture_disable: (val >> 11) & 1 != 0,
                rectangle_texture_x_flip: (val >> 12) & 1 != 0,
                rectangle_texture_y_flip: (val >> 13) & 1 != 0,
                ..r
            },
        )
    }
}

/// The signed 11-bit drawing offset held in the low bits of `x`.
pub open spec fn spec_offset11(x: u16) -> i16 {
    (((x << 5) as i16) >> 5)
}

/// The register state after the texture-window command.
#[verifier::opaque]
pub open spec fn spec_texture_window(r: GpuRegs, first: u32) -> GpuRegs {
    GpuRegs {
        texture_window_x_mask: (first & 0x1F) as u8,
        texture_window_y_mask: ((first >> 5) & 0x1F) as u8,
        texture_window_x_offset: ((first >> 10) & 0x1F) as u8,
        texture_window_y_offset: ((first >> 15) & 0x1F) as u8,
        ..r
    }
}

/// The register state after the drawing-area top-left command.
#[verifier::opaque]
pub open spec fn spec_area_top_left(r: GpuRegs, first: u32) -> GpuRegs {
    GpuRegs {
        drawing_area_top: ((first >> 10) & 0x03FF) as u16,
        drawing_area_left: (first & 0x03FF) as u16,
        ..r
    }
}

/// The register state after the drawing-area bottom-right command.
#[verifier::opaque]
pub open spec fn spec_area_bottom_right(r: GpuRegs, first: u32) -> GpuRegs {
    GpuRegs {
        drawing_area_bottom: ((first >> 10) & 0x03FF) as u16,
        drawing_area_right: (first & 0x03FF) as u16,
        ..r
    }
}

/// The register state after the drawing-offset command.
#[verifier::opaque]
pub open spec fn spec_drawing_offset(r: GpuRegs, first: u32) -> GpuRegs {
    GpuRegs {
        drawing_x_offset: spec_offset11((first & 0x07FF) as u16),
        drawing_y_offset: spec_offset11(((first >> 11) & 0x07FF) as u16),
        ..r
    }
}

/// The register state after the mask-bit command.
#[verifier::opaque]
pub open spec fn spec_mask_bit(r: GpuRegs, first: u32) -> GpuRegs {
    GpuRegs { force_set_mask_bit: first & 1 != 0, preserve_masked_pixels: first & 2 != 0, ..r }
}

/// The register state after a completed GP0 command is applied.
pub open spec fn spec_gp0_apply(r: GpuRegs, kind: Gp0Kind, first: u32) -> Result<GpuRegs, Fault> {
    match kind {
        Gp0Kind::Nop => Ok(r),
        Gp0Kind::ClearCache => Ok(r),
        Gp0Kind::QuadMonoOpaque => Ok(r),
        Gp0Kind::DrawMode => spec_draw_mode(r, first),
        Gp0Kind::TextureWindow => Ok(spec_texture_window(r, first)),
        Gp0Kind::DrawingAreaTopLeft => Ok(spec_area_top_left(r, first)),
        Gp0Kind::DrawingAreaBottomRight => Ok(spec_area_bottom_right(r, first)),
        Gp0Kind::DrawingOffset => Ok(spec_drawing_offset(r, first)),
        Gp0Kind::MaskBitSetting => Ok(spec_mask_bit(r, first)),
    }
}

/// The GPU after one word arrives at the GP0 port: starts a new command when
/// none is pending, buffers the word, and applies the command once complete.
pub open spec fn spec_gp0(g: GpuV, val: u32) -> Result<GpuV, Fault> {
    let started = if g.remaining == 0 {
        match spec_gp0_decode(val) {
            Ok((len, kind)) => Ok(GpuV { kind, remaining: len, buf: Seq::empty(), ..g }),
            Err(f) => Err(f),
        }
    } else {
        Ok(g)
    };
    match started {
        Err(f) => Err(f),
        Ok(g0) => {
            let g1 = GpuV {
                buf: g0.buf.push(val),
                remaining: (g0.remaining - 1) as u32,
                words: g0.words.push(val),
                ..g0
            };
            if g1.remaining == 0 {
                match spec_gp0_apply(g1.regs, g1.kind, g1.buf[0]) {
                    Ok(r2) => Ok(GpuV { regs: r2, ..g1 }),
                    Err(f) => Err(f),
                }
            } else {
                Ok(g1)
            }
        },
    }
}

/// The register state after the GP1 reset command.
#[verifier::opaque]
pub open spec fn spec_gp1_reset(r: GpuRegs) -> GpuRegs {
    GpuRegs {
        interrupt: false,
        page_base_x: 0,
        page_base_y: 0,
        semi_transparency: 0,
        texture_depth: TextureDepth::T4Bit,
        texture_window_x_mask: 0,
        texture_window_y_mask: 0,
        texture_window_x_offset: 0,
        texture_window_y_offset: 0,
        dithering: false,
        draw_to_display: false,
        texture_disable: false,
        rectangle_texture_x_flip: false,
        rectangle_texture_y_flip: false,
        drawing_area_left: 0,
        drawing_area_top: 0,
        drawing_area_right: 0,
        drawing_area_bottom: 0,
        drawing_x_offset: 0,
        drawing_y_offset: 0,
        force_set_mask_bit: false,
        preserve_masked_pixels: false,
        dma_direction: DmaDirection::Off,
        display_disabled: true,
        display_vram_x_start: 0,
        display_vram_y_start: 0,
        hres: spec_hres_from_fields(0, 0),
        vres: VerticalRes::Y240Lines,
        vmode: VMode::Ntsc,
        interlaced: true,
        display_horiz_start: 0x0200,
        display_horiz_end: 0x0C00,
        display_line_start: 0x0010,
        display_line_end: 0x0100,
        display_depth: DisplayDepth::D15Bits,
        ..r
    }
}

/// The register state after the GP1 display-mode command.
#[verifier::opaque]
pub open spec fn spec_gp1_display_mode(r: GpuRegs, val: u32) -> Result<GpuRegs, Fault> {
    if val & 0x80 != 0 {
        Err(Fault::UnsupportedDisplayMode(val))
    } else {
        Ok(
            GpuRegs {
                hres: spec_hres_from_fields((val & 3) as u8, ((val >> 6) & 1) as u8),
                vres: if val & 0x04 != 0 {
                    VerticalRes::Y480Lines
                } else {
                    VerticalRes::Y240Lines
                },
                vmode: if val & 0x08 != 0 {
                    VMode::Pal
                } else {
                    VMode::Ntsc
                },
                display_depth: if val & 0x10 != 0 {
                    DisplayDepth::D15Bits
                } else {
                    DisplayDepth::D24Bits
                },
                interlaced: val & 0x20 != 0,
                ..r
            },
        )
    }
}

/// The DMA request mode a GP1 word selects.
pub open spec fn spec_dma_direction(val: u32) -> DmaDirection {
    if val & 3 == 0 {
        DmaDirection::Off
    } else if val & 3 == 1 {
        DmaDirection::Fifo
    } else if val & 3 == 2 {
        DmaDirection::CpuToGp0
    } else {
        DmaDirection::VramToCpu
    }
}

/// The register state after one word arrives at the GP1 port.
pub open spec fn spec_gp1(r: GpuRegs, val: u32) -> Result<GpuRegs, Fault> {
    let opcode = (val >> 24) & 0xFF;
    if opcode == 0x00 {
        Ok(spec_gp1_reset(r))
    } else if opcode == 0x04 {
        Ok(GpuRegs { dma_direction: spec_dma_direction(val), ..r })
    } else if opcode == 0x05 {
        Ok(
            GpuRegs {
                display_vram_x_start: (val & 0x03FE) as u16,
                display_vram_y_start: ((val >> 10) & 0x1FF) as u16,
                ..r
            },
        )
    } else if opcode == 0x06 {
        Ok(
            GpuRegs {
                display_horiz_start: (val & 0x0FFF) as u16,
                display_horiz_end: ((val >> 12) & 0x0FFF) as u16,
                ..r
            },
        )
    } else if opcode == 0x07 {
        Ok(
            GpuRegs {
                display_line_start: (val & 0x03FF) as u16,
                display_line_end: ((val >> 10) & 0x03FF) as u16,
                ..r
            },
        )
    } else if opcode == 0x08 {
        spec_gp1_display_mode(r, val)
    } else {
        Err(Fault::UnhandledGp1(val))
    }
}

/// Buffer for the words of the GP0 command being assembled.
pub struct CommandBuffer {
    buffer: Vec<u32>,
}

impl View for CommandBuffer {
    type V = Seq<u32>;

    closed spec fn view(&self) -> Seq<u32> {
        self.buffer@
    }
}

impl CommandBuffer {
    /// An empty buffer.
    pub fn new() -> (r: CommandBuffer)
        ensures
            r@ == Seq::<u32>::empty(),
    {
        CommandBuffer { buffer: Vec::new() }
    }

    /// Empties the buffer.
    pub fn clear(&mut self)
        ensures
            final(self)@ == Seq::<u32>::empty(),
    {
        self.buffer.clear();
    }

    /// Appends one word.
    pub fn push_word(&mut self, word: u32)
        ensures
            final(self)@ == old(self)@.push(word),
    {
        self.buffer.push(word);
    }

    /// The word at `index` among those buffered so far.
    pub fn word(&self, index: usize) -> (r: u32)
        requires
            index < self@.len(),
        ensures
            r == self@[index as int],
    {
        self.buffer[index]
    }
}

/// The GPU port.
pub struct Gpu {
    regs: GpuRegs,
    gp0_kind: Gp0Kind,
    gp0_remaining: u32,
    gp0_command: CommandBuffer,
    gp0_words: Vec<u32>,
}

impl View for Gpu {
    type V = GpuV;

    closed spec fn view(&self) -> GpuV {
        GpuV {
            regs: self.regs,
            kind: self.gp0_kind,
            remaining: self.gp0_remaining,
            buf: self.gp0_command@,
            words: self.gp0_words@,
        }
    }
}

impl Gpu {
    /// The assembler never holds more than a command's worth of words.
    pub open spec fn wf(&self) -> bool {
        self@.buf.len() + self@.remaining <= 12
    }

    /// Power-on state: display disabled, no command pending, empty stream.
    pub fn new() -> (r: Gpu)
        ensures
            r.wf(),
            r@.regs == power_on_regs(),
            r@.remaining == 0,
            r@.words == Seq::<u32>::empty(),
    {
        Gpu {
            regs: GpuRegs {
                page_base_x: 0,
                page_base_y: 0,
                semi_transparency: 0,
                texture_depth: TextureDepth::T4Bit,
                dithering: false,
                draw_to_display: false,
                force_set_mask_bit: false,
                preserve_masked_pixels: false,
                field: Field::Top,
                texture_disable: false,
                hres: HorizontalRes::from_fields(0, 0),
                vres: VerticalRes::Y240Lines,
                vmode: VMode::Ntsc,
                display_depth: DisplayDepth::D15Bits,
                interlaced: false,
                display_disabled: true,
                interrupt: false,
                dma_direction: DmaDirection::Off,
                rectangle_texture_x_flip: false,
                rectangle_texture_y_flip: false,
                texture_window_x_mask: 0,
                texture_window_y_mask: 0,
                texture_window_x_offset: 0,
                texture_window_y_offset: 0,
                drawing_area_left: 0,
                drawing_area_top: 0,
                drawing_area_right: 0,
                drawing_area_bottom: 0,
                drawing_x_offset: 0,
                drawing_y_offset: 0,
                display_vram_x_start: 0,
                display_vram_y_start: 0,
                display_horiz_start: 0,
                display_horiz_end: 0,
                display_line_start: 0,
                display_line_end: 0,
            },
            gp0_kind: Gp0Kind::Nop,
            gp0_remaining: 0,
            gp0_command: CommandBuffer::new(),
            gp0_words: Vec::new(),
        }
    }

    /// Reads the status register.
    pub fn status(&self) -> (r: u32)
        ensures
            r == spec_status(self@.regs),
    {
        let rg = &self.regs;
        let texture_depth: u32 = match rg.texture_depth {
            TextureDepth::T4Bit => 0,
            TextureDepth::T8Bit => 1,
            TextureDepth::T15Bit => 2,
        };
        let field: u32 = match rg.field {
            Field::Top => 1,
            Field::Bottom => 0,
        };
        let vmode: u32 = match rg.vmode {
            VMode::Ntsc => 0,
            VMode::Pal => 1,
        };
        let display_depth: u32 = match rg.display_depth {
            DisplayDepth::D15Bits => 0,
            DisplayDepth::D24Bits => 1,
        };
        let dma_direction: u32 = match rg.dma_direction {
            DmaDirection::Off => 0,
            DmaDirection::Fifo => 1,
            DmaDirection::CpuToGp0 => 2,
            DmaDirection::VramToCpu => 3,
        };
        let base = (rg.page_base_x as u32) | ((rg.page_base_y as u32) << 4) | ((rg.semi_transparency
            as u32) << 5) | (texture_depth << 7) | ((if rg.dithering {
            1u32
        } else {
            0u32
        }) << 9) | ((if rg.draw_to_display {
            1u32
        } else {
            0u32
        }) << 10) | ((if rg.force_set_mask_bit {
            1u32
        } else {
            0u32
        }) << 11) | ((if rg.preserve_masked_pixels {
            1u32
        } else {
            0u32
        }) << 12) | (field << 13) | ((if rg.texture_disable {
            1u32
        } else {
            0u32
        }) << 15) | rg.hres.into_status() | (vmode << 20) | (display_depth << 21) | ((if rg
            .interlaced {
            1u32
        } else {
            0u32
        }) << 22) | ((if rg.display_disabled {
            1u32
        } else {
            0u32
        }) << 23) | ((if rg.interrupt {
            1u32
        } else {
            0u32
        }) << 24) | (1u32 << 26) | (1u32 << 27) | (1u32 << 28) | (dma_direction << 29);
        let dma_request: u32 = match rg.dma_direction {
            DmaDirection::Off => 0,
            DmaDirection::Fifo => 1,
            DmaDirection::CpuToGp0 => (base >> 28) & 1,
            DmaDirection::VramToCpu => (base >> 27) & 1,
        };
        base | (dma_request << 25)
    }

    /// Reads the data port; video memory read-back is not modelled, so the
    /// port returns zero.
    pub fn read(&self) -> (r: u32)
        ensures
            r == 0u32,
    {
        0
    }

    /// No drawing state changes.
    pub fn gp0_nop(&mut self)
        ensures
            *final(self) == *old(self),
    {
    }

    /// The texture cache is not modelled; nothing to invalidate.
    pub fn gp0_clear_cache(&mut self)
        ensures
            *final(self) == *old(self),
    {
    }

    /// Applies the draw-mode command to the registers.
    pub fn gp0_draw_mode(&mut self, first: u32) -> (r: Result<(), Fault>)
        ensures
            match spec_draw_mode(old(self)@.regs, first) {
                Ok(rg) => r is Ok && final(self)@ == (GpuV { regs: rg, ..old(self)@ }),
                Err(f) => r == Err::<(), Fault>(f) && final(self)@ == old(self)@,
            },
    {
        proof {
            reveal(spec_draw_mode);
        }
        let depth_field = (first >> 7) & 3;
        if depth_field == 3 {
            return Err(Fault::UnhandledTextureDepth(depth_field));
        }
        proof {
            assert((first & 0x0F) <= 0xFF && ((first >> 4) & 1) <= 0xFF && ((first >> 5) & 3)
                <= 0xFF) by (bit_vector);
        }
        self.regs = GpuRegs {
            page_base_x: (first & 0x0F) as u8,
            page_base_y: ((first >> 4) & 1) as u8,
            semi_transparency: ((first >> 5) & 3) as u8,
            texture_depth: if depth_field == 0 {
                TextureDepth::T4Bit
            } else if depth_field == 1 {
                TextureDepth::T8Bit
            } else {
                TextureDepth::T15Bit
            },
            dithering: (first >> 9) & 1 != 0,
            draw_to_display: (first >> 10) & 1 != 0,
            texture_disable: (first >> 11) & 1 != 0,
            rectangle_texture_x_flip: (first >> 12) & 1 != 0,
            rectangle_texture_y_flip: (first >> 13) & 1 != 0,
            ..self.regs
        };
        Ok(())
    }

    /// Applies the texture-window command to the registers.
    pub fn gp0_texture_window(&mut self, first: u32)
        ensures
            final(self)@ == (GpuV { regs: spec_texture_window(old(self)@.regs, first), ..old(self)@ }),
    {
        proof {
            reveal(spec_texture_window);
            assert((first & 0x1F) <= 0xFF && ((first >> 5) & 0x1F) <= 0xFF && ((first >> 10) & 0x1F)
                <= 0xFF && ((first >> 15) & 0x1F) <= 0xFF) by (bit_vector);
        }
        self.regs = GpuRegs {
            texture_window_x_mask: (first & 0x1F) as u8,
            texture_window_y_mask: ((first >> 5) & 0x1F) as u8,
            texture_window_x_offset: ((first >> 10) & 0x1F) as u8,
            texture_window_y_offset: ((first >> 15) & 0x1F) as u8,
            ..self.regs
        };
    }

    /// Applies the drawing-area top-left command to the registers.
    pub fn gp0_drawing_area_top_left(&mut self, first: u32)
        ensures
            final(self)@ == (GpuV { regs: spec_area_top_left(old(self)@.regs, first), ..old(self)@ }),
    {
        proof {
            reveal(spec_area_top_left);
            assert(((first >> 10) & 0x03FF) <= 0xFFFF && (first & 0x03FF) <= 0xFFFF)
                by (bit_vector);
        }
        self.regs = GpuRegs {
            drawing_area_top: ((first >> 10) & 0x03FF) as u16,
            drawing_area_left: (first & 0x03FF) as u16,
            ..self.regs
        };
    }

    /// Applies the drawing-area bottom-right command to the registers.
    pub fn gp0_drawing_area_bottom_right(&mut self, first: u32)
        ensures
            final(self)@ == (GpuV { regs: spec_area_bottom_right(old(self)@.regs, first), ..old(self)@ }),
    {
        proof {
            reveal(spec_area_bottom_right);
            assert(((first >> 10) & 0x03FF) <= 0xFFFF && (first & 0x03FF) <= 0xFFFF)
                by (bit_vector);
        }
        self.regs = GpuRegs {
            drawing_area_bottom: ((first >> 10) & 0x03FF) as u16,
            drawing_area_right: (first & 0x03FF) as u16,
            ..self.regs
        };
    }

    /// Applies the drawing-offset command to the registers.
    pub fn gp0_drawing_offset(&mut self, first: u32)
        ensures
            final(self)@ == (GpuV { regs: spec_drawing_offset(old(self)@.regs, first), ..old(self)@ }),
    {
        proof {
            reveal(spec_drawing_offset);
            assert((first & 0x07FF) <= 0xFFFF && ((first >> 11) & 0x07FF) <= 0xFFFF)
                by (bit_vector);
        }
        let x = (first & 0x07FF) as u16;
        let y = ((first >> 11) & 0x07FF) as u16;
        self.regs = GpuRegs {
            drawing_x_offset: ((x << 5) as i16) >> 5,
            drawing_y_offset: ((y << 5) as i16) >> 5,
            ..self.regs
        };
    }

    /// Applies the mask-bit command to the registers.
    pub fn gp0_mask_bit_setting(&mut self, first: u32)
        ensures
            final(self)@ == (GpuV { regs: spec_mask_bit(old(self)@.regs, first), ..old(self)@ }),
    {
        proof {
            reveal(spec_mask_bit);
        }
        self.regs = GpuRegs {
            force_set_mask_bit: first & 1 != 0,
            preserve_masked_pixels: first & 2 != 0,
            ..self.regs
        };
    }

    /// Handles one word written to the GP0 command port.  On a fault the
    /// machine stops, so only the fault value is promised then.
    pub fn gp0(&mut self, val: u32) -> (r: Result<(), Fault>)
        requires
            old(self).wf(),
        ensures
            final(self).wf(),
            match spec_gp0(old(self)@, val) {
                Ok(g) => r is Ok && final(self)@ == g,
                Err(f) => r == Err::<(), Fault>(f),
            },
    {
        if self.gp0_remaining == 0 {
            let opcode = (val >> 24) & 0xFF;
            let len: u32;
            let kind: Gp0Kind;
            if opcode == 0x00 {
                len = 1;
                kind = Gp0Kind::Nop;
            } else if opcode == 0x01 {
                len = 1;
                kind = Gp0Kind::ClearCache;
            } else if opcode == 0x28 {
                len = 5;
                kind = Gp0Kind::QuadMonoOpaque;
            } else if opcode == 0xE1 {
                len = 1;
                kind = Gp0Kind::DrawMode;
            } else if opcode == 0xE2 {
                len = 1;
                kind = Gp0Kind::TextureWindow;
            } else if opcode == 0xE3 {
                len = 1;
                kind = Gp0Kind::DrawingAreaTopLeft;
            } else if opcode == 0xE4 {
                len = 1;
                kind = Gp0Kind::DrawingAreaBottomRight;
            } else if opcode == 0xE5 {
                len = 1;
                kind = Gp0Kind::DrawingOffset;
            } else if opcode == 0xE6 {
                len = 1;
                kind = Gp0Kind::MaskBitSetting;
            } else {
                return Err(Fault::UnhandledGp0(val));
            }
            self.gp0_remaining = len;
            self.gp0_kind = kind;
            self.gp0_command.clear();
        }
        self.gp0_command.push_word(val);
        self.gp0_words.push(val);
        self.gp0_remaining = self.gp0_remaining - 1;
        if self.gp0_remaining == 0 {
            let first = self.gp0_command.word(0);
            match self.gp0_kind {
                Gp0Kind::Nop => self.gp0_nop(),
                Gp0Kind::ClearCache => self.gp0_clear_cache(),
                Gp0Kind::QuadMonoOpaque => {
                    // The quad's words are already in the command stream; the
                    // renderer outside the core draws it.
                },
                Gp0Kind::DrawMode => {
                    let applied = self.gp0_draw_mode(first);
                    if let Err(f) = applied {
                        return Err(f);
                    }
                },
                Gp0Kind::TextureWindow => self.gp0_texture_window(first),
                Gp0Kind::DrawingAreaTopLeft => self.gp0_drawing_area_top_left(first),
                Gp0Kind::DrawingAreaBottomRight => self.gp0_drawing_area_bottom_right(first),
                Gp0Kind::DrawingOffset => self.gp0_drawing_offset(first),
                Gp0Kind::MaskBitSetting => self.gp0_mask_bit_setting(first),
            }
        }
        Ok(())
    }

    /// Resets the drawing and display state; the command stream and any
    /// half-assembled command are kept.
    pub fn gp1_reset(&mut self)
        ensures
            final(self)@ == (GpuV { regs: spec_gp1_reset(old(self)@.regs), ..old(self)@ }),
    {
        proof {
            reveal(spec_gp1_reset);
        }
        self.regs = GpuRegs {
            interrupt: false,
            page_base_x: 0,
            page_base_y: 0,
            semi_transparency: 0,
            texture_depth: TextureDepth::T4Bit,
            texture_window_x_mask: 0,
            texture_window_y_mask: 0,
            texture_window_x_offset: 0,
            texture_window_y_offset: 0,
            dithering: false,
            draw_to_display: false,
            texture_disable: false,
            rectangle_texture_x_flip: false,
            rectangle_texture_y_flip: false,
            drawing_area_left: 0,
            drawing_area_top: 0,
            drawing_area_right: 0,
            drawing_area_bottom: 0,
            drawing_x_offset: 0,
            drawing_y_offset: 0,
            force_set_mask_bit: false,
            preserve_masked_pixels: false,
            dma_direction: DmaDirection::Off,
            display_disabled: true,
            display_vram_x_start: 0,
            display_vram_y_start: 0,
            hres: HorizontalRes::from_fields(0, 0),
            vres: VerticalRes::Y240Lines,
            vmode: VMode::Ntsc,
            interlaced: true,
            display_horiz_start: 0x0200,
            display_horiz_end: 0x0C00,
            display_line_start: 0x0010,
            display_line_end: 0x0100,
            display_depth: DisplayDepth::D15Bits,
            ..self.regs
        };
    }

    /// Sets the DMA request mode.
    pub fn gp1_dma_direction(&mut self, val: u32)
        ensures
            final(self)@ == (GpuV {
                regs: GpuRegs { dma_direction: spec_dma_direction(val), ..old(self)@.regs },
                ..old(self)@
            }),
    {
        self.regs = GpuRegs {
            dma_direction: if val & 3 == 0 {
                DmaDirection::Off
            } else if val & 3 == 1 {
                DmaDirection::Fifo
            } else if val & 3 == 2 {
                DmaDirection::CpuToGp0
            } else {
                DmaDirection::VramToCpu
            },
            ..self.regs
        };
    }

    /// Sets where in video memory the displayed frame starts.
    pub fn gp1_display_vram_start(&mut self, val: u32)
        ensures
            final(self)@ == (GpuV {
                regs: GpuRegs {
                    display_vram_x_start: (val & 0x03FE) as u16,
                    display_vram_y_start: ((val >> 10) & 0x1FF) as u16,
                    ..old(self)@.regs
                },
                ..old(self)@
            }),
    {
        proof {
            assert((val & 0x03FE) <= 0xFFFF && ((val >> 10) & 0x1FF) <= 0xFFFF) by (bit_vector);
        }
        self.regs = GpuRegs {
            display_vram_x_start: (val & 0x03FE) as u16,
            display_vram_y_start: ((val >> 10) & 0x1FF) as u16,
            ..self.regs
        };
    }

    /// Sets the horizontal display range.
    pub fn gp1_display_hirozontal_range(&mut self, val: u32)
        ensures
            final(self)@ == (GpuV {
                regs: GpuRegs {
                    display_horiz_start: (val & 0x0FFF) as u16,
                    display_horiz_end: ((val >> 12) & 0x0FFF) as u16,
                    ..old(self)@.regs
                },
                ..old(self)@
            }),
    {
        proof {
            assert((val & 0x0FFF) <= 0xFFFF && ((val >> 12) & 0x0FFF) <= 0xFFFF) by (bit_vector);
        }
        self.regs = GpuRegs {
            display_horiz_start: (val & 0x0FFF) as u16,
            display_horiz_end: ((val >> 12) & 0x0FFF) as u16,
            ..self.regs
        };
    }

    /// Sets the vertical display range.
    pub fn gp1_display_vertical_range(&mut self, val: u32)
        ensures
            final(self)@ == (GpuV {
                regs: GpuRegs {
                    display_line_start: (val & 0x03FF) as u16,
                    display_line_end: ((val >> 10) & 0x03FF) as u16,
                    ..old(self)@.regs
                },
                ..old(self)@
            }),
    {
        proof {
            assert((val & 0x03FF) <= 0xFFFF && ((val >> 10) & 0x03FF) <= 0xFFFF) by (bit_vector);
        }
        self.regs = GpuRegs {
            display_line_start: (val & 0x03FF) as u16,
            display_line_end: ((val >> 10) & 0x03FF) as u16,
            ..self.regs
        };
    }

    /// Sets the display mode; a mode with the reserved bit set is a fault.
    pub fn gp1_display_mode(&mut self, val: u32) -> (r: Result<(), Fault>)
        ensures
            match spec_gp1_display_mode(old(self)@.regs, val) {
                Ok(rg) => r is Ok && final(self)@ == (GpuV { regs: rg, ..old(self)@ }),
                Err(f) => r == Err::<(), Fault>(f) && final(self)@ == old(self)@,
            },
    {
        proof {
            reveal(spec_gp1_display_mode);
        }
        if val & 0x80 != 0 {
            return Err(Fault::UnsupportedDisplayMode(val));
        }
        proof {
            assert((val & 3) <= 0xFF && ((val >> 6) & 1) <= 0xFF) by (bit_vector);
        }
        self.regs = GpuRegs {
            hres: HorizontalRes::from_fields((val & 3) as u8, ((val >> 6) & 1) as u8),
            vres: if val & 0x04 != 0 {
                VerticalRes::Y480Lines
            } else {
                VerticalRes::Y240Lines
            },
            vmode: if val & 0x08 != 0 {
                VMode::Pal
            } else {
                VMode::Ntsc
            },
            display_depth: if val & 0x10 != 0 {
                DisplayDepth::D15Bits
            } else {
                DisplayDepth::D24Bits
            },
            interlaced: val & 0x20 != 0,
            ..self.regs
        };
        Ok(())
    }

    /// Handles one word written to the GP1 display-control port.
    #[verifier::rlimit(100)]
    pub fn gp1(&mut self, val: u32) -> (r: Result<(), Fault>)
        ensures
            match spec_gp1(old(self)@.regs, val) {
                Ok(rg) => r is Ok && final(self)@ == (GpuV { regs: rg, ..old(self)@ }),
                Err(f) => r == Err::<(), Fault>(f) && final(self)@ == old(self)@,
            },
    {
        let opcode = (val >> 24) & 0xFF;
        if opcode == 0x00 {
            self.gp1_reset();
            Ok(())
        } else if opcode == 0x04 {
            self.gp1_dma_direction(val);
            Ok(())
        } else if opcode == 0x05 {
            self.gp1_display_vram_start(val);
            Ok(())
        } else if opcode == 0x06 {
            self.gp1_display_hirozontal_range(val);
            Ok(())
        } else if opcode == 0x07 {
            self.gp1_display_vertical_range(val);
            Ok(())
        } else if opcode == 0x08 {
            self.gp1_display_mode(val)
        } else {
            Err(Fault::UnhandledGp1(val))
        }
    }

    /// Hands the accepted GP0 words to the embedder and empties the queue.
    pub fn drain_gp0_words(&mut self) -> (r: Vec<u32>)
        ensures
            r@ == old(self)@.words,
            final(self)@ == (GpuV { words: Seq::<u32>::empty(), ..old(self)@ }),
    {
        let mut drained: Vec<u32> = Vec::new();
        core::mem::swap(&mut drained, &mut self.gp0_words);
        drained
    }

    /// The accepted GP0 words not yet drained.
    pub fn gp0_words(&self) -> (r: &Vec<u32>)
        ensures
            r@ == self@.words,
    {
        &self.gp0_words
    }
}

} // verus!
