//! The DMA controller: seven channels plus the global control and interrupt
//! registers.

use vstd::prelude::*;

use crate::channel::Channel;
use crate::channel::idle_channel;

verus! {

/// The peripheral port each channel serves.
#[derive(Clone, Copy, Debug, PartialEq, Eq, Structural)]
pub enum Port {
    /// Macroblock decoder input.
    MdecIn,
    /// Macroblock decoder output.
    MdecOut,
    /// Graphics processor.
    Gpu,
    /// CD-ROM drive.
    CdRom,
    /// Sound processor.
    Spu,
    /// Extension port.
    Pio,
    /// Ordering-table clear, used to set up the GPU's linked lists.
    Otc,
}

/// The channel index a port occupies in the register file.
pub open spec fn port_index(p: Port) -> int {
    match p {
        Port::MdecIn => 0,
        Port::MdecOut => 1,
        Port::Gpu => 2,
        Port::CdRom => 3,
        Port::Spu => 4,
        Port::Pio => 5,
        Port::Otc => 6,
    }
}

/// The port at a channel index; the inverse of `port_index`.
pub open spec fn spec_port(i: int) -> Port {
    if i == 0 {
        Port::MdecIn
    } else if i == 1 {
        Port::MdecOut
    } else if i == 2 {
        Port::Gpu
    } else if i == 3 {
        Port::CdRom
    } else if i == 4 {
        Port::Spu
    } else if i == 5 {
        Port::Pio
    } else {
        Port::Otc
    }
}

impl Port {
    /// The port a channel index selects.
    pub fn from_index(index: u32) -> (r: Port)
        requires
            index < 7,
        ensures
            r == spec_port(index as int),
            port_index(r) == index,
    {
        match index {
            0 => Port::MdecIn,
            1 => Port::MdecOut,
            2 => Port::Gpu,
            3 => Port::CdRom,
            4 => Port::Spu,
            5 => Port::Pio,
            _ => Port::Otc,
        }
    }
}

/// Mathematical model of the controller: the register values and the seven
/// channels in index order.
#[verifier::ext_equal]
pub struct DmaV {
    pub control: u32,
    pub irq_en: bool,
    pub channel_irq_en: u8,
    pub channel_irq_flags: u8,
    pub force_irq: bool,
    pub irq_dummy: u8,
    pub channels: Seq<Channel>,
}

/// The combined interrupt line: forced, or enabled with any enabled channel
/// flag set.
pub open spec fn spec_irq(d: DmaV) -> bool {
    d.force_irq || (d.irq_en && d.channel_irq_flags & d.channel_irq_en != 0)
}

/// The interrupt register read back from the stored fields.
pub open spec fn spec_interrupt(d: DmaV) -> u32 {
    (d.irq_dummy as u32) | ((if d.force_irq {
        1u32
    } else {
        0u32
    }) << 15) | ((d.channel_irq_en as u32) << 16) | ((if d.irq_en {
        1u32
    } else {
        0u32
    }) << 23) | ((d.channel_irq_flags as u32) << 24) | ((if spec_irq(d) {
        1u32
    } else {
        0u32
    }) << 31)
}

/// The controller after an interrupt-register write: writing one of the
/// seven per-channel flag bits high acknowledges it.
pub open spec fn spec_set_interrupt(d: DmaV, val: u32) -> DmaV {
    DmaV {
        irq_dummy: (val & 0x3F) as u8,
        force_irq: (val >> 15) & 1 != 0,
        channel_irq_en: ((val >> 16) & 0x7F) as u8,
        irq_en: (val >> 23) & 1 != 0,
        channel_irq_flags: (d.channel_irq_flags & !(((val >> 24) & 0x7F) as u8)),
        ..d
    }
}

/// The controller's power-on state: the reset control value, no interrupts,
/// all channels idle.
pub open spec fn dma_power_on() -> DmaV {
    DmaV {
        control: 0x0765_4321,
        irq_en: false,
        channel_irq_en: 0,
        channel_irq_flags: 0,
        force_irq: false,
        irq_dummy: 0,
        channels: Seq::new(7, |i: int| idle_channel()),
    }
}

/// The DMA controller register file.
pub struct Dma {
    control: u32,
    irq_en: bool,
    channel_irq_en: u8,
    channel_irq_flags: u8,
    force_irq: bool,
    irq_dummy: u8,
    channels: [Channel; 7],
}

impl View for Dma {
    type V = DmaV;

    closed spec fn view(&self) -> DmaV {
        DmaV {
            control: self.control,
            irq_en: self.irq_en,
            channel_irq_en: self.channel_irq_en,
            channel_irq_flags: self.channel_irq_flags,
            force_irq: self.force_irq,
            irq_dummy: self.irq_dummy,
            channels: self.channels@,
        }
    }
}

impl Dma {
    /// The register file always holds exactly seven channels.
    pub open spec fn wf(&self) -> bool {
        self@.channels.len() == 7
    }

    /// Power-on state: the reset value of the control register and idle
    /// channels.
    pub fn new() -> (r: Dma)
        ensures
            r.wf(),
            r@ == dma_power_on(),
    {
        let r = Dma {
            control: 0x0765_4321,
            irq_en: false,
            channel_irq_en: 0,
            channel_irq_flags: 0,
            force_irq: false,
            irq_dummy: 0,
            channels: [Channel::new(); 7],
        };
        proof {
            assert(r@.channels =~= dma_power_on().channels);
            assert(r@ =~= dma_power_on());
        }
        r
    }

    /// The global control register.
    pub fn control(&self) -> (r: u32)
        ensures
            r == self@.control,
    {
        self.control
    }

    /// Writes the global control register.
    pub fn set_control(&mut self, val: u32)
        ensures
            final(self)@ == (DmaV { control: val, ..old(self)@ }),
    {
        self.control = val;
        proof {
            assert(final(self)@ =~= (DmaV { control: val, ..old(self)@ }));
        }
    }

    /// The combined interrupt line.
    pub fn irq(&self) -> (r: bool)
        ensures
            r == spec_irq(self@),
    {
        let channel_irq = self.channel_irq_flags & self.channel_irq_en;
        self.force_irq || (self.irq_en && channel_irq != 0)
    }

    /// Reads the interrupt register.
    pub fn interrupt(&self) -> (r: u32)
        ensures
            r == spec_interrupt(self@),
    {
        let irq_bit: u32 = if self.irq() {
            1
        } else {
            0
        };
        (self.irq_dummy as u32) | ((if self.force_irq {
            1u32
        } else {
            0u32
        }) << 15) | ((self.channel_irq_en as u32) << 16) | ((if self.irq_en {
            1u32
        } else {
            0u32
        }) << 23) | ((self.channel_irq_flags as u32) << 24) | (irq_bit << 31)
    }

    /// Writes the interrupt register.
    pub fn set_interrupt(&mut self, val: u32)
        ensures
            final(self)@ == spec_set_interrupt(old(self)@, val),
    {
        proof {
            assert((val & 0x3F) <= 0xFF && ((val >> 16) & 0x7F) <= 0xFF && ((val >> 24) & 0x7F)
                <= 0xFF) by (bit_vector);
        }
        self.irq_dummy = (val & 0x3F) as u8;
        self.force_irq = (val >> 15) & 1 != 0;
        self.channel_irq_en = ((val >> 16) & 0x7F) as u8;
        self.irq_en = (val >> 23) & 1 != 0;
        let ack = ((val >> 24) & 0x7F) as u8;
        self.channel_irq_flags = self.channel_irq_flags & !ack;
        proof {
            assert(final(self)@ =~= spec_set_interrupt(old(self)@, val));
        }
    }

    /// Borrows the channel a port selects.
    pub fn channel(&self, port: Port) -> (c: &Channel)
        requires
            self.wf(),
        ensures
            *c == self@.channels[port_index(port)],
    {
        let index: usize = match port {
            Port::MdecIn => 0,
            Port::MdecOut => 1,
            Port::Gpu => 2,
            Port::CdRom => 3,
            Port::Spu => 4,
            Port::Pio => 5,
            Port::Otc => 6,
        };
        &self.channels[index]
    }

    /// Mutably borrows the channel a port selects.
    pub fn channel_mut(&mut self, port: Port) -> (c: &mut Channel)
        requires
            old(self).wf(),
        ensures
            *c == old(self)@.channels[port_index(port)],
            final(self)@ == (DmaV {
                channels: old(self)@.channels.update(port_index(port), *final(c)),
                ..old(self)@
            }),
    {
        let index: usize = match port {
            Port::MdecIn => 0,
            Port::MdecOut => 1,
            Port::Gpu => 2,
            Port::CdRom => 3,
            Port::Spu => 4,
            Port::Pio => 5,
            Port::Otc => 6,
        };
        &mut self.channels[index]
    }
}

} // verus!
