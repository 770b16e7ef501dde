//! One DMA channel: its register file and derived activity logic.

use vstd::prelude::*;

use crate::fault::Fault;

verus! {

/// Transfer direction relative to main RAM.
#[derive(Clone, Copy, Debug, PartialEq, Eq, Structural)]
pub enum Direction {
    ToRam,
    FromRam,
}

/// Address step applied after every transferred word.
#[derive(Clone, Copy, Debug, PartialEq, Eq, Structural)]
pub enum Step {
    Increment,
    Decrement,
}

/// Transfer strategy of a channel.
#[derive(Clone, Copy, Debug, PartialEq, Eq, Structural)]
pub enum Sync {
    /// CPU-triggered, fixed size.
    Manual,
    /// Peripheral-paced, block size times block count.
    Request,
    /// Chained variable-size nodes.
    LinkedList,
}

/// The bit each direction reads back as in the control register.
pub open spec fn direction_bit(d: Direction) -> u32 {
    match d {
        Direction::ToRam => 0,
        Direction::FromRam => 1,
    }
}

/// The bit each step reads back as in the control register.
pub open spec fn step_bit(s: Step) -> u32 {
    match s {
        Step::Increment => 0,
        Step::Decrement => 1,
    }
}

/// The two-bit field each sync mode reads back as in the control register.
pub open spec fn sync_bits(s: Sync) -> u32 {
    match s {
        Sync::Manual => 0,
        Sync::Request => 1,
        Sync::LinkedList => 2,
    }
}

/// Per-channel register file.
#[derive(Clone, Copy, Debug, PartialEq, Eq, Structural)]
pub struct Channel {
    pub enable: bool,
    pub direction: Direction,
    pub step: Step,
    pub sync: Sync,
    pub trigger: bool,
    pub chop: bool,
    pub chop_dma_sz: u8,
    pub chop_cpu_sz: u8,
    pub dummy: u8,
    pub base: u32,
    pub block_size: u16,
    pub block_count: u16,
}

/// The control word read back from the channel's register file.
pub open spec fn spec_control(c: Channel) -> u32 {
    direction_bit(c.direction) | (step_bit(c.step) << 1) | ((if c.chop {
        1u32
    } else {
        0u32
    }) << 8) | (sync_bits(c.sync) << 9) | ((c.chop_dma_sz as u32) << 16) | ((c.chop_cpu_sz as u32)
        << 20) | ((if c.enable {
        1u32
    } else {
        0u32
    }) << 24) | ((if c.trigger {
        1u32
    } else {
        0u32
    }) << 28) | ((c.dummy as u32) << 29)
}

/// The channel after a control-register write; the reserved sync value is a
/// fault.
pub open spec fn spec_set_control(c: Channel, val: u32) -> Result<Channel, Fault> {
    if (val >> 9) & 3 == 3 {
        Err(Fault::UnknownDmaSync((val >> 9) & 3))
    } else {
        Ok(
            Channel {
                direction: if val & 1 != 0 {
                    Direction::FromRam
                } else {
                    Direction::ToRam
                },
                step: if (val >> 1) & 1 != 0 {
                    Step::Decrement
                } else {
                    Step::Increment
                },
                chop: (val >> 8) & 1 != 0,
                sync: if (val >> 9) & 3 == 0 {
                    Sync::Manual
                } else if (val >> 9) & 3 == 1 {
                    Sync::Request
                } else {
                    Sync::LinkedList
                },
                chop_dma_sz: ((val >> 16) & 7) as u8,
                chop_cpu_sz: ((val >> 20) & 7) as u8,
                enable: (val >> 24) & 1 != 0,
                trigger: (val >> 28) & 1 != 0,
                dummy: ((val >> 29) & 3) as u8,
                ..c
            },
        )
    }
}

/// Every stored field fits the slot its register gives it.  No control or
/// base write can produce anything wider; a channel built directly with
/// wider fields would not read back field by field.
pub open spec fn channel_wf(c: Channel) -> bool {
    &&& c.chop_dma_sz <= 7
    &&& c.chop_cpu_sz <= 7
    &&& c.dummy <= 3
    &&& c.base <= 0x00FF_FFFF
}

/// Writing back a read control word reproduces the control state: for a
/// well-formed channel every field the control register encodes decodes to
/// itself, and the base and block registers are untouched by the write.
pub proof fn lemma_control_roundtrip(c: Channel, d: Channel)
    requires
        channel_wf(c),
    ensures
        spec_set_control(d, spec_control(c)) == Ok::<Channel, Fault>(
            Channel { base: d.base, block_size: d.block_size, block_count: d.block_count, ..c },
        ),
{
    let w = spec_control(c);
    let db = direction_bit(c.direction);
    let sb = step_bit(c.step);
    let yb = sync_bits(c.sync);
    let ch: u32 = if c.chop {
        1
    } else {
        0
    };
    let en: u32 = if c.enable {
        1
    } else {
        0
    };
    let tr: u32 = if c.trigger {
        1
    } else {
        0
    };
    let dma_sz = c.chop_dma_sz;
    let cpu_sz = c.chop_cpu_sz;
    let dummy = c.dummy;
    assert(w & 1 == db && (w >> 1) & 1 == sb && (w >> 8) & 1 == ch && (w >> 9) & 3 == yb && (w
        >> 16) & 7 == dma_sz && (w >> 20) & 7 == cpu_sz && (w >> 24) & 1 == en && (w >> 28) & 1
        == tr && (w >> 29) & 3 == dummy) by (bit_vector)
        requires
            w == db | (sb << 1) | (ch << 8) | (yb << 9) | ((dma_sz as u32) << 16) | ((cpu_sz
                as u32) << 20) | (en << 24) | (tr << 28) | ((dummy as u32) << 29) && db <= 1 && sb
                <= 1 && ch <= 1 && yb <= 2 && dma_sz <= 7 && cpu_sz <= 7 && en <= 1 && tr <= 1
                && dummy <= 3,
    ;
}

/// Finishing a transfer reads back as the control word with only the enable
/// and trigger bits cleared, for a well-formed channel.
pub proof fn lemma_done_control(c: Channel)
    requires
        channel_wf(c),
    ensures
        spec_control(Channel { enable: false, trigger: false, ..c }) == spec_control(c) & !((1u32
            << 24) | (1u32 << 28)),
{
    let w = spec_control(c);
    let w2 = spec_control(Channel { enable: false, trigger: false, ..c });
    let db = direction_bit(c.direction);
    let sb = step_bit(c.step);
    let yb = sync_bits(c.sync);
    let ch: u32 = if c.chop {
        1
    } else {
        0
    };
    let en: u32 = if c.enable {
        1
    } else {
        0
    };
    let tr: u32 = if c.trigger {
        1
    } else {
        0
    };
    let dma_sz = c.chop_dma_sz;
    let cpu_sz = c.chop_cpu_sz;
    let dummy = c.dummy;
    assert(w2 == (w & !((1u32 << 24) | (1u32 << 28)))) by (bit_vector)
        requires
            w == db | (sb << 1) | (ch << 8) | (yb << 9) | ((dma_sz as u32) << 16) | ((cpu_sz
                as u32) << 20) | (en << 24) | (tr << 28) | ((dummy as u32) << 29) && w2 == db | (sb
                << 1) | (ch << 8) | (yb << 9) | ((dma_sz as u32) << 16) | ((cpu_sz as u32) << 20)
                | (0u32 << 24) | (0u32 << 28) | ((dummy as u32) << 29) && db <= 1 && sb <= 1 && ch <= 1 && yb <= 2 && dma_sz <= 7
                && cpu_sz <= 7 && en <= 1 && tr <= 1 && dummy <= 3,
    ;
}

/// A channel is active when enabled, and in manual sync also triggered.
pub open spec fn spec_active(c: Channel) -> bool {
    c.enable && (match c.sync {
        Sync::Manual => c.trigger,
        _ => true,
    })
}

/// The fixed transfer size, when the sync mode has one.
pub open spec fn spec_transfer_size(c: Channel) -> Option<u32> {
    match c.sync {
        Sync::Manual => Some(c.block_size as u32),
        Sync::Request => Some((c.block_count as int * c.block_size as int) as u32),
        Sync::LinkedList => None,
    }
}

/// The power-on state of a channel: everything clear, to-RAM, incrementing,
/// manual sync.
pub open spec fn idle_channel() -> Channel {
    Channel {
        enable: false,
        direction: Direction::ToRam,
        step: Step::Increment,
        sync: Sync::Manual,
        trigger: false,
        chop: false,
        chop_dma_sz: 0,
        chop_cpu_sz: 0,
        dummy: 0,
        base: 0,
        block_size: 0,
        block_count: 0,
    }
}

impl Channel {
    /// Power-on state.
    pub fn new() -> (r: Channel)
        ensures
            r == idle_channel(),
            channel_wf(r),
    {
        Channel {
            enable: false,
            direction: Direction::ToRam,
            step: Step::Increment,
            sync: Sync::Manual,
            trigger: false,
            chop: false,
            chop_dma_sz: 0,
            chop_cpu_sz: 0,
            dummy: 0,
            base: 0,
            block_size: 0,
            block_count: 0,
        }
    }

    /// Reads the control register back from the stored fields.
    pub fn control(&self) -> (r: u32)
        ensures
            r == spec_control(*self),
    {
        let d: u32 = match self.direction {
            Direction::ToRam => 0,
            Direction::FromRam => 1,
        };
        let s: u32 = match self.step {
            Step::Increment => 0,
            Step::Decrement => 1,
        };
        let y: u32 = match self.sync {
            Sync::Manual => 0,
            Sync::Request => 1,
            Sync::LinkedList => 2,
        };
        d | (s << 1) | ((if self.chop {
            1u32
        } else {
            0u32
        }) << 8) | (y << 9) | ((self.chop_dma_sz as u32) << 16) | ((self.chop_cpu_sz as u32) << 20)
            | ((if self.enable {
            1u32
        } else {
            0u32
        }) << 24) | ((if self.trigger {
            1u32
        } else {
            0u32
        }) << 28) | ((self.dummy as u32) << 29)
    }

    /// Writes the control register, decoding every field; the reserved sync
    /// mode is a fault and leaves the channel unchanged.
    pub fn set_control(&mut self, val: u32) -> (r: Result<(), Fault>)
        ensures
            match spec_set_control(*old(self), val) {
                Ok(c) => r is Ok && *final(self) == c,
                Err(f) => r == Err::<(), Fault>(f) && *final(self) == *old(self),
            },
            channel_wf(*old(self)) ==> channel_wf(*final(self)),
    {
        let sync_field = (val >> 9) & 3;
        if sync_field == 3 {
            return Err(Fault::UnknownDmaSync(sync_field));
        }
        self.direction = if val & 1 != 0 {
            Direction::FromRam
        } else {
            Direction::ToRam
        };
        self.step = if (val >> 1) & 1 != 0 {
            Step::Decrement
        } else {
            Step::Increment
        };
        self.chop = (val >> 8) & 1 != 0;
        self.sync = if sync_field == 0 {
            Sync::Manual
        } else if sync_field == 1 {
            Sync::Request
        } else {
            Sync::LinkedList
        };
        proof {
            assert((val >> 16) & 7 <= 7 && (val >> 20) & 7 <= 7 && (val >> 29) & 3 <= 3)
                by (bit_vector);
        }
        self.chop_dma_sz = ((val >> 16) & 7) as u8;
        self.chop_cpu_sz = ((val >> 20) & 7) as u8;
        self.enable = (val >> 24) & 1 != 0;
        self.trigger = (val >> 28) & 1 != 0;
        self.dummy = ((val >> 29) & 3) as u8;
        Ok(())
    }

    /// The 24-bit base address register.
    pub fn base(&self) -> (r: u32)
        ensures
            r == self.base,
    {
        self.base
    }

    /// Writes the base address register, masked to 24 bits.
    pub fn set_base(&mut self, val: u32)
        ensures
            *final(self) == (Channel { base: val & 0x00FF_FFFF, ..*old(self) }),
            channel_wf(*old(self)) ==> channel_wf(*final(self)),
    {
        proof {
            assert(val & 0x00FF_FFFF <= 0x00FF_FFFF) by (bit_vector);
        }
        self.base = val & 0x00FF_FFFF;
    }

    /// Reads the block-control register: count in the high half, size in the
    /// low half.
    pub fn block_control(&self) -> (r: u32)
        ensures
            r == ((self.block_count as u32) << 16) | (self.block_size as u32),
    {
        let bs = self.block_size as u32;
        let bc = self.block_count as u32;
        (bc << 16) | bs
    }

    /// Writes the block-control register.
    pub fn set_block_control(&mut self, val: u32)
        ensures
            *final(self) == (Channel {
                block_size: val as u16,
                block_count: (val >> 16) as u16,
                ..*old(self)
            }),
    {
        self.block_size = val as u16;
        self.block_count = (val >> 16) as u16;
    }

    /// Whether a transfer must run now.
    pub fn active(&self) -> (r: bool)
        ensures
            r == spec_active(*self),
    {
        let trigger = match self.sync {
            Sync::Manual => self.trigger,
            _ => true,
        };
        self.enable && trigger
    }

    /// Transfer direction.
    pub fn direction(&self) -> (r: Direction)
        ensures
            r == self.direction,
    {
        self.direction
    }

    /// Address step.
    pub fn step(&self) -> (r: Step)
        ensures
            r == self.step,
    {
        self.step
    }

    /// Sync mode.
    pub fn sync(&self) -> (r: Sync)
        ensures
            r == self.sync,
    {
        self.sync
    }

    /// The number of words a block transfer moves; linked-list transfers have
    /// no fixed size and must be walked.
    pub fn transfer_size(&self) -> (r: Option<u32>)
        ensures
            r == spec_transfer_size(*self),
    {
        let bs = self.block_size as u32;
        let bc = self.block_count as u32;
        match self.sync {
            Sync::Manual => Some(bs),
            Sync::Request => {
                proof {
                    assert(bc * bs < 0x1_0000_0000) by (nonlinear_arith)
                        requires
                            bc < 0x1_0000 && bs < 0x1_0000,
                    ;
                }
                Some(bc * bs)
            },
            Sync::LinkedList => None,
        }
    }

    /// Marks the transfer finished: enable and trigger fall.
    pub fn done(&mut self)
        ensures
            *final(self) == (Channel { enable: false, trigger: false, ..*old(self) }),
    {
        self.enable = false;
        self.trigger = false;
    }
}

} // verus!
