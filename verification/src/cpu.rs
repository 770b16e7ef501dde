//! The CPU core: fetch, decode, execute, with the two-buffer register file,
//! the one-slot delayed load, branch-delay sequencing and the coprocessor-0
//! exception protocol.

use vstd::prelude::*;

use crate::fault::Fault;
use crate::instruction::{
    spec_cop_opcode, spec_d, spec_function, spec_imm, spec_imm_jump, spec_imm_se, spec_s,
    spec_shift, spec_subfunction, spec_t, Instruction,
};
use crate::interconnect::{
    bus_wf, spec_load16, spec_load32, spec_load8, spec_store16, spec_store32, spec_store8, BusV,
    Interconnect,
};

verus! {

/// The guest-visible exception causes the core delivers through the
/// coprocessor-0 protocol.
#[derive(Clone, Copy, Debug, PartialEq, Eq, Structural)]
pub enum Exception {
    LoadAddressError,
    StoreAddressError,
    SysCall,
    Break,
    CoprocessorError,
    Overflow,
}

/// The cause code each exception carries.
pub open spec fn spec_exception_code(e: Exception) -> u32 {
    match e {
        Exception::LoadAddressError => 0x04,
        Exception::StoreAddressError => 0x05,
        Exception::SysCall => 0x08,
        Exception::Break => 0x09,
        Exception::CoprocessorError => 0x0B,
        Exception::Overflow => 0x0C,
    }
}

/// Mathematical model of the CPU: registers, pipeline bookkeeping, the
/// coprocessor-0 state and the bus it drives.
#[verifier::ext_equal]
pub struct CpuV {
    /// Address of the instruction about to execute.
    pub pc: u32,
    /// Address of the instruction after that; branches redirect it.
    pub next_pc: u32,
    /// Address of the instruction currently executing, kept for exceptions.
    pub current_pc: u32,
    /// The register file reads observe.
    pub regs: Seq<u32>,
    /// The staging register file writes go to; visible from the next step.
    pub out_regs: Seq<u32>,
    /// Coprocessor-0 status register.
    pub sr: u32,
    /// Coprocessor-0 cause register.
    pub cause: u32,
    /// Coprocessor-0 exception program counter.
    pub epc: u32,
    /// Target register of the pending delayed load.
    pub load_reg: u32,
    /// Value of the pending delayed load.
    pub load_val: u32,
    /// Multiply/divide result, high half.
    pub hi: u32,
    /// Multiply/divide result, low half.
    pub lo: u32,
    /// Whether the executing instruction took a branch.
    pub branch: bool,
    /// Whether the executing instruction sits in a branch-delay slot.
    pub delay_slot: bool,
    /// The bus and everything behind it.
    pub bus: BusV,
}

/// A write to the staging registers: register zero stays hard-wired to zero.
pub open spec fn set_reg_spec(regs: Seq<u32>, index: u32, val: u32) -> Seq<u32> {
    regs.update(index as int, val).update(0, 0)
}

/// The exception protocol: push a privilege level onto the status stack,
/// record cause and faulting address, redirect to the handler vector.  A
/// fault in a branch-delay slot records the branch itself and flags bit 31.
#[verifier::opaque]
pub open spec fn spec_exception(c: CpuV, e: Exception) -> CpuV {
    let handler: u32 = if c.sr & 0x0040_0000 != 0 {
        0xBFC0_0180
    } else {
        0x8000_0080
    };
    let mode = c.sr & 0x3F;
    let sr = (c.sr & !0x3F) | ((mode << 2) & 0x3F);
    let cause = spec_exception_code(e) << 2;
    if c.delay_slot {
        CpuV {
            sr,
            cause: cause | 0x8000_0000,
            epc: c.current_pc.wrapping_sub(4),
            pc: handler,
            next_pc: handler.wrapping_add(4),
            ..c
        }
    } else {
        CpuV { sr, cause, epc: c.current_pc, pc: handler, next_pc: handler.wrapping_add(4), ..c }
    }
}

/// A register-supplied shift amount is masked to five bits, so it is a
/// legal shift.
pub proof fn lemma_shift_mask(x: u32)
    by (bit_vector)
    ensures
        x & 0x1F < 32,
{
}

/// A taken branch: the delay slot still executes, only the address after it
/// is redirected.
pub open spec fn spec_branch(c: CpuV, offset: u32) -> CpuV {
    CpuV { next_pc: c.pc.wrapping_add(offset << 2), branch: true, ..c }
}

/// Load upper immediate.
#[verifier::opaque]
pub open spec fn spec_op_lui(c: CpuV, iw: u32) -> CpuV {
    CpuV { out_regs: set_reg_spec(c.out_regs, spec_t(iw), spec_imm(iw) << 16), ..c }
}

/// Bitwise or with immediate.
#[verifier::opaque]
pub open spec fn spec_op_ori(c: CpuV, iw: u32) -> CpuV {
    CpuV {
        out_regs: set_reg_spec(c.out_regs, spec_t(iw), c.regs[spec_s(iw) as int] | spec_imm(iw)),
        ..c
    }
}

/// Bitwise and with immediate.
#[verifier::opaque]
pub open spec fn spec_op_andi(c: CpuV, iw: u32) -> CpuV {
    CpuV {
        out_regs: set_reg_spec(c.out_regs, spec_t(iw), c.regs[spec_s(iw) as int] & spec_imm(iw)),
        ..c
    }
}

/// Bitwise exclusive or with immediate.
#[verifier::opaque]
pub open spec fn spec_op_xori(c: CpuV, iw: u32) -> CpuV {
    CpuV {
        out_regs: set_reg_spec(c.out_regs, spec_t(iw), c.regs[spec_s(iw) as int] ^ spec_imm(iw)),
        ..c
    }
}

/// Shift left logical by the encoded amount.
#[verifier::opaque]
pub open spec fn spec_op_sll(c: CpuV, iw: u32) -> CpuV {
    CpuV {
        out_regs: set_reg_spec(c.out_regs, spec_d(iw), c.regs[spec_t(iw) as int] << spec_shift(iw)),
        ..c
    }
}

/// Shift right logical by the encoded amount.
#[verifier::opaque]
pub open spec fn spec_op_srl(c: CpuV, iw: u32) -> CpuV {
    CpuV {
        out_regs: set_reg_spec(c.out_regs, spec_d(iw), c.regs[spec_t(iw) as int] >> spec_shift(iw)),
        ..c
    }
}

/// Shift right arithmetic by the encoded amount.
#[verifier::opaque]
pub open spec fn spec_op_sra(c: CpuV, iw: u32) -> CpuV {
    CpuV {
        out_regs: set_reg_spec(
            c.out_regs,
            spec_d(iw),
            (((c.regs[spec_t(iw) as int] as i32) >> spec_shift(iw)) as u32),
        ),
        ..c
    }
}

/// Shift left logical by a register amount, masked to five bits.
#[verifier::opaque]
pub open spec fn spec_op_sllv(c: CpuV, iw: u32) -> CpuV {
    CpuV {
        out_regs: set_reg_spec(
            c.out_regs,
            spec_d(iw),
            c.regs[spec_t(iw) as int] << (c.regs[spec_s(iw) as int] & 0x1F),
        ),
        ..c
    }
}

/// Shift right logical by a register amount, masked to five bits.
#[verifier::opaque]
pub open spec fn spec_op_srlv(c: CpuV, iw: u32) -> CpuV {
    CpuV {
        out_regs: set_reg_spec(
            c.out_regs,
            spec_d(iw),
            c.regs[spec_t(iw) as int] >> (c.regs[spec_s(iw) as int] & 0x1F),
        ),
        ..c
    }
}

/// Shift right arithmetic by a register amount, masked to five bits.
#[verifier::opaque]
pub open spec fn spec_op_srav(c: CpuV, iw: u32) -> CpuV {
    CpuV {
        out_regs: set_reg_spec(
            c.out_regs,
            spec_d(iw),
            (((c.regs[spec_t(iw) as int] as i32) >> (c.regs[spec_s(iw) as int] & 0x1F)) as u32),
        ),
        ..c
    }
}

/// Whether the signed sum of two register values leaves the 32-bit range.
pub open spec fn spec_add_overflows(x: u32, y: u32) -> bool {
    (x as i32) + (y as i32) > i32::MAX || (x as i32) + (y as i32) < i32::MIN
}

/// Whether the signed difference of two register values leaves the 32-bit
/// range.
pub open spec fn spec_sub_overflows(x: u32, y: u32) -> bool {
    (x as i32) - (y as i32) > i32::MAX || (x as i32) - (y as i32) < i32::MIN
}

/// Signed add: traps on overflow instead of writing the destination.
#[verifier::opaque]
pub open spec fn spec_op_add(c: CpuV, iw: u32) -> CpuV {
    let x = c.regs[spec_s(iw) as int];
    let y = c.regs[spec_t(iw) as int];
    if spec_add_overflows(x, y) {
        spec_exception(c, Exception::Overflow)
    } else {
        CpuV {
            out_regs: set_reg_spec(
                c.out_regs,
                spec_d(iw),
                ((((x as i32) + (y as i32)) as i32) as u32),
            ),
            ..c
        }
    }
}

/// Unsigned add: wraps silently.
#[verifier::opaque]
pub open spec fn spec_op_addu(c: CpuV, iw: u32) -> CpuV {
    CpuV {
        out_regs: set_reg_spec(
            c.out_regs,
            spec_d(iw),
            c.regs[spec_s(iw) as int].wrapping_add(c.regs[spec_t(iw) as int]),
        ),
        ..c
    }
}

/// Signed subtract: traps on overflow instead of writing the destination.
#[verifier::opaque]
pub open spec fn spec_op_sub(c: CpuV, iw: u32) -> CpuV {
    let x = c.regs[spec_s(iw) as int];
    let y = c.regs[spec_t(iw) as int];
    if spec_sub_overflows(x, y) {
        spec_exception(c, Exception::Overflow)
    } else {
        CpuV {
            out_regs: set_reg_spec(
                c.out_regs,
                spec_d(iw),
                ((((x as i32) - (y as i32)) as i32) as u32),
            ),
            ..c
        }
    }
}

/// Unsigned subtract: wraps silently.
#[verifier::opaque]
pub open spec fn spec_op_subu(c: CpuV, iw: u32) -> CpuV {
    CpuV {
        out_regs: set_reg_spec(
            c.out_regs,
            spec_d(iw),
            c.regs[spec_s(iw) as int].wrapping_sub(c.regs[spec_t(iw) as int]),
        ),
        ..c
    }
}

/// Signed add immediate: traps on overflow.
#[verifier::opaque]
pub open spec fn spec_op_addi(c: CpuV, iw: u32) -> CpuV {
    let x = c.regs[spec_s(iw) as int];
    let y = spec_imm_se(iw);
    if spec_add_overflows(x, y) {
        spec_exception(c, Exception::Overflow)
    } else {
        CpuV {
            out_regs: set_reg_spec(
                c.out_regs,
                spec_t(iw),
                ((((x as i32) + (y as i32)) as i32) as u32),
            ),
            ..c
        }
    }
}

/// Add immediate unsigned: wraps silently.
#[verifier::opaque]
pub open spec fn spec_op_addiu(c: CpuV, iw: u32) -> CpuV {
    CpuV {
        out_regs: set_reg_spec(
            c.out_regs,
            spec_t(iw),
            c.regs[spec_s(iw) as int].wrapping_add(spec_imm_se(iw)),
        ),
        ..c
    }
}

/// Bitwise and.
#[verifier::opaque]
pub open spec fn spec_op_and(c: CpuV, iw: u32) -> CpuV {
    CpuV {
        out_regs: set_reg_spec(
            c.out_regs,
            spec_d(iw),
            c.regs[spec_s(iw) as int] & c.regs[spec_t(iw) as int],
        ),
        ..c
    }
}

/// Bitwise or.
#[verifier::opaque]
pub open spec fn spec_op_or(c: CpuV, iw: u32) -> CpuV {
    CpuV {
        out_regs: set_reg_spec(
            c.out_regs,
            spec_d(iw),
            c.regs[spec_s(iw) as int] | c.regs[spec_t(iw) as int],
        ),
        ..c
    }
}

/// Bitwise exclusive or.
#[verifier::opaque]
pub open spec fn spec_op_xor(c: CpuV, iw: u32) -> CpuV {
    CpuV {
        out_regs: set_reg_spec(
            c.out_regs,
            spec_d(iw),
            c.regs[spec_s(iw) as int] ^ c.regs[spec_t(iw) as int],
        ),
        ..c
    }
}

/// Bitwise not-or.
#[verifier::opaque]
pub open spec fn spec_op_nor(c: CpuV, iw: u32) -> CpuV {
    CpuV {
        out_regs: set_reg_spec(
            c.out_regs,
            spec_d(iw),
            !(c.regs[spec_s(iw) as int] | c.regs[spec_t(iw) as int]),
        ),
        ..c
    }
}

/// Set on signed less-than.
#[verifier::opaque]
pub open spec fn spec_op_slt(c: CpuV, iw: u32) -> CpuV {
    let v: u32 = if (c.regs[spec_s(iw) as int] as i32) < (c.regs[spec_t(iw) as int] as i32) {
        1
    } else {
        0
    };
    CpuV { out_regs: set_reg_spec(c.out_regs, spec_d(iw), v), ..c }
}

/// Set on unsigned less-than.
#[verifier::opaque]
pub open spec fn spec_op_sltu(c: CpuV, iw: u32) -> CpuV {
    let v: u32 = if c.regs[spec_s(iw) as int] < c.regs[spec_t(iw) as int] {
        1
    } else {
        0
    };
    CpuV { out_regs: set_reg_spec(c.out_regs, spec_d(iw), v), ..c }
}

/// Set on signed less-than immediate.
#[verifier::opaque]
pub open spec fn spec_op_slti(c: CpuV, iw: u32) -> CpuV {
    let v: u32 = if (c.regs[spec_s(iw) as int] as i32) < (spec_imm_se(iw) as i32) {
        1
    } else {
        0
    };
    CpuV { out_regs: set_reg_spec(c.out_regs, spec_t(iw), v), ..c }
}

/// Set on unsigned less-than immediate.
#[verifier::opaque]
pub open spec fn spec_op_sltiu(c: CpuV, iw: u32) -> CpuV {
    let v: u32 = if c.regs[spec_s(iw) as int] < spec_imm_se(iw) {
        1
    } else {
        0
    };
    CpuV { out_regs: set_reg_spec(c.out_regs, spec_t(iw), v), ..c }
}

/// The 64-bit signed product split across HI and LO.
#[verifier::opaque]
pub open spec fn spec_op_mult(c: CpuV, iw: u32) -> CpuV {
    let a = (c.regs[spec_s(iw) as int] as i32) as i64;
    let b = (c.regs[spec_t(iw) as int] as i32) as i64;
    let v = ((a * b) as i64) as u64;
    CpuV { hi: (v >> 32) as u32, lo: v as u32, ..c }
}

/// The 64-bit unsigned product split across HI and LO.
#[verifier::opaque]
pub open spec fn spec_op_multu(c: CpuV, iw: u32) -> CpuV {
    let a = c.regs[spec_s(iw) as int] as u64;
    let b = c.regs[spec_t(iw) as int] as u64;
    let v = (a * b) as u64;
    CpuV { hi: (v >> 32) as u32, lo: v as u32, ..c }
}

/// The magnitude of a register value read as signed: the two's complement of
/// a negative value, the value itself otherwise.
pub open spec fn spec_magnitude(x: u32) -> u32 {
    if x >= 0x8000_0000 {
        (0u32).wrapping_sub(x)
    } else {
        x
    }
}

/// The LO result of signed division for a non-zero divisor outside the
/// overflow case: the truncated quotient, negated when the signs differ.
pub open spec fn spec_div_lo(n: u32, d: u32) -> u32 {
    let q = (spec_magnitude(n) as int / spec_magnitude(d) as int) as u32;
    if (n >= 0x8000_0000) != (d >= 0x8000_0000) {
        (0u32).wrapping_sub(q)
    } else {
        q
    }
}

/// The HI result of signed division for a non-zero divisor outside the
/// overflow case: the remainder, carrying the dividend's sign.
pub open spec fn spec_div_hi(n: u32, d: u32) -> u32 {
    let r = (spec_magnitude(n) as int % spec_magnitude(d) as int) as u32;
    if n >= 0x8000_0000 {
        (0u32).wrapping_sub(r)
    } else {
        r
    }
}

/// Signed division, never trapping: division by zero yields LO of all-ones
/// for a non-negative dividend and one otherwise with HI the dividend, and
/// the most negative dividend divided by minus one yields itself with HI
/// zero, as the hardware does.
#[verifier::opaque]
pub open spec fn spec_op_div(c: CpuV, iw: u32) -> CpuV {
    let n = c.regs[spec_s(iw) as int];
    let d = c.regs[spec_t(iw) as int];
    if d == 0 {
        CpuV {
            hi: n,
            lo: if n < 0x8000_0000 {
                0xFFFF_FFFF
            } else {
                1
            },
            ..c
        }
    } else if n == 0x8000_0000 && d == 0xFFFF_FFFF {
        CpuV { hi: 0, lo: 0x8000_0000, ..c }
    } else {
        CpuV { hi: spec_div_hi(n, d), lo: spec_div_lo(n, d), ..c }
    }
}

/// Unsigned division, never trapping: division by zero yields LO of all-ones
/// with HI the dividend.
#[verifier::opaque]
pub open spec fn spec_op_divu(c: CpuV, iw: u32) -> CpuV {
    let n = c.regs[spec_s(iw) as int];
    let d = c.regs[spec_t(iw) as int];
    if d == 0 {
        CpuV { hi: n, lo: 0xFFFF_FFFF, ..c }
    } else {
        CpuV { hi: (n as int % d as int) as u32, lo: (n as int / d as int) as u32, ..c }
    }
}

/// Move from HI.
#[verifier::opaque]
pub open spec fn spec_op_mfhi(c: CpuV, iw: u32) -> CpuV {
    CpuV { out_regs: set_reg_spec(c.out_regs, spec_d(iw), c.hi), ..c }
}

/// Move from LO.
#[verifier::opaque]
pub open spec fn spec_op_mflo(c: CpuV, iw: u32) -> CpuV {
    CpuV { out_regs: set_reg_spec(c.out_regs, spec_d(iw), c.lo), ..c }
}

/// Move to HI.
#[verifier::opaque]
pub open spec fn spec_op_mthi(c: CpuV, iw: u32) -> CpuV {
    CpuV { hi: c.regs[spec_s(iw) as int], ..c }
}

/// Move to LO.
#[verifier::opaque]
pub open spec fn spec_op_mtlo(c: CpuV, iw: u32) -> CpuV {
    CpuV { lo: c.regs[spec_s(iw) as int], ..c }
}

/// Jump within the current 256 MiB segment.
#[verifier::opaque]
pub open spec fn spec_op_j(c: CpuV, iw: u32) -> CpuV {
    CpuV { next_pc: (c.pc & 0xF000_0000) | (spec_imm_jump(iw) << 2), ..c }
}

/// Jump and link: the return address lands in register 31.
#[verifier::opaque]
pub open spec fn spec_op_jal(c: CpuV, iw: u32) -> CpuV {
    let linked = CpuV { out_regs: set_reg_spec(c.out_regs, 31, c.pc), ..c };
    CpuV { next_pc: (linked.pc & 0xF000_0000) | (spec_imm_jump(iw) << 2), ..linked }
}

/// Jump to a register address.
#[verifier::opaque]
pub open spec fn spec_op_jr(c: CpuV, iw: u32) -> CpuV {
    CpuV { next_pc: c.regs[spec_s(iw) as int], ..c }
}

/// Jump to a register address, linking into the encoded destination.
#[verifier::opaque]
pub open spec fn spec_op_jalr(c: CpuV, iw: u32) -> CpuV {
    CpuV {
        out_regs: set_reg_spec(c.out_regs, spec_d(iw), c.pc),
        next_pc: c.regs[spec_s(iw) as int],
        ..c
    }
}

/// Branch on equal.
#[verifier::opaque]
pub open spec fn spec_op_beq(c: CpuV, iw: u32) -> CpuV {
    if c.regs[spec_s(iw) as int] == c.regs[spec_t(iw) as int] {
        spec_branch(c, spec_imm_se(iw))
    } else {
        c
    }
}

/// Branch on not equal.
#[verifier::opaque]
pub open spec fn spec_op_bne(c: CpuV, iw: u32) -> CpuV {
    if c.regs[spec_s(iw) as int] != c.regs[spec_t(iw) as int] {
        spec_branch(c, spec_imm_se(iw))
    } else {
        c
    }
}

/// Branch on less than or equal to zero, signed.
#[verifier::opaque]
pub open spec fn spec_op_blez(c: CpuV, iw: u32) -> CpuV {
    if (c.regs[spec_s(iw) as int] as i32) <= 0 {
        spec_branch(c, spec_imm_se(iw))
    } else {
        c
    }
}

/// Branch on greater than zero, signed.
#[verifier::opaque]
pub open spec fn spec_op_bgtz(c: CpuV, iw: u32) -> CpuV {
    if (c.regs[spec_s(iw) as int] as i32) > 0 {
        spec_branch(c, spec_imm_se(iw))
    } else {
        c
    }
}

/// The branch-on-condition-of-zero family, decoded from bits 16 and 20:17:
/// less-than or greater-or-equal, each with an optional link.
#[verifier::opaque]
pub open spec fn spec_op_bxx(c: CpuV, iw: u32) -> CpuV {
    let is_bgez = (iw >> 16) & 0x01;
    let is_link = (iw >> 17) & 0x0F == 0x08;
    let test0: u32 = if (c.regs[spec_s(iw) as int] as i32) < 0 {
        1
    } else {
        0
    };
    let test = test0 ^ is_bgez;
    let linked = if is_link {
        CpuV { out_regs: set_reg_spec(c.out_regs, 31, c.pc), ..c }
    } else {
        c
    };
    if test != 0 {
        spec_branch(linked, spec_imm_se(iw))
    } else {
        linked
    }
}

/// System call: delivered as an exception.
#[verifier::opaque]
pub open spec fn spec_op_syscall(c: CpuV, iw: u32) -> CpuV {
    spec_exception(c, Exception::SysCall)
}

/// Breakpoint: delivered as an exception.
#[verifier::opaque]
pub open spec fn spec_op_break(c: CpuV, iw: u32) -> CpuV {
    spec_exception(c, Exception::Break)
}

/// Move to coprocessor 0.  Breakpoint registers and the cause register take
/// only zero writes; the status register is held; anything else is a fault.
#[verifier::opaque]
pub open spec fn spec_op_mtc0(c: CpuV, iw: u32) -> Result<CpuV, Fault> {
    let cop_r = spec_d(iw);
    let v = c.regs[spec_t(iw) as int];
    if cop_r == 3 || cop_r == 5 || cop_r == 6 || cop_r == 7 || cop_r == 9 || cop_r == 11 {
        if v != 0 {
            Err(Fault::UnhandledCop0Write(cop_r))
        } else {
            Ok(c)
        }
    } else if cop_r == 12 {
        Ok(CpuV { sr: v, ..c })
    } else if cop_r == 13 {
        if v != 0 {
            Err(Fault::UnhandledCop0Write(cop_r))
        } else {
            Ok(c)
        }
    } else {
        Err(Fault::UnhandledCop0Write(cop_r))
    }
}

/// Move from coprocessor 0: status, cause or EPC, through the load-delay
/// slot.
#[verifier::opaque]
pub open spec fn spec_op_mfc0(c: CpuV, iw: u32) -> Result<CpuV, Fault> {
    let cop_r = spec_d(iw);
    if cop_r == 12 {
        Ok(CpuV { load_reg: spec_t(iw), load_val: c.sr, ..c })
    } else if cop_r == 13 {
        Ok(CpuV { load_reg: spec_t(iw), load_val: c.cause, ..c })
    } else if cop_r == 14 {
        Ok(CpuV { load_reg: spec_t(iw), load_val: c.epc, ..c })
    } else {
        Err(Fault::UnhandledCop0Read(cop_r))
    }
}

/// Return from exception: pop the privilege stack; EPC and cause are kept.
#[verifier::opaque]
pub open spec fn spec_op_rfe(c: CpuV, iw: u32) -> Result<CpuV, Fault> {
    if iw & 0x3F != 0b010000 {
        Err(Fault::InvalidRfe(iw))
    } else {
        Ok(CpuV { sr: (c.sr & !0x3F) | ((c.sr & 0x3F) >> 2), ..c })
    }
}

/// The coprocessor-0 group.
#[verifier::opaque]
pub open spec fn spec_op_cop0(c: CpuV, iw: u32) -> Result<CpuV, Fault> {
    let op = spec_cop_opcode(iw);
    if op == 0b00100 {
        spec_op_mtc0(c, iw)
    } else if op == 0b00000 {
        spec_op_mfc0(c, iw)
    } else if op == 0b10000 {
        spec_op_rfe(c, iw)
    } else {
        Err(Fault::UnhandledCopInstruction(iw))
    }
}

/// Sign-extended byte load, through the load-delay slot.
#[verifier::opaque]
pub open spec fn spec_op_lb(c: CpuV, iw: u32) -> Result<CpuV, Fault> {
    let addr = c.regs[spec_s(iw) as int].wrapping_add(spec_imm_se(iw));
    match spec_load8(c.bus, addr) {
        Ok(v) => Ok(CpuV { load_reg: spec_t(iw), load_val: (((v as i8) as i32) as u32), ..c }),
        Err(f) => Err(f),
    }
}

/// Zero-extended byte load, through the load-delay slot.
#[verifier::opaque]
pub open spec fn spec_op_lbu(c: CpuV, iw: u32) -> Result<CpuV, Fault> {
    let addr = c.regs[spec_s(iw) as int].wrapping_add(spec_imm_se(iw));
    match spec_load8(c.bus, addr) {
        Ok(v) => Ok(CpuV { load_reg: spec_t(iw), load_val: v as u32, ..c }),
        Err(f) => Err(f),
    }
}

/// Sign-extended halfword load, through the load-delay slot.
#[verifier::opaque]
pub open spec fn spec_op_lh(c: CpuV, iw: u32) -> Result<CpuV, Fault> {
    let addr = c.regs[spec_s(iw) as int].wrapping_add(spec_imm_se(iw));
    match spec_load16(c.bus, addr) {
        Ok(v) => Ok(CpuV { load_reg: spec_t(iw), load_val: (((v as i16) as i32) as u32), ..c }),
        Err(f) => Err(f),
    }
}

/// Zero-extended halfword load, through the load-delay slot; a misaligned
/// address raises the load address-error exception.
#[verifier::opaque]
pub open spec fn spec_op_lhu(c: CpuV, iw: u32) -> Result<CpuV, Fault> {
    let addr = c.regs[spec_s(iw) as int].wrapping_add(spec_imm_se(iw));
    if addr % 2 == 0 {
        match spec_load16(c.bus, addr) {
            Ok(v) => Ok(CpuV { load_reg: spec_t(iw), load_val: v as u32, ..c }),
            Err(f) => Err(f),
        }
    } else {
        Ok(spec_exception(c, Exception::LoadAddressError))
    }
}

/// Word load, through the load-delay slot; dropped while the cache is
/// isolated; a misaligned address raises the load address-error exception.
#[verifier::opaque]
pub open spec fn spec_op_lw(c: CpuV, iw: u32) -> Result<CpuV, Fault> {
    if c.sr & 0x1_0000 != 0 {
        Ok(c)
    } else {
        let addr = c.regs[spec_s(iw) as int].wrapping_add(spec_imm_se(iw));
        if addr % 4 == 0 {
            match spec_load32(c.bus, addr) {
                Ok(v) => Ok(CpuV { load_reg: spec_t(iw), load_val: v, ..c }),
                Err(f) => Err(f),
            }
        } else {
            Ok(spec_exception(c, Exception::LoadAddressError))
        }
    }
}

/// Unaligned word load, left part: merges the high bytes of the aligned word
/// into the staging value already pending for the target register.
#[verifier::opaque]
pub open spec fn spec_op_lwl(c: CpuV, iw: u32) -> Result<CpuV, Fault> {
    let addr = c.regs[spec_s(iw) as int].wrapping_add(spec_imm_se(iw));
    let cur_v = c.out_regs[spec_t(iw) as int];
    let aligned = addr & 0xFFFF_FFFC;
    match spec_load32(c.bus, aligned) {
        Ok(w) => {
            let v = if addr & 0x03 == 0 {
                (cur_v & 0x00FF_FFFF) | (w << 24)
            } else if addr & 0x03 == 1 {
                (cur_v & 0x0000_FFFF) | (w << 16)
            } else if addr & 0x03 == 2 {
                (cur_v & 0x0000_00FF) | (w << 8)
            } else {
                w
            };
            Ok(CpuV { load_reg: spec_t(iw), load_val: v, ..c })
        },
        Err(f) => Err(f),
    }
}

/// Unaligned word load, right part.
#[verifier::opaque]
pub open spec fn spec_op_lwr(c: CpuV, iw: u32) -> Result<CpuV, Fault> {
    let addr = c.regs[spec_s(iw) as int].wrapping_add(spec_imm_se(iw));
    let cur_v = c.out_regs[spec_t(iw) as int];
    let aligned = addr & 0xFFFF_FFFC;
    match spec_load32(c.bus, aligned) {
        Ok(w) => {
            let v = if addr & 0x03 == 0 {
                w
            } else if addr & 0x03 == 1 {
                (cur_v & 0xFF00_0000) | (w >> 8)
            } else if addr & 0x03 == 2 {
                (cur_v & 0xFFFF_0000) | (w >> 16)
            } else {
                (cur_v & 0xFFFF_FF00) | (w >> 24)
            };
            Ok(CpuV { load_reg: spec_t(iw), load_val: v, ..c })
        },
        Err(f) => Err(f),
    }
}

/// Byte store; dropped while the cache is isolated.
#[verifier::opaque]
pub open spec fn spec_op_sb(c: CpuV, iw: u32) -> Result<CpuV, Fault> {
    if c.sr & 0x1_0000 != 0 {
        Ok(c)
    } else {
        let addr = c.regs[spec_s(iw) as int].wrapping_add(spec_imm_se(iw));
        match spec_store8(c.bus, addr, c.regs[spec_t(iw) as int] as u8) {
            Ok(b2) => Ok(CpuV { bus: b2, ..c }),
            Err(f) => Err(f),
        }
    }
}

/// Halfword store; dropped while the cache is isolated; a misaligned address
/// raises the store address-error exception.
#[verifier::opaque]
pub open spec fn spec_op_sh(c: CpuV, iw: u32) -> Result<CpuV, Fault> {
    if c.sr & 0x1_0000 != 0 {
        Ok(c)
    } else {
        let addr = c.regs[spec_s(iw) as int].wrapping_add(spec_imm_se(iw));
        if addr % 2 == 0 {
            match spec_store16(c.bus, addr, c.regs[spec_t(iw) as int] as u16) {
                Ok(b2) => Ok(CpuV { bus: b2, ..c }),
                Err(f) => Err(f),
            }
        } else {
            Ok(spec_exception(c, Exception::StoreAddressError))
        }
    }
}

/// Word store; dropped while the cache is isolated; a misaligned address
/// raises the store address-error exception.
#[verifier::opaque]
pub open spec fn spec_op_sw(c: CpuV, iw: u32) -> Result<CpuV, Fault> {
    if c.sr & 0x1_0000 != 0 {
        Ok(c)
    } else {
        let addr = c.regs[spec_s(iw) as int].wrapping_add(spec_imm_se(iw));
        if addr % 4 == 0 {
            match spec_store32(c.bus, addr, c.regs[spec_t(iw) as int]) {
                Ok(b2) => Ok(CpuV { bus: b2, ..c }),
                Err(f) => Err(f),
            }
        } else {
            Ok(spec_exception(c, Exception::StoreAddressError))
        }
    }
}

/// Unaligned word store, left part: merges the register's high bytes into
/// the aligned word; dropped while the cache is isolated.
#[verifier::opaque]
pub open spec fn spec_op_swl(c: CpuV, iw: u32) -> Result<CpuV, Fault> {
    if c.sr & 0x1_0000 != 0 {
        Ok(c)
    } else {
        let addr = c.regs[spec_s(iw) as int].wrapping_add(spec_imm_se(iw));
        let v = c.regs[spec_t(iw) as int];
        let aligned = addr & 0xFFFF_FFFC;
        match spec_load32(c.bus, aligned) {
            Ok(cur) => {
                let merged = if addr & 0x03 == 0 {
                    (cur & 0xFFFF_FF00) | (v >> 24)
                } else if addr & 0x03 == 1 {
                    (cur & 0xFFFF_0000) | (v >> 16)
                } else if addr & 0x03 == 2 {
                    (cur & 0xFF00_0000) | (v >> 8)
                } else {
                    v
                };
                match spec_store32(c.bus, aligned, merged) {
                    Ok(b2) => Ok(CpuV { bus: b2, ..c }),
                    Err(f) => Err(f),
                }
            },
            Err(f) => Err(f),
        }
    }
}

/// Unaligned word store, right part; dropped while the cache is isolated.
#[verifier::opaque]
pub open spec fn spec_op_swr(c: CpuV, iw: u32) -> Result<CpuV, Fault> {
    if c.sr & 0x1_0000 != 0 {
        Ok(c)
    } else {
        let addr = c.regs[spec_s(iw) as int].wrapping_add(spec_imm_se(iw));
        let v = c.regs[spec_t(iw) as int];
        let aligned = addr & 0xFFFF_FFFC;
        match spec_load32(c.bus, aligned) {
            Ok(cur) => {
                let merged = if addr & 0x03 == 0 {
                    v
                } else if addr & 0x03 == 1 {
                    (cur & 0x0000_00FF) | (v << 8)
                } else if addr & 0x03 == 2 {
                    (cur & 0x0000_FFFF) | (v << 16)
                } else {
                    (cur & 0x00FF_FFFF) | (v << 24)
                };
                match spec_store32(c.bus, aligned, merged) {
                    Ok(b2) => Ok(CpuV { bus: b2, ..c }),
                    Err(f) => Err(f),
                }
            },
            Err(f) => Err(f),
        }
    }
}

/// One decoded instruction executed against the machine: the register
/// transfers, branches, memory traffic and exceptions of the whole
/// instruction set, or the fault for an encoding the core does not decode.
pub open spec fn spec_execute(c: CpuV, iw: u32) -> Result<CpuV, Fault> {
    let f = spec_function(iw);
    if f == 0 {
        let sub = spec_subfunction(iw);
        if sub == 0x00 {
            Ok(spec_op_sll(c, iw))
        } else if sub == 0x02 {
            Ok(spec_op_srl(c, iw))
        } else if sub == 0x03 {
            Ok(spec_op_sra(c, iw))
        } else if sub == 0x04 {
            Ok(spec_op_sllv(c, iw))
        } else if sub == 0x06 {
            Ok(spec_op_srlv(c, iw))
        } else if sub == 0x07 {
            Ok(spec_op_srav(c, iw))
        } else if sub == 0x08 {
            Ok(spec_op_jr(c, iw))
        } else if sub == 0x09 {
            Ok(spec_op_jalr(c, iw))
        } else if sub == 0x0C {
            Ok(spec_op_syscall(c, iw))
        } else if sub == 0x0D {
            Ok(spec_op_break(c, iw))
        } else if sub == 0x10 {
            Ok(spec_op_mfhi(c, iw))
        } else if sub == 0x11 {
            Ok(spec_op_mthi(c, iw))
        } else if sub == 0x12 {
            Ok(spec_op_mflo(c, iw))
        } else if sub == 0x13 {
            Ok(spec_op_mtlo(c, iw))
        } else if sub == 0x18 {
            Ok(spec_op_mult(c, iw))
        } else if sub == 0x19 {
            Ok(spec_op_multu(c, iw))
        } else if sub == 0x1A {
            Ok(spec_op_div(c, iw))
        } else if sub == 0x1B {
            Ok(spec_op_divu(c, iw))
        } else if sub == 0x20 {
            Ok(spec_op_add(c, iw))
        } else if sub == 0x21 {
            Ok(spec_op_addu(c, iw))
        } else if sub == 0x22 {
            Ok(spec_op_sub(c, iw))
        } else if sub == 0x23 {
            Ok(spec_op_subu(c, iw))
        } else if sub == 0x24 {
            Ok(spec_op_and(c, iw))
        } else if sub == 0x25 {
            Ok(spec_op_or(c, iw))
        } else if sub == 0x26 {
            Ok(spec_op_xor(c, iw))
        } else if sub == 0x27 {
            Ok(spec_op_nor(c, iw))
        } else if sub == 0x2A {
            Ok(spec_op_slt(c, iw))
        } else if sub == 0x2B {
            Ok(spec_op_sltu(c, iw))
        } else {
            Err(Fault::UnhandledInstruction(iw))
        }
    } else if f == 0x01 {
        Ok(spec_op_bxx(c, iw))
    } else if f == 0x02 {
        Ok(spec_op_j(c, iw))
    } else if f == 0x03 {
        Ok(spec_op_jal(c, iw))
    } else if f == 0x04 {
        Ok(spec_op_beq(c, iw))
    } else if f == 0x05 {
        Ok(spec_op_bne(c, iw))
    } else if f == 0x06 {
        Ok(spec_op_blez(c, iw))
    } else if f == 0x07 {
        Ok(spec_op_bgtz(c, iw))
    } else if f == 0x08 {
        Ok(spec_op_addi(c, iw))
    } else if f == 0x09 {
        Ok(spec_op_addiu(c, iw))
    } else if f == 0x0A {
        Ok(spec_op_slti(c, iw))
    } else if f == 0x0B {
        Ok(spec_op_sltiu(c, iw))
    } else if f == 0x0C {
        Ok(spec_op_andi(c, iw))
    } else if f == 0x0D {
        Ok(spec_op_ori(c, iw))
    } else if f == 0x0E {
        Ok(spec_op_xori(c, iw))
    } else if f == 0x0F {
        Ok(spec_op_lui(c, iw))
    } else if f == 0x10 {
        spec_op_cop0(c, iw)
    } else if f == 0x11 {
        Ok(spec_exception(c, Exception::CoprocessorError))
    } else if f == 0x12 {
        Err(Fault::UnhandledGteInstruction(iw))
    } else if f == 0x13 {
        Ok(spec_exception(c, Exception::CoprocessorError))
    } else if f == 0x20 {
        spec_op_lb(c, iw)
    } else if f == 0x21 {
        spec_op_lh(c, iw)
    } else if f == 0x22 {
        spec_op_lwl(c, iw)
    } else if f == 0x23 {
        spec_op_lw(c, iw)
    } else if f == 0x24 {
        spec_op_lbu(c, iw)
    } else if f == 0x25 {
        spec_op_lhu(c, iw)
    } else if f == 0x26 {
        spec_op_lwr(c, iw)
    } else if f == 0x28 {
        spec_op_sb(c, iw)
    } else if f == 0x29 {
        spec_op_sh(c, iw)
    } else if f == 0x2A {
        spec_op_swl(c, iw)
    } else if f == 0x2B {
        spec_op_sw(c, iw)
    } else if f == 0x2E {
        spec_op_swr(c, iw)
    } else {
        Err(Fault::UnhandledInstruction(iw))
    }
}

/// One whole pipeline step: check fetch alignment, fetch through the bus,
/// advance the program-counter pair, apply and clear the pending delayed
/// load, record the branch-delay flag, execute, and commit the staging
/// registers.
pub open spec fn spec_step(c0: CpuV) -> Result<CpuV, Fault> {
    let c = CpuV { current_pc: c0.pc, ..c0 };
    if c.current_pc % 4 != 0 {
        Ok(spec_exception(c, Exception::LoadAddressError))
    } else {
        match spec_load32(c.bus, c.pc) {
            Err(f) => Err(f),
            Ok(iw) => {
                let c1 = CpuV { pc: c.next_pc, next_pc: c.next_pc.wrapping_add(4), ..c };
                let c2 = CpuV {
                    out_regs: set_reg_spec(c1.out_regs, c1.load_reg, c1.load_val),
                    load_reg: 0,
                    load_val: 0,
                    ..c1
                };
                let c3 = CpuV { delay_slot: c2.branch, branch: false, ..c2 };
                match spec_execute(c3, iw) {
                    Err(f) => Err(f),
                    Ok(c4) => Ok(CpuV { regs: c4.out_regs, ..c4 }),
                }
            },
        }
    }
}

/// Register zero after any instruction of the special group: every write
/// goes through the staging write that pins slot zero back to zero.
proof fn lemma_execute_zero_special(c: CpuV, iw: u32)
    requires
        c.regs.len() == 32,
        c.out_regs.len() == 32,
        c.regs[0] == 0,
        c.out_regs[0] == 0,
        spec_function(iw) == 0,
    ensures
        spec_execute(c, iw) is Ok ==> (spec_execute(c, iw)->Ok_0).out_regs[0] == 0 && (spec_execute(
            c,
            iw,
        )->Ok_0).regs[0] == 0,
{
    crate::instruction::lemma_field_bounds(iw);
    reveal(spec_exception);
    reveal(spec_op_sll);
    reveal(spec_op_srl);
    reveal(spec_op_sra);
    reveal(spec_op_sllv);
    reveal(spec_op_srlv);
    reveal(spec_op_srav);
    reveal(spec_op_jr);
    reveal(spec_op_jalr);
    reveal(spec_op_syscall);
    reveal(spec_op_break);
    reveal(spec_op_mfhi);
    reveal(spec_op_mthi);
    reveal(spec_op_mflo);
    reveal(spec_op_mtlo);
    reveal(spec_op_mult);
    reveal(spec_op_multu);
    reveal(spec_op_div);
    reveal(spec_op_divu);
    reveal(spec_op_add);
    reveal(spec_op_addu);
    reveal(spec_op_sub);
    reveal(spec_op_subu);
    reveal(spec_op_and);
    reveal(spec_op_or);
    reveal(spec_op_xor);
    reveal(spec_op_nor);
    reveal(spec_op_slt);
    reveal(spec_op_sltu);
}

/// Register zero after any branch, jump or immediate instruction.
proof fn lemma_execute_zero_imm(c: CpuV, iw: u32)
    requires
        c.regs.len() == 32,
        c.out_regs.len() == 32,
        c.regs[0] == 0,
        c.out_regs[0] == 0,
        0x01 <= spec_function(iw) <= 0x0F,
    ensures
        spec_execute(c, iw) is Ok ==> (spec_execute(c, iw)->Ok_0).out_regs[0] == 0 && (spec_execute(
            c,
            iw,
        )->Ok_0).regs[0] == 0,
{
    crate::instruction::lemma_field_bounds(iw);
    reveal(spec_exception);
    reveal(spec_op_bxx);
    reveal(spec_op_j);
    reveal(spec_op_jal);
    reveal(spec_op_beq);
    reveal(spec_op_bne);
    reveal(spec_op_blez);
    reveal(spec_op_bgtz);
    reveal(spec_op_addi);
    reveal(spec_op_addiu);
    reveal(spec_op_slti);
    reveal(spec_op_sltiu);
    reveal(spec_op_andi);
    reveal(spec_op_ori);
    reveal(spec_op_xori);
    reveal(spec_op_lui);
}

/// Register zero after any coprocessor or memory instruction.
proof fn lemma_execute_zero_mem(c: CpuV, iw: u32)
    requires
        c.regs.len() == 32,
        c.out_regs.len() == 32,
        c.regs[0] == 0,
        c.out_regs[0] == 0,
        spec_function(iw) > 0x0F,
    ensures
        spec_execute(c, iw) is Ok ==> (spec_execute(c, iw)->Ok_0).out_regs[0] == 0 && (spec_execute(
            c,
            iw,
        )->Ok_0).regs[0] == 0,
{
    crate::instruction::lemma_field_bounds(iw);
    reveal(spec_exception);
    reveal(spec_op_cop0);
    reveal(spec_op_mtc0);
    reveal(spec_op_mfc0);
    reveal(spec_op_rfe);
    reveal(spec_op_lb);
    reveal(spec_op_lh);
    reveal(spec_op_lwl);
    reveal(spec_op_lw);
    reveal(spec_op_lbu);
    reveal(spec_op_lhu);
    reveal(spec_op_lwr);
    reveal(spec_op_sb);
    reveal(spec_op_sh);
    reveal(spec_op_swl);
    reveal(spec_op_sw);
    reveal(spec_op_swr);
}

/// Register zero stays zero across one whole step/// Register zero stays zero across one whole step: every write to the
/// register file pins slot zero back to zero, so no instruction, whatever
/// its operands, can make a read of register zero return anything else.
pub proof fn lemma_register_zero(c: CpuV)
    requires
        cpu_wf(c),
        spec_step(c) is Ok,
    ensures
        (spec_step(c)->Ok_0).regs[0] == 0,
        (spec_step(c)->Ok_0).out_regs[0] == 0,
{
    reveal(spec_exception);
    if c.pc % 4 == 0 && spec_load32(c.bus, c.pc) is Ok {
        let iw = spec_load32(c.bus, c.pc)->Ok_0;
        let c1 = CpuV {
            pc: c.next_pc,
            next_pc: c.next_pc.wrapping_add(4),
            ..(CpuV { current_pc: c.pc, ..c })
        };
        let c2 = CpuV {
            out_regs: set_reg_spec(c1.out_regs, c1.load_reg, c1.load_val),
            load_reg: 0,
            load_val: 0,
            ..c1
        };
        let c3 = CpuV { delay_slot: c2.branch, branch: false, ..c2 };
        if spec_function(iw) == 0 {
            lemma_execute_zero_special(c3, iw);
        } else if spec_function(iw) <= 0x0F {
            lemma_execute_zero_imm(c3, iw);
        } else {
            lemma_execute_zero_mem(c3, iw);
        }
    }
}

/// Division by zero raises no exception/// Division by zero raises no exception: LO holds all-ones for a
/// non-negative dividend and one for a negative one, and HI holds the
/// dividend itself.
pub proof fn lemma_div_by_zero(c: CpuV, iw: u32)
    requires
        cpu_wf(c),
        c.regs[spec_t(iw) as int] == 0,
    ensures
        spec_op_div(c, iw).hi == c.regs[spec_s(iw) as int],
        (c.regs[spec_s(iw) as int] as i32) >= 0 ==> spec_op_div(c, iw).lo == 0xFFFF_FFFF,
        (c.regs[spec_s(iw) as int] as i32) < 0 ==> spec_op_div(c, iw).lo == 1,
        spec_op_div(c, iw) == (CpuV { hi: spec_op_div(c, iw).hi, lo: spec_op_div(c, iw).lo, ..c }),
{
    reveal(spec_op_div);
    let x = c.regs[spec_s(iw) as int];
    assert(((x as i32) >= 0) <==> x < 0x8000_0000) by (bit_vector);
}

/// Dividing the most negative value by minus one raises no exception and
/// yields the dividend back in LO with HI zero, as the hardware does.
pub proof fn lemma_div_most_negative(c: CpuV, iw: u32)
    requires
        cpu_wf(c),
        c.regs[spec_s(iw) as int] == 0x8000_0000,
        c.regs[spec_t(iw) as int] == 0xFFFF_FFFF,
    ensures
        spec_op_div(c, iw).lo == 0x8000_0000,
        spec_op_div(c, iw).hi == 0,
        spec_op_div(c, iw) == (CpuV { hi: 0, lo: 0x8000_0000, ..c }),
{
    reveal(spec_op_div);
}

/// The signed add and subtract forms deliver the Overflow exception exactly
/// when the mathematical result on the signed interpretations leaves the
/// signed 32-bit range; the unsigned forms never raise anything and wrap
/// modulo two to the thirty-second.
pub proof fn lemma_arith_overflow_exact(c: CpuV, iw: u32)
    requires
        cpu_wf(c),
    ensures
        ({
            let x = c.regs[spec_s(iw) as int];
            let y = c.regs[spec_t(iw) as int];
            let i = spec_imm_se(iw);
            &&& spec_op_add(c, iw) == (if (x as i32) + (y as i32) > i32::MAX || (x as i32) + (y as i32) < i32::MIN {
                spec_exception(c, Exception::Overflow)
            } else {
                CpuV {
                    out_regs: set_reg_spec(
                        c.out_regs,
                        spec_d(iw),
                        ((((x as i32) + (y as i32)) as i32) as u32),
                    ),
                    ..c
                }
            })
            &&& spec_op_sub(c, iw) == (if (x as i32) - (y as i32) > i32::MAX || (x as i32) - (y as i32) < i32::MIN {
                spec_exception(c, Exception::Overflow)
            } else {
                CpuV {
                    out_regs: set_reg_spec(
                        c.out_regs,
                        spec_d(iw),
                        ((((x as i32) - (y as i32)) as i32) as u32),
                    ),
                    ..c
                }
            })
            &&& spec_op_addi(c, iw) == (if (x as i32) + (i as i32) > i32::MAX || (x as i32) + (i as i32) < i32::MIN {
                spec_exception(c, Exception::Overflow)
            } else {
                CpuV {
                    out_regs: set_reg_spec(
                        c.out_regs,
                        spec_t(iw),
                        ((((x as i32) + (i as i32)) as i32) as u32),
                    ),
                    ..c
                }
            })
            &&& spec_op_addu(c, iw) == (CpuV {
                out_regs: set_reg_spec(c.out_regs, spec_d(iw), ((x + y) % 0x1_0000_0000) as u32),
                ..c
            })
            &&& spec_op_subu(c, iw) == (CpuV {
                out_regs: set_reg_spec(
                    c.out_regs,
                    spec_d(iw),
                    ((x - y + 0x1_0000_0000) % 0x1_0000_0000) as u32,
                ),
                ..c
            })
            &&& spec_op_addiu(c, iw) == (CpuV {
                out_regs: set_reg_spec(c.out_regs, spec_t(iw), ((x + i) % 0x1_0000_0000) as u32),
                ..c
            })
        }),
{
    reveal(spec_op_add);
    reveal(spec_op_sub);
    reveal(spec_op_addi);
    reveal(spec_op_addu);
    reveal(spec_op_subu);
    reveal(spec_op_addiu);
}

/// Whether the fetched word is a branch whose condition holds in the state
/// it executes against.
pub open spec fn spec_is_taken_branch(c: CpuV, iw: u32) -> bool {
    let f = spec_function(iw);
    ||| f == 0x04 && c.regs[spec_s(iw) as int] == c.regs[spec_t(iw) as int]
    ||| f == 0x05 && c.regs[spec_s(iw) as int] != c.regs[spec_t(iw) as int]
    ||| f == 0x06 && (c.regs[spec_s(iw) as int] as i32) <= 0
    ||| f == 0x07 && (c.regs[spec_s(iw) as int] as i32) > 0
    ||| f == 0x01 && ((if (c.regs[spec_s(iw) as int] as i32) < 0 {
        1u32
    } else {
        0u32
    }) ^ ((iw >> 16) & 0x01)) != 0
}

/// The branch-delay invariant: a step that executes a taken branch fetched
/// from address A leaves the program counter at the old successor address
/// (A plus four under normal sequencing), so the delay-slot instruction
/// executes before control reaches the branch target, which lands in the
/// next program counter relative to the delay slot.
pub proof fn lemma_branch_delay(c: CpuV)
    requires
        cpu_wf(c),
        c.pc % 4 == 0,
        spec_load32(c.bus, c.pc) is Ok,
        spec_is_taken_branch(c, spec_load32(c.bus, c.pc)->Ok_0),
    ensures
        spec_step(c) is Ok,
        (spec_step(c)->Ok_0).pc == c.next_pc,
        (spec_step(c)->Ok_0).next_pc == c.next_pc.wrapping_add(
            spec_imm_se(spec_load32(c.bus, c.pc)->Ok_0) << 2,
        ),
        (spec_step(c)->Ok_0).branch,
{
    reveal(spec_op_beq);
    reveal(spec_op_bne);
    reveal(spec_op_blez);
    reveal(spec_op_bgtz);
    reveal(spec_op_bxx);
}

/// The load-delay invariant, first half: a word load leaves the fetched
/// value in the delay slot and the visible register file still shows the
/// old value during the following instruction; with no older load pending,
/// the target register is unchanged by the loading step itself.
pub proof fn lemma_load_delay(c: CpuV)
    requires
        cpu_wf(c),
        c.pc % 4 == 0,
        c.load_reg == 0,
        c.sr & 0x1_0000 == 0,
        spec_load32(c.bus, c.pc) is Ok,
        spec_function(spec_load32(c.bus, c.pc)->Ok_0) == 0x23,
        c.regs[spec_s(spec_load32(c.bus, c.pc)->Ok_0) as int].wrapping_add(
            spec_imm_se(spec_load32(c.bus, c.pc)->Ok_0),
        ) % 4 == 0,
        spec_load32(
            c.bus,
            c.regs[spec_s(spec_load32(c.bus, c.pc)->Ok_0) as int].wrapping_add(
                spec_imm_se(spec_load32(c.bus, c.pc)->Ok_0),
            ),
        ) is Ok,
    ensures
        spec_step(c) is Ok,
        (spec_step(c)->Ok_0).load_reg == spec_t(spec_load32(c.bus, c.pc)->Ok_0),
        (spec_step(c)->Ok_0).load_val == spec_load32(
            c.bus,
            c.regs[spec_s(spec_load32(c.bus, c.pc)->Ok_0) as int].wrapping_add(
                spec_imm_se(spec_load32(c.bus, c.pc)->Ok_0),
            ),
        )->Ok_0,
        spec_t(spec_load32(c.bus, c.pc)->Ok_0) != 0 ==> (spec_step(c)->Ok_0).regs[spec_t(
            spec_load32(c.bus, c.pc)->Ok_0,
        ) as int] == c.out_regs[spec_t(spec_load32(c.bus, c.pc)->Ok_0) as int],
{
    reveal(spec_op_lw);
    crate::instruction::lemma_field_bounds(spec_load32(c.bus, c.pc)->Ok_0);
}

/// The load-delay invariant, second half: an unaligned-load helper in the
/// very next step that merges into the same register it targets sees the
/// just-loaded value, not the stale visible register.
pub proof fn lemma_load_delay_chain(c: CpuV)
    requires
        cpu_wf(c),
        c.pc % 4 == 0,
        c.load_reg != 0,
        spec_load32(c.bus, c.pc) is Ok,
        spec_function(spec_load32(c.bus, c.pc)->Ok_0) == 0x22,
        spec_t(spec_load32(c.bus, c.pc)->Ok_0) == c.load_reg,
        spec_load32(
            c.bus,
            c.regs[spec_s(spec_load32(c.bus, c.pc)->Ok_0) as int].wrapping_add(
                spec_imm_se(spec_load32(c.bus, c.pc)->Ok_0),
            ) & 0xFFFF_FFFC,
        ) is Ok,
        c.regs[spec_s(spec_load32(c.bus, c.pc)->Ok_0) as int].wrapping_add(
            spec_imm_se(spec_load32(c.bus, c.pc)->Ok_0),
        ) & 0x03 == 0,
    ensures
        spec_step(c) is Ok,
        (spec_step(c)->Ok_0).load_val == ((c.load_val & 0x00FF_FFFF) | (spec_load32(
            c.bus,
            c.regs[spec_s(spec_load32(c.bus, c.pc)->Ok_0) as int].wrapping_add(
                spec_imm_se(spec_load32(c.bus, c.pc)->Ok_0),
            ) & 0xFFFF_FFFC,
        )->Ok_0 << 24)),
{
    reveal(spec_op_lwl);
    crate::instruction::lemma_field_bounds(spec_load32(c.bus, c.pc)->Ok_0);
}

/// The CPU core.
pub struct Cpu {
    pc: u32,
    next_pc: u32,
    current_pc: u32,
    regs: [u32; 32],
    out_regs: [u32; 32],
    /// The bus the core drives; the embedder reaches the peripheral ports
    /// through it.
    pub inter: Interconnect,
    sr: u32,
    cause: u32,
    epc: u32,
    load: (u32, u32),
    hi: u32,
    lo: u32,
    branch: bool,
    delay_slot: bool,
}

impl View for Cpu {
    type V = CpuV;

    closed spec fn view(&self) -> CpuV {
        CpuV {
            pc: self.pc,
            next_pc: self.next_pc,
            current_pc: self.current_pc,
            regs: self.regs@,
            out_regs: self.out_regs@,
            sr: self.sr,
            cause: self.cause,
            epc: self.epc,
            load_reg: self.load.0,
            load_val: self.load.1,
            hi: self.hi,
            lo: self.lo,
            branch: self.branch,
            delay_slot: self.delay_slot,
            bus: self.inter@,
        }
    }
}

/// Both register files hold 32 slots with slot zero pinned to zero, the
/// pending load targets a real register, and the bus is well-formed.
pub open spec fn cpu_wf(c: CpuV) -> bool {
    &&& bus_wf(c.bus)
    &&& c.regs.len() == 32
    &&& c.out_regs.len() == 32
    &&& c.regs[0] == 0
    &&& c.out_regs[0] == 0
    &&& c.load_reg < 32
}

impl Cpu {
    /// The machine invariant over the view.
    pub open spec fn wf(&self) -> bool {
        cpu_wf(self@)
    }

    /// Power-on state: execution starts at the reset vector in the boot ROM;
    /// registers other than zero hold a recognizable garbage value.
    pub fn new(inter: Interconnect) -> (r: Cpu)
        requires
            inter.wf(),
        ensures
            r.wf(),
            r@.pc == 0xBFC0_0000,
            r@.next_pc == 0xBFC0_0004,
            r@.sr == 0,
            r@.cause == 0,
            r@.epc == 0,
            r@.load_reg == 0,
            r@.load_val == 0,
            !r@.branch,
            !r@.delay_slot,
            r@.bus == inter@,
            r@.regs[0] == 0,
            r@.regs == r@.out_regs,
    {
        let mut regs = [0xDEAD_BEEFu32; 32];
        regs[0] = 0;
        Cpu {
            pc: 0xBFC0_0000,
            next_pc: 0xBFC0_0004,
            current_pc: 0,
            regs,
            out_regs: regs,
            inter,
            sr: 0,
            cause: 0,
            epc: 0,
            load: (0, 0),
            hi: 0xDEAD_BEEF,
            lo: 0xDEAD_BEEF,
            branch: false,
            delay_slot: false,
        }
    }

    /// Reads a register; reads observe the pre-instruction file.
    fn reg(&self, index: u32) -> (r: u32)
        requires
            index < 32,
    ensures
            r == self@.regs[index as int],
    {
        self.regs[index as usize]
    }

    /// Writes a register into the staging file.  Staging slot zero is pinned
    /// back to zero on every write, so a write that targets register zero is
    /// discarded entirely; any other target takes the value and every other
    /// slot is untouched.
    fn set_reg(&mut self, index: u32, val: u32)
        requires
            index < 32,
            old(self)@.out_regs.len() == 32,
        ensures
            final(self)@ == (CpuV {
                out_regs: set_reg_spec(old(self)@.out_regs, index, val),
                ..old(self)@
            }),
            final(self)@.out_regs[0] == 0,
            index != 0 ==> final(self)@.out_regs[index as int] == val,
            forall|j: int|
                0 <= j < 32 && j != index && j != 0 ==> final(self)@.out_regs[j] == old(
                    self,
                )@.out_regs[j],
    {
        self.out_regs[index as usize] = val;
        self.out_regs[0] = 0;
    }

    /// Delivers a guest-visible exception.  Only the program counters and
    /// the coprocessor-0 registers move; the register files, the pending
    /// load and the bus stay put.
    fn exception(&mut self, e: Exception)
        ensures
            final(self)@ == spec_exception(old(self)@, e),
            final(self)@.regs == old(self)@.regs,
            final(self)@.out_regs == old(self)@.out_regs,
            final(self)@.load_reg == old(self)@.load_reg,
            final(self)@.load_val == old(self)@.load_val,
            final(self)@.bus == old(self)@.bus,
    {
        proof {
            reveal(spec_exception);
        }
        let handler: u32 = if self.sr & 0x0040_0000 != 0 {
            0xBFC0_0180
        } else {
            0x8000_0080
        };
        let mode = self.sr & 0x3F;
        self.sr = (self.sr & !0x3F) | ((mode << 2) & 0x3F);
        let code: u32 = match e {
            Exception::LoadAddressError => 0x04,
            Exception::StoreAddressError => 0x05,
            Exception::SysCall => 0x08,
            Exception::Break => 0x09,
            Exception::CoprocessorError => 0x0B,
            Exception::Overflow => 0x0C,
        };
        self.cause = code << 2;
        self.epc = self.current_pc;
        if self.delay_slot {
            self.epc = self.epc.wrapping_sub(4);
            self.cause = self.cause | 0x8000_0000;
        }
        self.pc = handler;
        self.next_pc = self.pc.wrapping_add(4);
    }

    /// Redirects the address after the delay slot.
    fn branch(&mut self, offset: u32)
        ensures
            final(self)@ == spec_branch(old(self)@, offset),
    {
        let offset = offset << 2;
        self.next_pc = self.pc.wrapping_add(offset);
        self.branch = true;
    }

    fn op_lui(&mut self, instruction: Instruction)
        requires
            old(self).wf(),
        ensures
            final(self).wf(),
            final(self)@ == spec_op_lui(old(self)@, instruction.0),
    {
        proof {
            reveal(spec_op_lui);
        }
        let i = instruction.imm();
        let t = instruction.t();
        self.set_reg(t, i << 16);
    }

    fn op_ori(&mut self, instruction: Instruction)
        requires
            old(self).wf(),
        ensures
            final(self).wf(),
            final(self)@ == spec_op_ori(old(self)@, instruction.0),
    {
        proof {
            reveal(spec_op_ori);
        }
        let v = self.reg(instruction.s()) | instruction.imm();
        self.set_reg(instruction.t(), v);
    }

    fn op_andi(&mut self, instruction: Instruction)
        requires
            old(self).wf(),
        ensures
            final(self).wf(),
            final(self)@ == spec_op_andi(old(self)@, instruction.0),
    {
        proof {
            reveal(spec_op_andi);
        }
        let v = self.reg(instruction.s()) & instruction.imm();
        self.set_reg(instruction.t(), v);
    }

    fn op_xori(&mut self, instruction: Instruction)
        requires
            old(self).wf(),
        ensures
            final(self).wf(),
            final(self)@ == spec_op_xori(old(self)@, instruction.0),
    {
        proof {
            reveal(spec_op_xori);
        }
        let v = self.reg(instruction.s()) ^ instruction.imm();
        self.set_reg(instruction.t(), v);
    }

    fn op_sll(&mut self, instruction: Instruction)
        requires
            old(self).wf(),
        ensures
            final(self).wf(),
            final(self)@ == spec_op_sll(old(self)@, instruction.0),
    {
        proof {
            reveal(spec_op_sll);
        }
        let v = self.reg(instruction.t()) << instruction.shift();
        self.set_reg(instruction.d(), v);
    }

    fn op_srl(&mut self, instruction: Instruction)
        requires
            old(self).wf(),
        ensures
            final(self).wf(),
            final(self)@ == spec_op_srl(old(self)@, instruction.0),
    {
        proof {
            reveal(spec_op_srl);
        }
        let v = self.reg(instruction.t()) >> instruction.shift();
        self.set_reg(instruction.d(), v);
    }

    fn op_sra(&mut self, instruction: Instruction)
        requires
            old(self).wf(),
        ensures
            final(self).wf(),
            final(self)@ == spec_op_sra(old(self)@, instruction.0),
    {
        proof {
            reveal(spec_op_sra);
        }
        let v = (self.reg(instruction.t()) as i32) >> instruction.shift();
        self.set_reg(instruction.d(), v as u32);
    }

    fn op_sllv(&mut self, instruction: Instruction)
        requires
            old(self).wf(),
        ensures
            final(self).wf(),
            final(self)@ == spec_op_sllv(old(self)@, instruction.0),
    {
        proof {
            reveal(spec_op_sllv);
            lemma_shift_mask(self.regs@[spec_s(instruction.0) as int]);
        }
        let v = self.reg(instruction.t()) << (self.reg(instruction.s()) & 0x1F);
        self.set_reg(instruction.d(), v);
    }

    fn op_srlv(&mut self, instruction: Instruction)
        requires
            old(self).wf(),
        ensures
            final(self).wf(),
            final(self)@ == spec_op_srlv(old(self)@, instruction.0),
    {
        proof {
            reveal(spec_op_srlv);
            lemma_shift_mask(self.regs@[spec_s(instruction.0) as int]);
        }
        let v = self.reg(instruction.t()) >> (self.reg(instruction.s()) & 0x1F);
        self.set_reg(instruction.d(), v);
    }

    fn op_srav(&mut self, instruction: Instruction)
        requires
            old(self).wf(),
        ensures
            final(self).wf(),
            final(self)@ == spec_op_srav(old(self)@, instruction.0),
    {
        proof {
            reveal(spec_op_srav);
            lemma_shift_mask(self.regs@[spec_s(instruction.0) as int]);
        }
        let v = (self.reg(instruction.t()) as i32) >> (self.reg(instruction.s()) & 0x1F);
        self.set_reg(instruction.d(), v as u32);
    }

    fn op_add(&mut self, instruction: Instruction)
        requires
            old(self).wf(),
        ensures
            final(self).wf(),
            final(self)@ == spec_op_add(old(self)@, instruction.0),
    {
        proof {
            reveal(spec_op_add);
        }
        let a = self.reg(instruction.s()) as i32;
        let b = self.reg(instruction.t()) as i32;
        match a.checked_add(b) {
            Some(v) => self.set_reg(instruction.d(), v as u32),
            None => self.exception(Exception::Overflow),
        }
    }

    fn op_addu(&mut self, instruction: Instruction)
        requires
            old(self).wf(),
        ensures
            final(self).wf(),
            final(self)@ == spec_op_addu(old(self)@, instruction.0),
    {
        proof {
            reveal(spec_op_addu);
        }
        let v = self.reg(instruction.s()).wrapping_add(self.reg(instruction.t()));
        self.set_reg(instruction.d(), v);
    }

    fn op_sub(&mut self, instruction: Instruction)
        requires
            old(self).wf(),
        ensures
            final(self).wf(),
            final(self)@ == spec_op_sub(old(self)@, instruction.0),
    {
        proof {
            reveal(spec_op_sub);
        }
        let a = self.reg(instruction.s()) as i32;
        let b = self.reg(instruction.t()) as i32;
        match a.checked_sub(b) {
            Some(v) => self.set_reg(instruction.d(), v as u32),
            None => self.exception(Exception::Overflow),
        }
    }

    fn op_subu(&mut self, instruction: Instruction)
        requires
            old(self).wf(),
        ensures
            final(self).wf(),
            final(self)@ == spec_op_subu(old(self)@, instruction.0),
    {
        proof {
            reveal(spec_op_subu);
        }
        let v = self.reg(instruction.s()).wrapping_sub(self.reg(instruction.t()));
        self.set_reg(instruction.d(), v);
    }

    fn op_addi(&mut self, instruction: Instruction)
        requires
            old(self).wf(),
        ensures
            final(self).wf(),
            final(self)@ == spec_op_addi(old(self)@, instruction.0),
    {
        proof {
            reveal(spec_op_addi);
        }
        let i = instruction.imm_se() as i32;
        let a = self.reg(instruction.s()) as i32;
        match a.checked_add(i) {
            Some(v) => self.set_reg(instruction.t(), v as u32),
            None => self.exception(Exception::Overflow),
        }
    }

    fn op_addiu(&mut self, instruction: Instruction)
        requires
            old(self).wf(),
        ensures
            final(self).wf(),
            final(self)@ == spec_op_addiu(old(self)@, instruction.0),
    {
        proof {
            reveal(spec_op_addiu);
        }
        let v = self.reg(instruction.s()).wrapping_add(instruction.imm_se());
        self.set_reg(instruction.t(), v);
    }

    fn op_and(&mut self, instruction: Instruction)
        requires
            old(self).wf(),
        ensures
            final(self).wf(),
            final(self)@ == spec_op_and(old(self)@, instruction.0),
    {
        proof {
            reveal(spec_op_and);
        }
        let v = self.reg(instruction.s()) & self.reg(instruction.t());
        self.set_reg(instruction.d(), v);
    }

    fn op_or(&mut self, instruction: Instruction)
        requires
            old(self).wf(),
        ensures
            final(self).wf(),
            final(self)@ == spec_op_or(old(self)@, instruction.0),
    {
        proof {
            reveal(spec_op_or);
        }
        let v = self.reg(instruction.s()) | self.reg(instruction.t());
        self.set_reg(instruction.d(), v);
    }

    fn op_xor(&mut self, instruction: Instruction)
        requires
            old(self).wf(),
        ensures
            final(self).wf(),
            final(self)@ == spec_op_xor(old(self)@, instruction.0),
    {
        proof {
            reveal(spec_op_xor);
        }
        let v = self.reg(instruction.s()) ^ self.reg(instruction.t());
        self.set_reg(instruction.d(), v);
    }

    fn op_nor(&mut self, instruction: Instruction)
        requires
            old(self).wf(),
        ensures
            final(self).wf(),
            final(self)@ == spec_op_nor(old(self)@, instruction.0),
    {
        proof {
            reveal(spec_op_nor);
        }
        let v = !(self.reg(instruction.s()) | self.reg(instruction.t()));
        self.set_reg(instruction.d(), v);
    }

    fn op_slt(&mut self, instruction: Instruction)
        requires
            old(self).wf(),
        ensures
            final(self).wf(),
            final(self)@ == spec_op_slt(old(self)@, instruction.0),
    {
        proof {
            reveal(spec_op_slt);
        }
        let a = self.reg(instruction.s()) as i32;
        let b = self.reg(instruction.t()) as i32;
        let v: u32 = if a < b {
            1
        } else {
            0
        };
        self.set_reg(instruction.d(), v);
    }

    fn op_sltu(&mut self, instruction: Instruction)
        requires
            old(self).wf(),
        ensures
            final(self).wf(),
            final(self)@ == spec_op_sltu(old(self)@, instruction.0),
    {
        proof {
            reveal(spec_op_sltu);
        }
        let v: u32 = if self.reg(instruction.s()) < self.reg(instruction.t()) {
            1
        } else {
            0
        };
        self.set_reg(instruction.d(), v);
    }

    fn op_slti(&mut self, instruction: Instruction)
        requires
            old(self).wf(),
        ensures
            final(self).wf(),
            final(self)@ == spec_op_slti(old(self)@, instruction.0),
    {
        proof {
            reveal(spec_op_slti);
        }
        let i = instruction.imm_se() as i32;
        let v: u32 = if (self.reg(instruction.s()) as i32) < i {
            1
        } else {
            0
        };
        self.set_reg(instruction.t(), v);
    }

    fn op_sltiu(&mut self, instruction: Instruction)
        requires
            old(self).wf(),
        ensures
            final(self).wf(),
            final(self)@ == spec_op_sltiu(old(self)@, instruction.0),
    {
        proof {
            reveal(spec_op_sltiu);
        }
        let v: u32 = if self.reg(instruction.s()) < instruction.imm_se() {
            1
        } else {
            0
        };
        self.set_reg(instruction.t(), v);
    }

    fn op_mult(&mut self, instruction: Instruction)
        requires
            old(self).wf(),
        ensures
            final(self).wf(),
            final(self)@ == spec_op_mult(old(self)@, instruction.0),
    {
        proof {
            reveal(spec_op_mult);
        }
        let a = (self.reg(instruction.s()) as i32) as i64;
        let b = (self.reg(instruction.t()) as i32) as i64;
        proof {
            assert(-0x4000_0000_0000_0000 <= a * b <= 0x4000_0000_0000_0000) by (nonlinear_arith)
                requires
                    -0x8000_0000 <= a <= 0x7FFF_FFFF && -0x8000_0000 <= b <= 0x7FFF_FFFF,
            ;
        }
        let v = (a * b) as u64;
        self.hi = (v >> 32) as u32;
        self.lo = v as u32;
    }

    fn op_multu(&mut self, instruction: Instruction)
        requires
            old(self).wf(),
        ensures
            final(self).wf(),
            final(self)@ == spec_op_multu(old(self)@, instruction.0),
    {
        proof {
            reveal(spec_op_multu);
        }
        let a = self.reg(instruction.s()) as u64;
        let b = self.reg(instruction.t()) as u64;
        proof {
            assert(a * b <= 0xFFFF_FFFE_0000_0001) by (nonlinear_arith)
                requires
                    a <= 0xFFFF_FFFF && b <= 0xFFFF_FFFF,
            ;
        }
        let v = a * b;
        self.hi = (v >> 32) as u32;
        self.lo = v as u32;
    }

    fn op_div(&mut self, instruction: Instruction)
        requires
            old(self).wf(),
        ensures
            final(self).wf(),
            final(self)@ == spec_op_div(old(self)@, instruction.0),
    {
        proof {
            reveal(spec_op_div);
        }
        let n = self.reg(instruction.s());
        let d = self.reg(instruction.t());
        if d == 0 {
            self.hi = n;
            self.lo = if n < 0x8000_0000 {
                0xFFFF_FFFF
            } else {
                1
            };
        } else if n == 0x8000_0000 && d == 0xFFFF_FFFF {
            self.hi = 0;
            self.lo = 0x8000_0000;
        } else {
            let n_neg = n >= 0x8000_0000;
            let d_neg = d >= 0x8000_0000;
            let n_mag: u32 = if n_neg {
                0u32.wrapping_sub(n)
            } else {
                n
            };
            let d_mag: u32 = if d_neg {
                0u32.wrapping_sub(d)
            } else {
                d
            };
            let q = n_mag / d_mag;
            let r = n_mag % d_mag;
            self.lo = if n_neg != d_neg {
                0u32.wrapping_sub(q)
            } else {
                q
            };
            self.hi = if n_neg {
                0u32.wrapping_sub(r)
            } else {
                r
            };
        }
    }

    fn op_divu(&mut self, instruction: Instruction)
        requires
            old(self).wf(),
        ensures
            final(self).wf(),
            final(self)@ == spec_op_divu(old(self)@, instruction.0),
    {
        proof {
            reveal(spec_op_divu);
        }
        let n = self.reg(instruction.s());
        let d = self.reg(instruction.t());
        if d == 0 {
            self.hi = n;
            self.lo = 0xFFFF_FFFF;
        } else {
            self.hi = n % d;
            self.lo = n / d;
        }
    }

    fn op_mfhi(&mut self, instruction: Instruction)
        requires
            old(self).wf(),
        ensures
            final(self).wf(),
            final(self)@ == spec_op_mfhi(old(self)@, instruction.0),
    {
        proof {
            reveal(spec_op_mfhi);
        }
        let hi = self.hi;
        self.set_reg(instruction.d(), hi);
    }

    fn op_mflo(&mut self, instruction: Instruction)
        requires
            old(self).wf(),
        ensures
            final(self).wf(),
            final(self)@ == spec_op_mflo(old(self)@, instruction.0),
    {
        proof {
            reveal(spec_op_mflo);
        }
        let lo = self.lo;
        self.set_reg(instruction.d(), lo);
    }

    fn op_mthi(&mut self, instruction: Instruction)
        requires
            old(self).wf(),
        ensures
            final(self).wf(),
            final(self)@ == spec_op_mthi(old(self)@, instruction.0),
    {
        proof {
            reveal(spec_op_mthi);
        }
        self.hi = self.reg(instruction.s());
    }

    fn op_mtlo(&mut self, instruction: Instruction)
        requires
            old(self).wf(),
        ensures
            final(self).wf(),
            final(self)@ == spec_op_mtlo(old(self)@, instruction.0),
    {
        proof {
            reveal(spec_op_mtlo);
        }
        self.lo = self.reg(instruction.s());
    }

    fn op_j(&mut self, instruction: Instruction)
        requires
            old(self).wf(),
        ensures
            final(self).wf(),
            final(self)@ == spec_op_j(old(self)@, instruction.0),
    {
        proof {
            reveal(spec_op_j);
        }
        let i = instruction.imm_jump();
        self.next_pc = (self.pc & 0xF000_0000) | (i << 2);
    }

    fn op_jal(&mut self, instruction: Instruction)
        requires
            old(self).wf(),
        ensures
            final(self).wf(),
            final(self)@ == spec_op_jal(old(self)@, instruction.0),
    {
        proof {
            reveal(spec_op_jal);
            reveal(spec_op_j);
        }
        let ra = self.pc;
        self.set_reg(31, ra);
        self.op_j(instruction);
    }

    fn op_jr(&mut self, instruction: Instruction)
        requires
            old(self).wf(),
        ensures
            final(self).wf(),
            final(self)@ == spec_op_jr(old(self)@, instruction.0),
    {
        proof {
            reveal(spec_op_jr);
        }
        self.next_pc = self.reg(instruction.s());
    }

    fn op_jalr(&mut self, instruction: Instruction)
        requires
            old(self).wf(),
        ensures
            final(self).wf(),
            final(self)@ == spec_op_jalr(old(self)@, instruction.0),
    {
        proof {
            reveal(spec_op_jalr);
        }
        let ra = self.pc;
        self.set_reg(instruction.d(), ra);
        self.next_pc = self.reg(instruction.s());
    }

    fn op_beq(&mut self, instruction: Instruction)
        requires
            old(self).wf(),
        ensures
            final(self).wf(),
            final(self)@ == spec_op_beq(old(self)@, instruction.0),
    {
        proof {
            reveal(spec_op_beq);
        }
        if self.reg(instruction.s()) == self.reg(instruction.t()) {
            self.branch(instruction.imm_se());
        }
    }

    fn op_bne(&mut self, instruction: Instruction)
        requires
            old(self).wf(),
        ensures
            final(self).wf(),
            final(self)@ == spec_op_bne(old(self)@, instruction.0),
    {
        proof {
            reveal(spec_op_bne);
        }
        if self.reg(instruction.s()) != self.reg(instruction.t()) {
            self.branch(instruction.imm_se());
        }
    }

    fn op_blez(&mut self, instruction: Instruction)
        requires
            old(self).wf(),
        ensures
            final(self).wf(),
            final(self)@ == spec_op_blez(old(self)@, instruction.0),
    {
        proof {
            reveal(spec_op_blez);
        }
        if self.reg(instruction.s()) as i32 <= 0 {
            self.branch(instruction.imm_se());
        }
    }

    fn op_bgtz(&mut self, instruction: Instruction)
        requires
            old(self).wf(),
        ensures
            final(self).wf(),
            final(self)@ == spec_op_bgtz(old(self)@, instruction.0),
    {
        proof {
            reveal(spec_op_bgtz);
        }
        if self.reg(instruction.s()) as i32 > 0 {
            self.branch(instruction.imm_se());
        }
    }

    fn op_bxx(&mut self, instruction: Instruction)
        requires
            old(self).wf(),
        ensures
            final(self).wf(),
            final(self)@ == spec_op_bxx(old(self)@, instruction.0),
    {
        proof {
            reveal(spec_op_bxx);
        }
        let i = instruction.imm_se();
        let s = instruction.s();
        let word = instruction.0;
        let is_bgez = (word >> 16) & 0x01;
        let is_link = (word >> 17) & 0x0F == 0x08;
        let v = self.reg(s) as i32;
        let test0: u32 = if v < 0 {
            1
        } else {
            0
        };
        let test = test0 ^ is_bgez;
        if is_link {
            let ra = self.pc;
            self.set_reg(31, ra);
        }
        if test != 0 {
            self.branch(i);
        }
    }

    fn op_syscall(&mut self, instruction: Instruction)
        requires
            old(self).wf(),
        ensures
            final(self).wf(),
            final(self)@ == spec_op_syscall(old(self)@, instruction.0),
    {
        proof {
            reveal(spec_op_syscall);
        }
        self.exception(Exception::SysCall);
    }

    fn op_break(&mut self, instruction: Instruction)
        requires
            old(self).wf(),
        ensures
            final(self).wf(),
            final(self)@ == spec_op_break(old(self)@, instruction.0),
    {
        proof {
            reveal(spec_op_break);
        }
        self.exception(Exception::Break);
    }

    fn op_mtc0(&mut self, instruction: Instruction) -> (r: Result<(), Fault>)
        requires
            old(self).wf(),
        ensures
            final(self).wf(),
            match spec_op_mtc0(old(self)@, instruction.0) {
                Ok(c2) => r is Ok && final(self)@ == c2,
                Err(f) => r == Err::<(), Fault>(f),
            },
    {
        proof {
            reveal(spec_op_mtc0);
        }
        let cpu_r = instruction.t();
        let cop_r = instruction.d();
        let v = self.reg(cpu_r);
        if cop_r == 3 || cop_r == 5 || cop_r == 6 || cop_r == 7 || cop_r == 9 || cop_r == 11 {
            if v != 0 {
                return Err(Fault::UnhandledCop0Write(cop_r));
            }
            Ok(())
        } else if cop_r == 12 {
            self.sr = v;
            Ok(())
        } else if cop_r == 13 {
            if v != 0 {
                return Err(Fault::UnhandledCop0Write(cop_r));
            }
            Ok(())
        } else {
            Err(Fault::UnhandledCop0Write(cop_r))
        }
    }

    fn op_mfc0(&mut self, instruction: Instruction) -> (r: Result<(), Fault>)
        requires
            old(self).wf(),
        ensures
            final(self).wf(),
            match spec_op_mfc0(old(self)@, instruction.0) {
                Ok(c2) => r is Ok && final(self)@ == c2,
                Err(f) => r == Err::<(), Fault>(f),
            },
    {
        proof {
            reveal(spec_op_mfc0);
        }
        let cpu_r = instruction.t();
        let cop_r = instruction.d();
        let v = if cop_r == 12 {
            self.sr
        } else if cop_r == 13 {
            self.cause
        } else if cop_r == 14 {
            self.epc
        } else {
            return Err(Fault::UnhandledCop0Read(cop_r));
        };
        self.load = (cpu_r, v);
        Ok(())
    }

    fn op_rfe(&mut self, instruction: Instruction) -> (r: Result<(), Fault>)
        requires
            old(self).wf(),
        ensures
            final(self).wf(),
            match spec_op_rfe(old(self)@, instruction.0) {
                Ok(c2) => r is Ok && final(self)@ == c2,
                Err(f) => r == Err::<(), Fault>(f),
            },
    {
        proof {
            reveal(spec_op_rfe);
        }
        if instruction.0 & 0x3F != 0b010000 {
            return Err(Fault::InvalidRfe(instruction.0));
        }
        let mode = self.sr & 0x3F;
        self.sr = (self.sr & !0x3F) | (mode >> 2);
        Ok(())
    }

    fn op_cop0(&mut self, instruction: Instruction) -> (r: Result<(), Fault>)
        requires
            old(self).wf(),
        ensures
            final(self).wf(),
            match spec_op_cop0(old(self)@, instruction.0) {
                Ok(c2) => r is Ok && final(self)@ == c2,
                Err(f) => r == Err::<(), Fault>(f),
            },
    {
        proof {
            reveal(spec_op_cop0);
        }
        let op = instruction.cop_opcode();
        if op == 0b00100 {
            self.op_mtc0(instruction)
        } else if op == 0b00000 {
            self.op_mfc0(instruction)
        } else if op == 0b10000 {
            self.op_rfe(instruction)
        } else {
            Err(Fault::UnhandledCopInstruction(instruction.0))
        }
    }

    fn op_lb(&mut self, instruction: Instruction) -> (r: Result<(), Fault>)
        requires
            old(self).wf(),
        ensures
            final(self).wf(),
            match spec_op_lb(old(self)@, instruction.0) {
                Ok(c2) => r is Ok && final(self)@ == c2,
                Err(f) => r == Err::<(), Fault>(f),
            },
    {
        proof {
            reveal(spec_op_lb);
        }
        let addr = self.reg(instruction.s()).wrapping_add(instruction.imm_se());
        match self.inter.load8(addr) {
            Ok(v) => {
                self.load = (instruction.t(), ((v as i8) as i32) as u32);
                Ok(())
            },
            Err(f) => Err(f),
        }
    }

    fn op_lbu(&mut self, instruction: Instruction) -> (r: Result<(), Fault>)
        requires
            old(self).wf(),
        ensures
            final(self).wf(),
            match spec_op_lbu(old(self)@, instruction.0) {
                Ok(c2) => r is Ok && final(self)@ == c2,
                Err(f) => r == Err::<(), Fault>(f),
            },
    {
        proof {
            reveal(spec_op_lbu);
        }
        let addr = self.reg(instruction.s()).wrapping_add(instruction.imm_se());
        match self.inter.load8(addr) {
            Ok(v) => {
                self.load = (instruction.t(), v as u32);
                Ok(())
            },
            Err(f) => Err(f),
        }
    }

    fn op_lh(&mut self, instruction: Instruction) -> (r: Result<(), Fault>)
        requires
            old(self).wf(),
        ensures
            final(self).wf(),
            match spec_op_lh(old(self)@, instruction.0) {
                Ok(c2) => r is Ok && final(self)@ == c2,
                Err(f) => r == Err::<(), Fault>(f),
            },
    {
        proof {
            reveal(spec_op_lh);
        }
        let addr = self.reg(instruction.s()).wrapping_add(instruction.imm_se());
        match self.inter.load16(addr) {
            Ok(v) => {
                self.load = (instruction.t(), ((v as i16) as i32) as u32);
                Ok(())
            },
            Err(f) => Err(f),
        }
    }

    fn op_lhu(&mut self, instruction: Instruction) -> (r: Result<(), Fault>)
        requires
            old(self).wf(),
        ensures
            final(self).wf(),
            match spec_op_lhu(old(self)@, instruction.0) {
                Ok(c2) => r is Ok && final(self)@ == c2,
                Err(f) => r == Err::<(), Fault>(f),
            },
    {
        proof {
            reveal(spec_op_lhu);
        }
        let addr = self.reg(instruction.s()).wrapping_add(instruction.imm_se());
        if addr % 2 == 0 {
            match self.inter.load16(addr) {
                Ok(v) => {
                    self.load = (instruction.t(), v as u32);
                    Ok(())
                },
                Err(f) => Err(f),
            }
        } else {
            self.exception(Exception::LoadAddressError);
            Ok(())
        }
    }

    fn op_lw(&mut self, instruction: Instruction) -> (r: Result<(), Fault>)
        requires
            old(self).wf(),
        ensures
            final(self).wf(),
            match spec_op_lw(old(self)@, instruction.0) {
                Ok(c2) => r is Ok && final(self)@ == c2,
                Err(f) => r == Err::<(), Fault>(f),
            },
    {
        proof {
            reveal(spec_op_lw);
        }
        if self.sr & 0x1_0000 != 0 {
            // The cache is isolated; the access never reaches the bus.
            return Ok(());
        }
        let addr = self.reg(instruction.s()).wrapping_add(instruction.imm_se());
        if addr % 4 == 0 {
            match self.inter.load32(addr) {
                Ok(v) => {
                    self.load = (instruction.t(), v);
                    Ok(())
                },
                Err(f) => Err(f),
            }
        } else {
            self.exception(Exception::LoadAddressError);
            Ok(())
        }
    }

    fn op_lwl(&mut self, instruction: Instruction) -> (r: Result<(), Fault>)
        requires
            old(self).wf(),
        ensures
            final(self).wf(),
            match spec_op_lwl(old(self)@, instruction.0) {
                Ok(c2) => r is Ok && final(self)@ == c2,
                Err(f) => r == Err::<(), Fault>(f),
            },
    {
        proof {
            reveal(spec_op_lwl);
        }
        let t = instruction.t();
        let addr = self.reg(instruction.s()).wrapping_add(instruction.imm_se());
        let cur_v = self.out_regs[t as usize];
        let aligned_addr = addr & 0xFFFF_FFFC;
        match self.inter.load32(aligned_addr) {
            Ok(aligned_word) => {
                let v = if addr & 0x03 == 0 {
                    (cur_v & 0x00FF_FFFF) | (aligned_word << 24)
                } else if addr & 0x03 == 1 {
                    (cur_v & 0x0000_FFFF) | (aligned_word << 16)
                } else if addr & 0x03 == 2 {
                    (cur_v & 0x0000_00FF) | (aligned_word << 8)
                } else {
                    aligned_word
                };
                self.load = (t, v);
                Ok(())
            },
            Err(f) => Err(f),
        }
    }

    fn op_lwr(&mut self, instruction: Instruction) -> (r: Result<(), Fault>)
        requires
            old(self).wf(),
        ensures
            final(self).wf(),
            match spec_op_lwr(old(self)@, instruction.0) {
                Ok(c2) => r is Ok && final(self)@ == c2,
                Err(f) => r == Err::<(), Fault>(f),
            },
    {
        proof {
            reveal(spec_op_lwr);
        }
        let t = instruction.t();
        let addr = self.reg(instruction.s()).wrapping_add(instruction.imm_se());
        let cur_v = self.out_regs[t as usize];
        let aligned_addr = addr & 0xFFFF_FFFC;
        match self.inter.load32(aligned_addr) {
            Ok(aligned_word) => {
                let v = if addr & 0x03 == 0 {
                    aligned_word
                } else if addr & 0x03 == 1 {
                    (cur_v & 0xFF00_0000) | (aligned_word >> 8)
                } else if addr & 0x03 == 2 {
                    (cur_v & 0xFFFF_0000) | (aligned_word >> 16)
                } else {
                    (cur_v & 0xFFFF_FF00) | (aligned_word >> 24)
                };
                self.load = (t, v);
                Ok(())
            },
            Err(f) => Err(f),
        }
    }

    fn op_sb(&mut self, instruction: Instruction) -> (r: Result<(), Fault>)
        requires
            old(self).wf(),
        ensures
            final(self).wf(),
            match spec_op_sb(old(self)@, instruction.0) {
                Ok(c2) => r is Ok && final(self)@ == c2,
                Err(f) => r == Err::<(), Fault>(f),
            },
    {
        proof {
            reveal(spec_op_sb);
        }
        if self.sr & 0x1_0000 != 0 {
            // The cache is isolated; the access never reaches the bus.
            return Ok(());
        }
        let addr = self.reg(instruction.s()).wrapping_add(instruction.imm_se());
        let v = self.reg(instruction.t());
        match self.inter.store8(addr, v as u8) {
            Ok(()) => Ok(()),
            Err(f) => Err(f),
        }
    }

    fn op_sh(&mut self, instruction: Instruction) -> (r: Result<(), Fault>)
        requires
            old(self).wf(),
        ensures
            final(self).wf(),
            match spec_op_sh(old(self)@, instruction.0) {
                Ok(c2) => r is Ok && final(self)@ == c2,
                Err(f) => r == Err::<(), Fault>(f),
            },
    {
        proof {
            reveal(spec_op_sh);
        }
        if self.sr & 0x1_0000 != 0 {
            // The cache is isolated; the access never reaches the bus.
            return Ok(());
        }
        let addr = self.reg(instruction.s()).wrapping_add(instruction.imm_se());
        if addr % 2 == 0 {
            let v = self.reg(instruction.t());
            match self.inter.store16(addr, v as u16) {
                Ok(()) => Ok(()),
                Err(f) => Err(f),
            }
        } else {
            self.exception(Exception::StoreAddressError);
            Ok(())
        }
    }

    fn op_sw(&mut self, instruction: Instruction) -> (r: Result<(), Fault>)
        requires
            old(self).wf(),
        ensures
            final(self).wf(),
            match spec_op_sw(old(self)@, instruction.0) {
                Ok(c2) => r is Ok && final(self)@ == c2,
                Err(f) => r == Err::<(), Fault>(f),
            },
    {
        proof {
            reveal(spec_op_sw);
        }
        if self.sr & 0x1_0000 != 0 {
            // The cache is isolated; the access never reaches the bus.
            return Ok(());
        }
        let addr = self.reg(instruction.s()).wrapping_add(instruction.imm_se());
        if addr % 4 == 0 {
            let v = self.reg(instruction.t());
            match self.inter.store32(addr, v) {
                Ok(()) => Ok(()),
                Err(f) => Err(f),
            }
        } else {
            self.exception(Exception::StoreAddressError);
            Ok(())
        }
    }

    fn op_swl(&mut self, instruction: Instruction) -> (r: Result<(), Fault>)
        requires
            old(self).wf(),
        ensures
            final(self).wf(),
            match spec_op_swl(old(self)@, instruction.0) {
                Ok(c2) => r is Ok && final(self)@ == c2,
                Err(f) => r == Err::<(), Fault>(f),
            },
    {
        proof {
            reveal(spec_op_swl);
        }
        if self.sr & 0x1_0000 != 0 {
            // The cache is isolated; the access never reaches the bus.
            return Ok(());
        }
        let addr = self.reg(instruction.s()).wrapping_add(instruction.imm_se());
        let v = self.reg(instruction.t());
        let aligned_addr = addr & 0xFFFF_FFFC;
        match self.inter.load32(aligned_addr) {
            Ok(cur_mem) => {
                let mem = if addr & 0x03 == 0 {
                    (cur_mem & 0xFFFF_FF00) | (v >> 24)
                } else if addr & 0x03 == 1 {
                    (cur_mem & 0xFFFF_0000) | (v >> 16)
                } else if addr & 0x03 == 2 {
                    (cur_mem & 0xFF00_0000) | (v >> 8)
                } else {
                    v
                };
                match self.inter.store32(aligned_addr, mem) {
                    Ok(()) => Ok(()),
                    Err(f) => Err(f),
                }
            },
            Err(f) => Err(f),
        }
    }

    fn op_swr(&mut self, instruction: Instruction) -> (r: Result<(), Fault>)
        requires
            old(self).wf(),
        ensures
            final(self).wf(),
            match spec_op_swr(old(self)@, instruction.0) {
                Ok(c2) => r is Ok && final(self)@ == c2,
                Err(f) => r == Err::<(), Fault>(f),
            },
    {
        proof {
            reveal(spec_op_swr);
        }
        if self.sr & 0x1_0000 != 0 {
            // The cache is isolated; the access never reaches the bus.
            return Ok(());
        }
        let addr = self.reg(instruction.s()).wrapping_add(instruction.imm_se());
        let v = self.reg(instruction.t());
        let aligned_addr = addr & 0xFFFF_FFFC;
        match self.inter.load32(aligned_addr) {
            Ok(cur_mem) => {
                let mem = if addr & 0x03 == 0 {
                    v
                } else if addr & 0x03 == 1 {
                    (cur_mem & 0x0000_00FF) | (v << 8)
                } else if addr & 0x03 == 2 {
                    (cur_mem & 0x0000_FFFF) | (v << 16)
                } else {
                    (cur_mem & 0x00FF_FFFF) | (v << 24)
                };
                match self.inter.store32(aligned_addr, mem) {
                    Ok(()) => Ok(()),
                    Err(f) => Err(f),
                }
            },
            Err(f) => Err(f),
        }
    }

    /// Decodes one instruction word and executes it.
    fn decode_and_execute(&mut self, instruction: Instruction) -> (r: Result<(), Fault>)
        requires
            old(self).wf(),
        ensures
            final(self).wf(),
            match spec_execute(old(self)@, instruction.0) {
                Ok(c2) => r is Ok && final(self)@ == c2,
                Err(f) => r == Err::<(), Fault>(f),
            },
    {
        let f = instruction.function();
        if f == 0 {
            let sub = instruction.subfunction();
            if sub == 0x00 {
                self.op_sll(instruction);
                Ok(())
            } else if sub == 0x02 {
                self.op_srl(instruction);
                Ok(())
            } else if sub == 0x03 {
                self.op_sra(instruction);
                Ok(())
            } else if sub == 0x04 {
                self.op_sllv(instruction);
                Ok(())
            } else if sub == 0x06 {
                self.op_srlv(instruction);
                Ok(())
            } else if sub == 0x07 {
                self.op_srav(instruction);
                Ok(())
            } else if sub == 0x08 {
                self.op_jr(instruction);
                Ok(())
            } else if sub == 0x09 {
                self.op_jalr(instruction);
                Ok(())
            } else if sub == 0x0C {
                self.op_syscall(instruction);
                Ok(())
            } else if sub == 0x0D {
                self.op_break(instruction);
                Ok(())
            } else if sub == 0x10 {
                self.op_mfhi(instruction);
                Ok(())
            } else if sub == 0x11 {
                self.op_mthi(instruction);
                Ok(())
            } else if sub == 0x12 {
                self.op_mflo(instruction);
                Ok(())
            } else if sub == 0x13 {
                self.op_mtlo(instruction);
                Ok(())
            } else if sub == 0x18 {
                self.op_mult(instruction);
                Ok(())
            } else if sub == 0x19 {
                self.op_multu(instruction);
                Ok(())
            } else if sub == 0x1A {
                self.op_div(instruction);
                Ok(())
            } else if sub == 0x1B {
                self.op_divu(instruction);
                Ok(())
            } else if sub == 0x20 {
                self.op_add(instruction);
                Ok(())
            } else if sub == 0x21 {
                self.op_addu(instruction);
                Ok(())
            } else if sub == 0x22 {
                self.op_sub(instruction);
                Ok(())
            } else if sub == 0x23 {
                self.op_subu(instruction);
                Ok(())
            } else if sub == 0x24 {
                self.op_and(instruction);
                Ok(())
            } else if sub == 0x25 {
                self.op_or(instruction);
                Ok(())
            } else if sub == 0x26 {
                self.op_xor(instruction);
                Ok(())
            } else if sub == 0x27 {
                self.op_nor(instruction);
                Ok(())
            } else if sub == 0x2A {
                self.op_slt(instruction);
                Ok(())
            } else if sub == 0x2B {
                self.op_sltu(instruction);
                Ok(())
            } else {
                Err(Fault::UnhandledInstruction(instruction.0))
            }
        } else if f == 0x01 {
            self.op_bxx(instruction);
            Ok(())
        } else if f == 0x02 {
            self.op_j(instruction);
            Ok(())
        } else if f == 0x03 {
            self.op_jal(instruction);
            Ok(())
        } else if f == 0x04 {
            self.op_beq(instruction);
            Ok(())
        } else if f == 0x05 {
            self.op_bne(instruction);
            Ok(())
        } else if f == 0x06 {
            self.op_blez(instruction);
            Ok(())
        } else if f == 0x07 {
            self.op_bgtz(instruction);
            Ok(())
        } else if f == 0x08 {
            self.op_addi(instruction);
            Ok(())
        } else if f == 0x09 {
            self.op_addiu(instruction);
            Ok(())
        } else if f == 0x0A {
            self.op_slti(instruction);
            Ok(())
        } else if f == 0x0B {
            self.op_sltiu(instruction);
            Ok(())
        } else if f == 0x0C {
            self.op_andi(instruction);
            Ok(())
        } else if f == 0x0D {
            self.op_ori(instruction);
            Ok(())
        } else if f == 0x0E {
            self.op_xori(instruction);
            Ok(())
        } else if f == 0x0F {
            self.op_lui(instruction);
            Ok(())
        } else if f == 0x10 {
            self.op_cop0(instruction)
        } else if f == 0x11 {
            // Coprocessor 1 is not fitted; the guest sees an exception.
            self.exception(Exception::CoprocessorError);
            Ok(())
        } else if f == 0x12 {
            Err(Fault::UnhandledGteInstruction(instruction.0))
        } else if f == 0x13 {
            // Coprocessor 3 is not fitted; the guest sees an exception.
            self.exception(Exception::CoprocessorError);
            Ok(())
        } else if f == 0x20 {
            self.op_lb(instruction)
        } else if f == 0x21 {
            self.op_lh(instruction)
        } else if f == 0x22 {
            self.op_lwl(instruction)
        } else if f == 0x23 {
            self.op_lw(instruction)
        } else if f == 0x24 {
            self.op_lbu(instruction)
        } else if f == 0x25 {
            self.op_lhu(instruction)
        } else if f == 0x26 {
            self.op_lwr(instruction)
        } else if f == 0x28 {
            self.op_sb(instruction)
        } else if f == 0x29 {
            self.op_sh(instruction)
        } else if f == 0x2A {
            self.op_swl(instruction)
        } else if f == 0x2B {
            self.op_sw(instruction)
        } else if f == 0x2E {
            self.op_swr(instruction)
        } else {
            Err(Fault::UnhandledInstruction(instruction.0))
        }
    }


    /// The address of the instruction about to execute.
    pub fn pc(&self) -> (r: u32)
        ensures
            r == self@.pc,
    {
        self.pc
    }

    /// The address of the instruction after the one about to execute.
    pub fn next_pc(&self) -> (r: u32)
        ensures
            r == self@.next_pc,
    {
        self.next_pc
    }

    /// The visible value of a register.
    pub fn register(&self, index: u32) -> (r: u32)
        requires
            index < 32,
        ensures
            r == self@.regs[index as int],
    {
        self.regs[index as usize]
    }

    /// The coprocessor-0 status register.
    pub fn status(&self) -> (r: u32)
        ensures
            r == self@.sr,
    {
        self.sr
    }

    /// The coprocessor-0 cause register.
    pub fn cause(&self) -> (r: u32)
        ensures
            r == self@.cause,
    {
        self.cause
    }

    /// The coprocessor-0 exception program counter.
    pub fn epc(&self) -> (r: u32)
        ensures
            r == self@.epc,
    {
        self.epc
    }

    /// The multiply/divide result, high half.
    pub fn hi(&self) -> (r: u32)
        ensures
            r == self@.hi,
    {
        self.hi
    }

    /// The multiply/divide result, low half.
    pub fn lo(&self) -> (r: u32)
        ensures
            r == self@.lo,
    {
        self.lo
    }

    /// Advances the machine by one instruction, exactly as `spec_step` says:
    /// fetch, program-counter advance, delayed-load application, execute and
    /// register commit.  A fault stops the machine; the guest's own
    /// exceptions are handled inside the step and return normally.
    pub fn run_next_instruction(&mut self) -> (r: Result<(), Fault>)
        requires
            old(self).wf(),
        ensures
            final(self).wf(),
            match spec_step(old(self)@) {
                Ok(c2) => r is Ok && final(self)@ == c2,
                Err(f) => r == Err::<(), Fault>(f),
            },
    {
        self.current_pc = self.pc;
        if self.current_pc % 4 != 0 {
            self.exception(Exception::LoadAddressError);
            return Ok(());
        }
        let fetched = self.inter.load32(self.pc);
        let iw = match fetched {
            Ok(w) => w,
            Err(f) => {
                return Err(f);
            },
        };
        let instruction = Instruction(iw);
        self.pc = self.next_pc;
        self.next_pc = self.next_pc.wrapping_add(4);
        let (load_reg, load_val) = self.load;
        self.set_reg(load_reg, load_val);
        self.load = (0, 0);
        self.delay_slot = self.branch;
        self.branch = false;
        let executed = self.decode_and_execute(instruction);
        if let Err(f) = executed {
            return Err(f);
        }
        self.regs = self.out_regs;
        Ok(())
    }
}

} // verus!
