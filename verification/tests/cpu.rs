use psx_core::bios::Bios;
use psx_core::cpu::Cpu;
use psx_core::fault::Fault;
use psx_core::gpu::Gpu;
use psx_core::interconnect::Interconnect;
use psx_core::spu::Spu;

/// A machine whose boot ROM starts with the given instruction words; the
/// rest of the ROM decodes as no-ops.
fn machine_with(words: &[u32]) -> Cpu {
    let mut data = vec![0u8; 512 * 1024];
    for (i, w) in words.iter().enumerate() {
        data[4 * i] = *w as u8;
        data[4 * i + 1] = (*w >> 8) as u8;
        data[4 * i + 2] = (*w >> 16) as u8;
        data[4 * i + 3] = (*w >> 24) as u8;
    }
    let bios = Bios::new(data).unwrap();
    Cpu::new(Interconnect::new(bios, Gpu::new(), Spu::new()))
}

fn run(cpu: &mut Cpu, steps: usize) {
    for _ in 0..steps {
        cpu.run_next_instruction().unwrap();
    }
}

#[test]
fn lui_ori_build_constant() {
    let mut cpu = machine_with(&[0x3C01_1234, 0x3421_5678]);
    run(&mut cpu, 2);
    assert_eq!(cpu.register(1), 0x1234_5678);
}

#[test]
fn register_zero_stays_zero() {
    // Writes that target register zero are discarded, whatever the source.
    let mut cpu = machine_with(&[0x2400_0005, 0x3C00_1234, 0x3400_FFFF]);
    run(&mut cpu, 3);
    assert_eq!(cpu.register(0), 0);
}

#[test]
fn store_load_word_roundtrip() {
    // SW then LW at the same aligned address returns the identical value.
    let mut cpu = machine_with(&[
        0x3C01_1234, // LUI  r1, 0x1234
        0x3421_5678, // ORI  r1, r1, 0x5678
        0xAC01_0100, // SW   r1, 0x100(r0)
        0x8C03_0100, // LW   r3, 0x100(r0)
        0x0000_0000, // NOP (load delay slot)
    ]);
    run(&mut cpu, 5);
    assert_eq!(cpu.register(3), 0x1234_5678);
}

#[test]
fn store_load_half_sign_extends() {
    // SH then LH at the same address returns the value, sign-extended.
    let mut cpu = machine_with(&[
        0x3C01_0000 | 0x8001,        // LUI r1, 0x8001
        0x0001_0C03,                 // SRA r1, r1, 16 -> 0xFFFF8001
        0xA401_0200,                 // SH  r1, 0x200(r0)
        0x8403_0200,                 // LH  r3, 0x200(r0)
        0x0000_0000,                 // NOP
    ]);
    run(&mut cpu, 5);
    assert_eq!(cpu.register(3), 0xFFFF_8001);
}

#[test]
fn store_load_byte_sign_extends() {
    let mut cpu = machine_with(&[
        0x2401_0080, // ADDIU r1, r0, 0x80
        0xA001_0300, // SB    r1, 0x300(r0)
        0x8003_0300, // LB    r3, 0x300(r0)
        0x0000_0000, // NOP
        0x9004_0300, // LBU   r4, 0x300(r0)
        0x0000_0000, // NOP
    ]);
    run(&mut cpu, 6);
    assert_eq!(cpu.register(3), 0xFFFF_FF80);
    assert_eq!(cpu.register(4), 0x0000_0080);
}

#[test]
fn load_delay_slot_sees_old_value() {
    // The LW result is invisible to the very next instruction and visible
    // to the one after it.
    let mut cpu = machine_with(&[
        0x3C01_1234, // LUI  r1, 0x1234
        0xAC01_0100, // SW   r1, 0x100(r0)
        0x8C03_0100, // LW   r3, 0x100(r0)
        0x0060_4821, // ADDU r9,  r3, r0 (delay slot: old r3)
        0x0060_5021, // ADDU r10, r3, r0 (new r3)
    ]);
    run(&mut cpu, 5);
    assert_eq!(cpu.register(9), 0xDEAD_BEEF);
    assert_eq!(cpu.register(10), 0x1234_0000);
    assert_eq!(cpu.register(3), 0x1234_0000);
}

#[test]
fn branch_delay_slot_executes() {
    let base = 0xBFC0_0000u32;
    let mut cpu = machine_with(&[
        0x1000_0003, // BEQ r0, r0, +3 (taken; target is word 4)
        0x2407_0001, // ADDIU r7, r0, 1 (delay slot, executes)
        0x2407_0063, // ADDIU r7, r0, 99 (skipped)
        0x2407_0064, // ADDIU r7, r0, 100 (skipped)
        0x2408_0002, // ADDIU r8, r0, 2 (branch target)
    ]);
    cpu.run_next_instruction().unwrap();
    // After the taken branch, the delay slot is fetched next and the target
    // lands in the following program counter.
    assert_eq!(cpu.pc(), base + 4);
    assert_eq!(cpu.next_pc(), base + 16);
    run(&mut cpu, 2);
    assert_eq!(cpu.register(7), 1);
    assert_eq!(cpu.register(8), 2);
}

#[test]
fn add_overflow_raises_exception() {
    let mut cpu = machine_with(&[
        0x3C04_7FFF, // LUI r4, 0x7FFF
        0x3484_FFFF, // ORI r4, r4, 0xFFFF -> 0x7FFFFFFF
        0x0084_2820, // ADD r5, r4, r4 -> overflow
    ]);
    run(&mut cpu, 3);
    assert_eq!(cpu.cause(), 0x0C << 2);
    assert_eq!(cpu.epc(), 0xBFC0_0008);
    assert_eq!(cpu.pc(), 0x8000_0080);
    assert_eq!(cpu.register(5), 0xDEAD_BEEF); // destination untouched
}

#[test]
fn addu_wraps_silently() {
    let mut cpu = machine_with(&[
        0x3C04_7FFF, // LUI r4, 0x7FFF
        0x3484_FFFF, // ORI r4, r4, 0xFFFF
        0x0084_2821, // ADDU r5, r4, r4
    ]);
    run(&mut cpu, 3);
    assert_eq!(cpu.register(5), 0xFFFF_FFFE);
    assert_eq!(cpu.cause(), 0);
}

#[test]
fn sub_overflow_raises_exception() {
    let mut cpu = machine_with(&[
        0x3C04_8000, // LUI r4, 0x8000 -> INT_MIN
        0x2405_0001, // ADDIU r5, r0, 1
        0x0085_3022, // SUB r6, r4, r5 -> overflow
    ]);
    run(&mut cpu, 3);
    assert_eq!(cpu.cause(), 0x0C << 2);
    assert_eq!(cpu.register(6), 0xDEAD_BEEF);
}

#[test]
fn addi_overflow_raises_exception() {
    let mut cpu = machine_with(&[
        0x3C04_7FFF, // LUI  r4, 0x7FFF
        0x3484_FFFF, // ORI  r4, r4, 0xFFFF
        0x2085_0001, // ADDI r5, r4, 1 -> overflow
    ]);
    run(&mut cpu, 3);
    assert_eq!(cpu.cause(), 0x0C << 2);
}

#[test]
fn div_by_zero_positive_dividend() {
    let mut cpu = machine_with(&[
        0x2404_0007, // ADDIU r4, r0, 7
        0x0080_001A, // DIV r4, r0
    ]);
    run(&mut cpu, 2);
    assert_eq!(cpu.hi(), 7);
    assert_eq!(cpu.lo(), 0xFFFF_FFFF);
    assert_eq!(cpu.cause(), 0); // no exception
}

#[test]
fn div_by_zero_negative_dividend() {
    let mut cpu = machine_with(&[
        0x2404_FFF9, // ADDIU r4, r0, -7
        0x0080_001A, // DIV r4, r0
    ]);
    run(&mut cpu, 2);
    assert_eq!(cpu.hi(), 0xFFFF_FFF9);
    assert_eq!(cpu.lo(), 1);
    assert_eq!(cpu.cause(), 0);
}

#[test]
fn div_most_negative_by_minus_one() {
    let mut cpu = machine_with(&[
        0x3C04_8000, // LUI r4, 0x8000
        0x2405_FFFF, // ADDIU r5, r0, -1
        0x0085_001A, // DIV r4, r5
    ]);
    run(&mut cpu, 3);
    assert_eq!(cpu.lo(), 0x8000_0000);
    assert_eq!(cpu.hi(), 0);
    assert_eq!(cpu.cause(), 0);
}

#[test]
fn div_truncates_toward_zero() {
    let mut cpu = machine_with(&[
        0x2404_FFF9, // ADDIU r4, r0, -7
        0x2405_0002, // ADDIU r5, r0, 2
        0x0085_001A, // DIV r4, r5
    ]);
    run(&mut cpu, 3);
    assert_eq!(cpu.lo(), 0xFFFF_FFFD); // -3
    assert_eq!(cpu.hi(), 0xFFFF_FFFF); // remainder -1
}

#[test]
fn divu_by_zero() {
    let mut cpu = machine_with(&[
        0x2404_0009, // ADDIU r4, r0, 9
        0x0080_001B, // DIVU r4, r0
    ]);
    run(&mut cpu, 2);
    assert_eq!(cpu.hi(), 9);
    assert_eq!(cpu.lo(), 0xFFFF_FFFF);
}

#[test]
fn mult_splits_product() {
    let mut cpu = machine_with(&[
        0x3C04_0001, // LUI r4, 1      -> 0x10000
        0x3C05_0002, // LUI r5, 2      -> 0x20000
        0x0085_0018, // MULT r4, r5    -> 0x2_0000_0000
    ]);
    run(&mut cpu, 3);
    assert_eq!(cpu.hi(), 2);
    assert_eq!(cpu.lo(), 0);
}

#[test]
fn syscall_enters_handler() {
    let mut cpu = machine_with(&[0x0000_000C]);
    cpu.run_next_instruction().unwrap();
    assert_eq!(cpu.cause(), 0x08 << 2);
    assert_eq!(cpu.epc(), 0xBFC0_0000);
    assert_eq!(cpu.pc(), 0x8000_0080);
}

#[test]
fn misaligned_fetch_raises_address_error() {
    let mut cpu = machine_with(&[
        0x2401_0003, // ADDIU r1, r0, 3
        0x0020_0008, // JR r1
        0x0000_0000, // NOP (delay slot)
    ]);
    run(&mut cpu, 3);
    // The next fetch is from the odd address: a load address error.
    cpu.run_next_instruction().unwrap();
    assert_eq!(cpu.cause(), 0x04 << 2);
    assert_eq!(cpu.epc(), 3);
    assert_eq!(cpu.pc(), 0x8000_0080);
}

#[test]
fn unknown_opcode_is_fatal() {
    let mut cpu = machine_with(&[0xFC00_0000]);
    assert_eq!(
        cpu.run_next_instruction(),
        Err(Fault::UnhandledInstruction(0xFC00_0000))
    );
}

#[test]
fn gte_opcode_is_fatal() {
    let mut cpu = machine_with(&[0x4A00_0000]);
    assert_eq!(
        cpu.run_next_instruction(),
        Err(Fault::UnhandledGteInstruction(0x4A00_0000))
    );
}

#[test]
fn cop1_raises_coprocessor_error() {
    let mut cpu = machine_with(&[0x4400_0000]);
    cpu.run_next_instruction().unwrap();
    assert_eq!(cpu.cause(), 0x0B << 2);
}

#[test]
fn mtc0_mfc0_status_roundtrip() {
    // MTC0: op 0x10, cop op 4, rt = 1, rd = 12.
    let mut cpu = machine_with(&[
        0x3C01_0001,                               // LUI r1, 1
        (0x10 << 26) | (4 << 21) | (1 << 16) | (12 << 11), // MTC0 r1 -> SR
        (0x10 << 26) | (0 << 21) | (2 << 16) | (12 << 11), // MFC0 r2 <- SR
        0x0000_0000,                               // NOP (load delay)
    ]);
    run(&mut cpu, 4);
    assert_eq!(cpu.status(), 0x1_0000);
    assert_eq!(cpu.register(2), 0x1_0000);
}

#[test]
fn isolated_cache_drops_stores() {
    let mut cpu = machine_with(&[
        0x3C02_4455, // LUI r2, 0x4455
        0xAC02_0100, // SW r2, 0x100(r0)  (reaches RAM)
        0x3C01_0001, // LUI r1, 1
        (0x10 << 26) | (4 << 21) | (1 << 16) | (12 << 11), // MTC0 r1 -> SR (isolate)
        0x3C02_7788, // LUI r2, 0x7788
        0xAC02_0100, // SW r2, 0x100(r0)  (discarded)
        (0x10 << 26) | (4 << 21) | (0 << 16) | (12 << 11), // MTC0 r0 -> SR (release)
        0x8C03_0100, // LW r3, 0x100(r0)
        0x0000_0000, // NOP
    ]);
    run(&mut cpu, 9);
    assert_eq!(cpu.register(3), 0x4455_0000);
}

#[test]
fn rfe_pops_privilege_stack() {
    let mut cpu = machine_with(&[
        0x0000_000C, // SYSCALL: pushes the mode stack
        0x0000_0000,
    ]);
    cpu.run_next_instruction().unwrap();
    let sr_after_trap = cpu.status();
    // The handler at 0x80000080 decodes as NOPs (RAM is not the ROM), so
    // drive RFE directly from a second program instead.
    let mut cpu2 = machine_with(&[
        0x3C01_0000 | 0x0002, // LUI r1, 2
        0x3421_0000 | 0x0008, // ORI r1, r1, 8 (arbitrary mode bits)
        (0x10 << 26) | (4 << 21) | (1 << 16) | (12 << 11), // MTC0 r1 -> SR
        (0x10 << 26) | (0x10 << 21) | 0x10, // RFE
    ]);
    run(&mut cpu2, 4);
    assert_eq!(cpu2.status(), 0x0002_0002);
    assert_eq!(sr_after_trap & 0x3F, 0);
}

#[test]
fn lwl_lwr_merge_unaligned_word() {
    let mut cpu = machine_with(&[
        0x3C01_1234, // LUI r1, 0x1234
        0x3421_5678, // ORI r1, r1, 0x5678
        0xAC01_0100, // SW r1, 0x100(r0)
        0x3C02_AABB, // LUI r2, 0xAABB
        0x3442_CCDD, // ORI r2, r2, 0xCCDD -> r2 = 0xAABBCCDD
        (0x22 << 26) | (0 << 21) | (2 << 16) | 0x0101, // LWL r2, 0x101(r0)
        0x0040_1821, // ADDU r3, r2, r0 (delay slot still old r2)
        0x0040_2021, // ADDU r4, r2, r0
    ]);
    run(&mut cpu, 8);
    // The delay slot still sees the old register.
    assert_eq!(cpu.register(3), 0xAABB_CCDD);
    // LWL at offset one merges the aligned word into the top three bytes.
    assert_eq!(cpu.register(4), (0xAABB_CCDD & 0x0000_FFFF) | (0x1234_5678u32 << 16));
}

#[test]
fn slt_and_sltu_compare() {
    let mut cpu = machine_with(&[
        0x2404_FFFF, // ADDIU r4, r0, -1
        0x2405_0001, // ADDIU r5, r0, 1
        (0x00 << 26) | (4 << 21) | (5 << 16) | (6 << 11) | 0x2A, // SLT  r6, r4, r5
        (0x00 << 26) | (4 << 21) | (5 << 16) | (7 << 11) | 0x2B, // SLTU r7, r4, r5
    ]);
    run(&mut cpu, 4);
    assert_eq!(cpu.register(6), 1); // -1 < 1 signed
    assert_eq!(cpu.register(7), 0); // 0xFFFFFFFF > 1 unsigned
}

#[test]
fn jal_links_return_address() {
    let base = 0xBFC0_0000u32;
    let mut cpu = machine_with(&[
        0x0FF0_0004, // JAL to (pc & 0xF0000000) | (target << 2)
        0x0000_0000, // delay slot
    ]);
    cpu.run_next_instruction().unwrap();
    cpu.run_next_instruction().unwrap();
    assert_eq!(cpu.register(31), base + 4);
    assert_eq!(cpu.pc(), 0xBFC0_0010);
}

#[test]
fn bltz_bgez_family_decodes() {
    let mut cpu = machine_with(&[
        0x2404_FFFF, // ADDIU r4, r0, -1
        (0x01 << 26) | (4 << 21) | (0x00 << 16) | 0x0002, // BLTZ r4, +2 (taken)
        0x2407_0001, // ADDIU r7, r0, 1 (delay slot)
        0x2408_0063, // ADDIU r8, r0, 99 (skipped)
        0x2409_0002, // ADDIU r9, r0, 2 (target)
    ]);
    run(&mut cpu, 4);
    assert_eq!(cpu.register(7), 1);
    assert_eq!(cpu.register(8), 0xDEAD_BEEF);
    assert_eq!(cpu.register(9), 2);
}

#[test]
fn shifts_cover_all_forms() {
    let mut cpu = machine_with(&[
        0x2404_0010, // ADDIU r4, r0, 0x10
        (4 << 16) | (5 << 11) | (4 << 6), // SLL r5, r4, 4
        (4 << 16) | (6 << 11) | (2 << 6) | 0x02, // SRL r6, r4, 2
        0x2407_0002, // ADDIU r7, r0, 2
        (7 << 21) | (4 << 16) | (8 << 11) | 0x04, // SLLV r8, r4, r7
        (7 << 21) | (4 << 16) | (9 << 11) | 0x06, // SRLV r9, r4, r7
    ]);
    run(&mut cpu, 6);
    assert_eq!(cpu.register(5), 0x100);
    assert_eq!(cpu.register(6), 0x4);
    assert_eq!(cpu.register(8), 0x40);
    assert_eq!(cpu.register(9), 0x4);
}

#[test]
fn sra_sign_extends_shift() {
    let mut cpu = machine_with(&[
        0x3C04_8000, // LUI r4, 0x8000
        (4 << 16) | (5 << 11) | (4 << 6) | 0x03, // SRA r5, r4, 4
        0x2406_0004, // ADDIU r6, r0, 4
        (6 << 21) | (4 << 16) | (7 << 11) | 0x07, // SRAV r7, r4, r6
    ]);
    run(&mut cpu, 4);
    assert_eq!(cpu.register(5), 0xF800_0000);
    assert_eq!(cpu.register(7), 0xF800_0000);
}

#[test]
fn bitwise_ops() {
    let mut cpu = machine_with(&[
        0x2404_00F0, // ADDIU r4, r0, 0xF0
        0x2405_00FF, // ADDIU r5, r0, 0xFF
        (4 << 21) | (5 << 16) | (6 << 11) | 0x24, // AND r6
        (4 << 21) | (5 << 16) | (7 << 11) | 0x26, // XOR r7
        (4 << 21) | (5 << 16) | (8 << 11) | 0x27, // NOR r8
        0x3849_0011 | (4 << 21) | (9 << 16),      // XORI r9, r4, 0x11
    ]);
    run(&mut cpu, 6);
    assert_eq!(cpu.register(6), 0xF0);
    assert_eq!(cpu.register(7), 0x0F);
    assert_eq!(cpu.register(8), !0xFFu32);
    assert_eq!(cpu.register(9), 0xE1);
}

#[test]
fn slti_sltiu_compare_immediates() {
    let mut cpu = machine_with(&[
        0x2404_FFFF, // ADDIU r4, r0, -1
        (0x0A << 26) | (4 << 21) | (5 << 16) | 0x0001, // SLTI  r5, r4, 1
        (0x0B << 26) | (4 << 21) | (6 << 16) | 0x0001, // SLTIU r6, r4, 1
    ]);
    run(&mut cpu, 3);
    assert_eq!(cpu.register(5), 1);
    assert_eq!(cpu.register(6), 0);
}

#[test]
fn jr_jalr_jump_through_registers() {
    let base = 0xBFC0_0000u32;
    let mut cpu = machine_with(&[
        0x3C01_BFC0, // LUI r1, 0xBFC0
        0x3421_0014, // ORI r1, r1, 0x14
        (1 << 21) | (2 << 11) | 0x09, // JALR r2, r1
        0x0000_0000, // delay slot
        0x2407_0063, // ADDIU r7, r0, 99 (skipped)
        0x2408_0002, // ADDIU r8, r0, 2 (jump target)
    ]);
    run(&mut cpu, 4);
    assert_eq!(cpu.pc(), base + 0x14);
    assert_eq!(cpu.register(2), base + 0xC);
    run(&mut cpu, 1);
    assert_eq!(cpu.register(8), 2);
    assert_eq!(cpu.register(7), 0xDEAD_BEEF);
}

#[test]
fn mthi_mtlo_mfhi_mflo_roundtrip() {
    let mut cpu = machine_with(&[
        0x2404_0011, // ADDIU r4, r0, 0x11
        0x2405_0022, // ADDIU r5, r0, 0x22
        (4 << 21) | 0x11, // MTHI r4
        (5 << 21) | 0x13, // MTLO r5
        (6 << 11) | 0x10, // MFHI r6
        (7 << 11) | 0x12, // MFLO r7
    ]);
    run(&mut cpu, 6);
    assert_eq!(cpu.register(6), 0x11);
    assert_eq!(cpu.register(7), 0x22);
}

#[test]
fn misaligned_data_accesses_raise_exceptions() {
    let mut cpu = machine_with(&[
        0x2401_0001, // ADDIU r1, r0, 1
        0x8C23_0000, // LW r3, 0(r1) -> misaligned load
    ]);
    run(&mut cpu, 2);
    assert_eq!(cpu.cause(), 0x04 << 2);
    let mut cpu2 = machine_with(&[
        0x2401_0001, // ADDIU r1, r0, 1
        0xA423_0000, // SH r3, 0(r1) -> misaligned store
    ]);
    run(&mut cpu2, 2);
    assert_eq!(cpu2.cause(), 0x05 << 2);
    let mut cpu3 = machine_with(&[
        0x2401_0001, // ADDIU r1, r0, 1
        0x9423_0000, // LHU r3, 0(r1) -> misaligned load
    ]);
    run(&mut cpu3, 2);
    assert_eq!(cpu3.cause(), 0x04 << 2);
}

#[test]
fn swl_swr_write_partial_words() {
    let mut cpu = machine_with(&[
        0x3C01_1234, // LUI r1, 0x1234
        0x3421_5678, // ORI r1, r1, 0x5678
        0xAC01_0100, // SW r1, 0x100(r0)
        0x3C02_AABB, // LUI r2, 0xAABB
        0x3442_CCDD, // ORI r2, r2, 0xCCDD
        (0x2E << 26) | (0 << 21) | (2 << 16) | 0x0102, // SWR r2, 0x102(r0)
        0x8C03_0100, // LW r3, 0x100(r0)
        0x0000_0000, // NOP
    ]);
    run(&mut cpu, 8);
    // SWR at offset two keeps the word's low half and writes the register's
    // low half above it.
    assert_eq!(cpu.register(3), (0x1234_5678 & 0x0000_FFFF) | (0xAABB_CCDDu32 << 16));
}

#[test]
fn break_enters_handler() {
    let mut cpu = machine_with(&[0x0000_000D]);
    cpu.run_next_instruction().unwrap();
    assert_eq!(cpu.cause(), 0x09 << 2);
    assert_eq!(cpu.pc(), 0x8000_0080);
}

#[test]
fn exception_in_delay_slot_backs_up_epc() {
    let mut cpu = machine_with(&[
        0x1000_0002, // BEQ r0, r0, +2 (taken)
        0x0000_000C, // SYSCALL in the delay slot
        0x0000_0000,
        0x0000_0000,
    ]);
    run(&mut cpu, 2);
    // EPC points at the branch, and the cause flags the delay slot.
    assert_eq!(cpu.epc(), 0xBFC0_0000);
    assert_eq!(cpu.cause(), (0x08 << 2) | (1 << 31));
}

#[test]
fn swl_merges_register_bytes_per_offset() {
    // SWL stores the register's high bytes below the address: one byte at an
    // aligned address, two at offset one, the whole register at offset three;
    // the memory bytes outside the merge survive.
    let mut cpu = machine_with(&[
        0x3C01_1234, // LUI r1, 0x1234
        0x3421_5678, // ORI r1, r1, 0x5678
        0xAC01_0100, // SW r1, 0x100(r0)
        0xAC01_0200, // SW r1, 0x200(r0)
        0xAC01_0300, // SW r1, 0x300(r0)
        0x3C02_AABB, // LUI r2, 0xAABB
        0x3442_CCDD, // ORI r2, r2, 0xCCDD
        (0x2A << 26) | (2 << 16) | 0x0100, // SWL r2, 0x100(r0)
        (0x2A << 26) | (2 << 16) | 0x0201, // SWL r2, 0x201(r0)
        (0x2A << 26) | (2 << 16) | 0x0303, // SWL r2, 0x303(r0)
        0x8C03_0100, // LW r3, 0x100(r0)
        0x8C04_0200, // LW r4, 0x200(r0)
        0x8C05_0300, // LW r5, 0x300(r0)
        0x0000_0000, // NOP
    ]);
    run(&mut cpu, 14);
    assert_eq!(cpu.register(3), 0x1234_56AA);
    assert_eq!(cpu.register(4), 0x1234_AABB);
    assert_eq!(cpu.register(5), 0xAABB_CCDD);
}
