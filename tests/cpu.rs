use gameboy::cartridge::{Cartridge, RomHeader};
use gameboy::cpu::CPU;

fn rom_with(program: &[u8]) -> Vec<u8> {
    let mut rom = vec![0u8; 0x8000];
    rom[0x100..0x100 + program.len()].copy_from_slice(program);
    rom
}

fn cartridge_of(rom: Vec<u8>) -> Cartridge {
    let rom_header = RomHeader::parse(&rom).unwrap();
    Cartridge { rom_data: rom, rom_header }
}

fn cpu_with(program: &[u8]) -> CPU {
    CPU::new(cartridge_of(rom_with(program)))
}

fn run(cpu: &mut CPU, steps: usize) -> u64 {
    let mut total = 0;
    for _ in 0..steps {
        total += cpu.step();
    }
    total
}

#[test]
fn register_init() {
    let cpu = cpu_with(&[]);
    let r = cpu.registers;
    assert_eq!(r.a, 0x11);
    assert_eq!(r.f, 0x00);
    assert_eq!(r.b, 0x01);
    assert_eq!(r.c, 0x00);
    assert_eq!(r.d, 0x00);
    assert_eq!(r.e, 0x08);
    assert_eq!(r.h, 0x00);
    assert_eq!(r.l, 0x7C);
    assert_eq!(r.sp, 0xFFFE);
    assert_eq!(r.pc, 0x0100);
    assert_eq!(cpu.cycles, 0);
    assert!(!cpu.ime);
}

#[test]
fn nop_loop_cycles() {
    let mut cpu = cpu_with(&[]);
    let start = cpu.cycles;
    let spent = run(&mut cpu, 100);
    assert_eq!(cpu.registers.pc, 0x0164);
    assert_eq!(spent, 100);
    assert_eq!(cpu.cycles - start, 100);
}

#[test]
fn ld_then_add() {
    let mut cpu = cpu_with(&[0x06, 0xC6, 0x80]);
    cpu.registers.a = 0x3A;
    assert_eq!(cpu.step(), 2);
    assert_eq!(cpu.registers.b, 0xC6);
    assert_eq!(cpu.step(), 1);
    assert_eq!(cpu.registers.a, 0x00);
    assert!(cpu.registers.get_zero_flag());
    assert!(!cpu.registers.get_subtraction_flag());
    assert!(cpu.registers.get_half_carry_flag());
    assert!(cpu.registers.get_carry_flag());
    assert_eq!(cpu.registers.f, 0xB0);
}

#[test]
fn call_then_ret() {
    let mut rom = rom_with(&[0xCD, 0x34, 0x12]);
    rom[0x1234] = 0xC9;
    let mut cpu = CPU::new(cartridge_of(rom));
    assert_eq!(cpu.step(), 6);
    assert_eq!(cpu.registers.pc, 0x1234);
    assert_eq!(cpu.registers.sp, 0xFFFC);
    assert_eq!(cpu.bus.read_word(0xFFFC), 0x0103);
    assert_eq!(cpu.step(), 4);
    assert_eq!(cpu.registers.pc, 0x0103);
    assert_eq!(cpu.registers.sp, 0xFFFE);
    assert_eq!(cpu.cycles, 10);
    // RET only moves SP: the return address stays below it.
    assert_eq!(cpu.bus.read_byte(0xFFFC), 0x03);
    assert_eq!(cpu.bus.read_byte(0xFFFD), 0x01);
}

#[test]
fn flags_low_nibble_stays_zero() {
    // LD BC,0xFFFF; PUSH BC; POP AF; ADD A,0x0F; DAA; CPL; SCF; CCF; RLA; INC A; DEC A
    let program = [
        0x01, 0xFF, 0xFF, 0xC5, 0xF1, 0xC6, 0x0F, 0x27, 0x2F, 0x37, 0x3F, 0x17, 0x3C, 0x3D,
    ];
    let mut cpu = cpu_with(&program);
    for _ in 0..11 {
        cpu.step();
        assert_eq!(cpu.registers.f & 0x0F, 0);
    }
}

#[test]
fn pop_af_masks_low_nibble() {
    // LD BC,0x12FF; PUSH BC; POP AF
    let mut cpu = cpu_with(&[0x01, 0xFF, 0x12, 0xC5, 0xF1]);
    run(&mut cpu, 3);
    assert_eq!(cpu.registers.a, 0x12);
    assert_eq!(cpu.registers.f, 0xF0);
    assert_eq!(cpu.registers.get_af(), 0x12F0);
}

#[test]
fn ld_rp_round_trip() {
    // LD BC,0x1234; LD DE,0xBEEF; LD HL,0x8001; LD SP,0xDFF0
    let mut cpu = cpu_with(&[0x01, 0x34, 0x12, 0x11, 0xEF, 0xBE, 0x21, 0x01, 0x80, 0x31, 0xF0, 0xDF]);
    assert_eq!(run(&mut cpu, 4), 12);
    assert_eq!(cpu.registers.get_bc(), 0x1234);
    assert_eq!(cpu.registers.get_de(), 0xBEEF);
    assert_eq!(cpu.registers.get_hl(), 0x8001);
    assert_eq!(cpu.registers.sp, 0xDFF0);
    assert_eq!(cpu.get_register_from_table_rp(0), 0x1234);
    assert_eq!(cpu.get_register_from_table_rp(3), 0xDFF0);
}

#[test]
fn rlca_then_rrca() {
    for a in [0x81u8, 0x00, 0xFF, 0x5A] {
        let mut cpu = cpu_with(&[0x07, 0x0F]);
        cpu.registers.a = a;
        cpu.registers.f = 0xF0;
        run(&mut cpu, 2);
        assert_eq!(cpu.registers.a, a);
        assert!(!cpu.registers.get_zero_flag());
        assert!(!cpu.registers.get_subtraction_flag());
        assert!(!cpu.registers.get_half_carry_flag());
        assert_eq!(cpu.registers.get_carry_flag(), a & 0x80 != 0);
    }
}

#[test]
fn rlca_sets_carry_from_bit_seven() {
    let mut cpu = cpu_with(&[0x07]);
    cpu.registers.a = 0x85;
    cpu.step();
    assert_eq!(cpu.registers.a, 0x0B);
    assert_eq!(cpu.registers.f, 0x10);
}

#[test]
fn alu_golden_values() {
    // (program, A, F in, expected A, expected F)
    let cases: [(&[u8], u8, u8, u8, u8); 14] = [
        (&[0xD6, 0x3E], 0x3E, 0x00, 0x00, 0xC0), // SUB 0x3E
        (&[0xD6, 0x0F], 0x3E, 0x00, 0x2F, 0x60), // SUB 0x0F
        (&[0xDE, 0x2A], 0x3B, 0x10, 0x10, 0x40), // SBC 0x2A with C
        (&[0xCE, 0x0F], 0xE1, 0x10, 0xF1, 0x20), // ADC 0x0F with C
        (&[0xC6, 0xFF], 0x01, 0x00, 0x00, 0xB0), // ADD 0xFF
        (&[0xE6, 0x38], 0x5A, 0x00, 0x18, 0x20), // AND 0x38
        (&[0xF6, 0x0F], 0x5A, 0x00, 0x5F, 0x00), // OR 0x0F
        (&[0xAF], 0x5A, 0x00, 0x00, 0x80),       // XOR A
        (&[0xFE, 0x40], 0x3C, 0x00, 0x3C, 0x50), // CP 0x40
        (&[0xFE, 0x3C], 0x3C, 0x00, 0x3C, 0xC0), // CP 0x3C
        (&[0x3C], 0xFF, 0x10, 0x00, 0xB0),       // INC A keeps C
        (&[0x3D], 0x00, 0x00, 0xFF, 0x60),       // DEC A
        (&[0x2F], 0x35, 0x00, 0xCA, 0x60),       // CPL
        (&[0x27], 0x7D, 0x00, 0x83, 0x00),       // DAA after 0x45 + 0x38
    ];
    for (program, a, f, want_a, want_f) in cases.iter() {
        let mut cpu = cpu_with(program);
        cpu.registers.a = *a;
        cpu.registers.f = *f;
        cpu.step();
        assert_eq!(cpu.registers.a, *want_a, "program {:02X?}", program);
        assert_eq!(cpu.registers.f, *want_f, "program {:02X?}", program);
    }
}

#[test]
fn daa_after_subtraction() {
    // A = 0x83 - 0x38 = 0x4B with N and H set: DAA gives 0x45.
    let mut cpu = cpu_with(&[0xD6, 0x38, 0x27]);
    cpu.registers.a = 0x83;
    run(&mut cpu, 2);
    assert_eq!(cpu.registers.a, 0x45);
    assert!(cpu.registers.get_subtraction_flag());
    assert!(!cpu.registers.get_carry_flag());
}

#[test]
fn scf_and_ccf() {
    let mut cpu = cpu_with(&[0x37, 0x3F]);
    cpu.registers.f = 0x60;
    cpu.step();
    assert_eq!(cpu.registers.f, 0x10);
    cpu.step();
    assert_eq!(cpu.registers.f, 0x00);
}

#[test]
fn add_hl_flags() {
    // LD HL,0x8A23; LD BC,0x0605; ADD HL,BC; ADD HL,HL
    let mut cpu = cpu_with(&[0x21, 0x23, 0x8A, 0x01, 0x05, 0x06, 0x09, 0x29]);
    cpu.registers.f = 0x80;
    run(&mut cpu, 3);
    assert_eq!(cpu.registers.get_hl(), 0x9028);
    assert_eq!(cpu.registers.f, 0xA0);
    assert_eq!(cpu.step(), 2);
    assert_eq!(cpu.registers.get_hl(), 0x2050);
    assert_eq!(cpu.registers.f, 0x90);
}

#[test]
fn sp_offset_instructions() {
    // ADD SP,2 ; LD HL,SP-1
    let mut cpu = cpu_with(&[0xE8, 0x02, 0xF8, 0xFF]);
    cpu.registers.sp = 0xFFF8;
    assert_eq!(cpu.step(), 4);
    assert_eq!(cpu.registers.sp, 0xFFFA);
    assert_eq!(cpu.registers.f, 0x00);
    assert_eq!(cpu.step(), 3);
    assert_eq!(cpu.registers.get_hl(), 0xFFF9);
    assert_eq!(cpu.registers.f, 0x30);
}

#[test]
fn cb_rotates_and_shifts() {
    // (CB opcode, B in, carry in, B out, F out)
    let cases: [(u8, u8, bool, u8, u8); 9] = [
        (0x00, 0x85, false, 0x0B, 0x10), // RLC B
        (0x08, 0x01, false, 0x80, 0x10), // RRC B
        (0x10, 0x80, false, 0x00, 0x90), // RL B
        (0x18, 0x01, false, 0x00, 0x90), // RR B
        (0x18, 0x00, true, 0x80, 0x00),  // RR B with C
        (0x20, 0x80, false, 0x00, 0x90), // SLA B
        (0x28, 0x8A, false, 0xC5, 0x00), // SRA B
        (0x30, 0xF0, false, 0x0F, 0x00), // SWAP B
        (0x38, 0x01, false, 0x00, 0x90), // SRL B
    ];
    for (op, b, carry, want_b, want_f) in cases.iter() {
        let mut cpu = cpu_with(&[0xCB, *op]);
        cpu.registers.b = *b;
        cpu.registers.f = if *carry { 0x10 } else { 0x00 };
        assert_eq!(cpu.step(), 2);
        assert_eq!(cpu.registers.b, *want_b, "CB {:02X}", op);
        assert_eq!(cpu.registers.f, *want_f, "CB {:02X}", op);
    }
}

#[test]
fn cb_bit_res_set() {
    // BIT 7,H; BIT 4,L; RES 0,A; SET 3,A
    let mut cpu = cpu_with(&[0xCB, 0x7C, 0xCB, 0x65, 0xCB, 0x87, 0xCB, 0xDF]);
    cpu.registers.h = 0x80;
    cpu.registers.l = 0xEF;
    cpu.registers.a = 0x01;
    cpu.registers.f = 0x10;
    cpu.step();
    assert_eq!(cpu.registers.f, 0x30);
    cpu.step();
    assert_eq!(cpu.registers.f, 0xB0);
    assert_eq!(cpu.registers.l, 0xEF);
    cpu.step();
    assert_eq!(cpu.registers.a, 0x00);
    cpu.step();
    assert_eq!(cpu.registers.a, 0x08);
}

#[test]
fn hl_operand_cycles() {
    // LD HL,0xC000; LD (HL),0x41; INC (HL); BIT 0,(HL); SET 7,(HL); ADD A,(HL)
    let mut cpu = cpu_with(&[0x21, 0x00, 0xC0, 0x36, 0x41, 0x34, 0xCB, 0x46, 0xCB, 0xFE, 0x86]);
    cpu.registers.a = 0;
    assert_eq!(cpu.step(), 3);
    assert_eq!(cpu.step(), 3);
    assert_eq!(cpu.step(), 3);
    assert_eq!(cpu.bus.read_byte(0xC000), 0x42);
    assert_eq!(cpu.step(), 3);
    assert!(cpu.registers.get_zero_flag());
    assert_eq!(cpu.step(), 4);
    assert_eq!(cpu.bus.read_byte(0xC000), 0xC2);
    assert_eq!(cpu.step(), 2);
    assert_eq!(cpu.registers.a, 0xC2);
}

#[test]
fn jumps_and_branch_costs() {
    // JR +2; (skipped 2 bytes); JR NZ,-4 (not taken, Z set); JP Z,0x0200 (taken)
    let mut cpu = cpu_with(&[0x18, 0x02, 0x00, 0x00, 0x20, 0xFC, 0xCA, 0x00, 0x02]);
    cpu.registers.f = 0x80;
    assert_eq!(cpu.step(), 3);
    assert_eq!(cpu.registers.pc, 0x0104);
    assert_eq!(cpu.step(), 2);
    assert_eq!(cpu.registers.pc, 0x0106);
    assert_eq!(cpu.step(), 4);
    assert_eq!(cpu.registers.pc, 0x0200);
}

#[test]
fn jr_backwards() {
    // NOP; JR -3 lands back on the NOP.
    let mut cpu = cpu_with(&[0x00, 0x18, 0xFD]);
    run(&mut cpu, 2);
    assert_eq!(cpu.registers.pc, 0x0100);
}

#[test]
fn conditional_call_and_ret_costs() {
    // CALL NC,0x0200 (not taken: C set); RET C (taken) is at 0x0200 after CALL 0x0200
    let mut rom = rom_with(&[0xD4, 0x00, 0x02, 0xCD, 0x00, 0x02]);
    rom[0x0200] = 0xD8;
    let mut cpu = CPU::new(cartridge_of(rom));
    cpu.registers.f = 0x10;
    assert_eq!(cpu.step(), 3);
    assert_eq!(cpu.step(), 6);
    assert_eq!(cpu.step(), 5);
    assert_eq!(cpu.registers.pc, 0x0106);
}

#[test]
fn rst_pushes_and_jumps() {
    let mut cpu = cpu_with(&[0xEF]);
    assert_eq!(cpu.step(), 4);
    assert_eq!(cpu.registers.pc, 0x0028);
    assert_eq!(cpu.bus.read_word(cpu.registers.sp), 0x0101);
}

#[test]
fn ldh_and_indirect_loads() {
    // LDH (0x80),A; LD HL,0xC010; LD (HL+),A; LD A,(HL-); LDH A,(0x80)
    let mut cpu = cpu_with(&[0xE0, 0x80, 0x21, 0x10, 0xC0, 0x22, 0x3A, 0xF0, 0x80]);
    cpu.registers.a = 0x5C;
    assert_eq!(cpu.step(), 3);
    assert_eq!(cpu.bus.read_byte(0xFF80), 0x5C);
    cpu.step();
    assert_eq!(cpu.step(), 2);
    assert_eq!(cpu.registers.get_hl(), 0xC011);
    assert_eq!(cpu.bus.read_byte(0xC010), 0x5C);
    cpu.step();
    assert_eq!(cpu.registers.get_hl(), 0xC010);
    cpu.registers.a = 0;
    assert_eq!(cpu.step(), 3);
    assert_eq!(cpu.registers.a, 0x5C);
}

#[test]
fn unused_opcode_acts_as_nop() {
    let mut cpu = cpu_with(&[0xD3, 0xE4]);
    assert_eq!(cpu.step(), 1);
    assert_eq!(cpu.step(), 1);
    assert_eq!(cpu.registers.pc, 0x0102);
}

#[test]
fn interrupt_service() {
    let mut cpu = cpu_with(&[]);
    cpu.bus.write_byte(0xFFFF, 0x05);
    cpu.bus.write_byte(0xFF0F, 0x04);
    cpu.ime = true;
    assert_eq!(cpu.step(), 5);
    assert!(!cpu.ime);
    assert_eq!(cpu.registers.pc, 0x0050);
    assert_eq!(cpu.registers.sp, 0xFFFC);
    assert_eq!(cpu.bus.read_byte(0xFF0F) & 0x04, 0);
    assert_eq!(cpu.bus.read_byte(0xFFFC), 0x00);
    assert_eq!(cpu.bus.read_byte(0xFFFD), 0x01);
}

#[test]
fn interrupt_priority_vblank_first() {
    let mut cpu = cpu_with(&[]);
    cpu.bus.write_byte(0xFFFF, 0x1F);
    cpu.bus.write_byte(0xFF0F, 0x13);
    cpu.ime = true;
    cpu.step();
    assert_eq!(cpu.registers.pc, 0x0040);
    assert_eq!(cpu.bus.read_byte(0xFF0F), 0x12);
}

#[test]
fn ei_takes_effect_after_next_instruction() {
    // EI; NOP; NOP with a pending enabled interrupt.
    let mut cpu = cpu_with(&[0xFB, 0x00, 0x00]);
    cpu.bus.write_byte(0xFFFF, 0x01);
    cpu.bus.write_byte(0xFF0F, 0x01);
    cpu.step();
    assert!(!cpu.ime);
    cpu.step();
    assert!(cpu.ime);
    assert_eq!(cpu.registers.pc, 0x0102);
    cpu.step();
    assert_eq!(cpu.registers.pc, 0x0040);
}

#[test]
fn di_cancels_pending_ei() {
    let mut cpu = cpu_with(&[0xFB, 0xF3, 0x00]);
    run(&mut cpu, 3);
    assert!(!cpu.ime);
}

#[test]
fn reti_enables_immediately() {
    let mut rom = rom_with(&[0xCD, 0x00, 0x02]);
    rom[0x0200] = 0xD9;
    let mut cpu = CPU::new(cartridge_of(rom));
    run(&mut cpu, 2);
    assert!(cpu.ime);
    assert_eq!(cpu.registers.pc, 0x0103);
}

#[test]
fn halt_waits_for_interrupt() {
    let mut cpu = cpu_with(&[0x76, 0x00]);
    cpu.step();
    assert!(cpu.halted);
    assert_eq!(cpu.step(), 1);
    assert_eq!(cpu.registers.pc, 0x0101);
    cpu.bus.write_byte(0xFFFF, 0x04);
    cpu.bus.write_byte(0xFF0F, 0x04);
    // IME is off: HALT ends without servicing.
    cpu.step();
    assert!(!cpu.halted);
    assert_eq!(cpu.registers.pc, 0x0102);
}
