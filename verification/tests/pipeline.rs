use procsim::constants::{ADD, BEQ, HALT, JMP, LDI, LDW, NEG, STW, SUBT};
use procsim::processor::Processor;

fn enc(opcode: i8, r1: i32, r2: i32, r3: i32, imm: i32) -> i32 {
    ((opcode as i32) << 26) | (r1 << 21) | (r2 << 16) | (r3 << 11) | (imm & 0xFFFF)
}

fn ldi(reg: i32, imm: i32) -> i32 {
    enc(LDI, 0, reg, 0, imm)
}

fn machine(words: &[(usize, i32)]) -> Processor {
    let mut p = Processor::new_empty_rom();
    for &(a, w) in words {
        p.rom[a] = w;
    }
    p
}

fn run(p: &mut Processor, n: usize) {
    for _ in 0..n {
        assert!(p.can_clock());
        p.clock();
    }
}

#[test]
fn empty_rom_machine_starts_zeroed() {
    let p = Processor::new_empty_rom();
    assert_eq!(p.rom.len(), 65536);
    assert_eq!(p.ram.len(), 65536);
    assert!(p.rom.iter().all(|&w| w == 0));
    assert!(p.ram.iter().all(|&w| w == 0));
    assert_eq!(p.decode.reg_bank, vec![0; 32]);
    assert_eq!(p.num_representation, "hex");
    assert_eq!(p.get_rom_path(), "");
    assert_eq!(p.changed_ramfield, (0, 0));
    assert_eq!(p.fetch.pc, 0);
}

#[test]
fn fetch_advances_pc_and_latches_word() {
    let mut p = machine(&[(0, 1234), (1, 5678)]);
    p.clock();
    assert_eq!(p.fetch.ir, 1234);
    assert_eq!(p.fetch.pc, 1);
    p.clock();
    assert_eq!(p.fetch.ir, 5678);
    assert_eq!(p.fetch.pc, 2);
    // the decode stage got the word fetched one cycle before
    assert_eq!(p.decode.ir, 1234);
    assert_eq!(p.decode.pc, 1);
}

#[test]
fn decode_splits_fields() {
    let w = enc(ADD, 1, 2, 3, 0) | (4 << 6) | 5;
    let mut p = machine(&[(0, w)]);
    run(&mut p, 2);
    assert_eq!(p.decode.opcode, ADD);
    assert_eq!(p.decode.r1, 1);
    assert_eq!(p.decode.r2, 2);
    assert_eq!(p.decode.r3, 3);
    assert_eq!(p.decode.r4, 4);
    assert_eq!(p.decode.r5, 5);
    assert_eq!(p.decode.long_imm, w & 0x3FFFFFF);
    assert_eq!(p.decode.imm, (w & 0xFFFF) as i16);
}

#[test]
fn negative_immediate_is_sign_extended() {
    let mut p = machine(&[(0, ldi(1, -3))]);
    run(&mut p, 6);
    assert_eq!(p.decode.reg_bank[1], -3);
}

#[test]
fn ldi_reaches_register_after_six_cycles() {
    let mut p = machine(&[(0, ldi(1, 5))]);
    run(&mut p, 5);
    assert_eq!(p.decode.reg_bank[1], 0);
    assert!(p.write_back.write_en);
    assert_eq!(p.write_back.r1, 1);
    assert_eq!(p.write_back.data, 5);
    p.clock();
    assert_eq!(p.decode.reg_bank[1], 5);
}

#[test]
fn add_and_subtract() {
    let mut p = machine(&[
        (0, ldi(1, 5)),
        (1, ldi(2, 7)),
        (6, enc(ADD, 1, 2, 3, 0)),
        (7, enc(SUBT, 1, 2, 4, 0)),
        (8, enc(NEG, 1, 0, 5, 0)),
    ]);
    run(&mut p, 14);
    assert_eq!(p.decode.reg_bank[3], 12);
    assert_eq!(p.decode.reg_bank[4], -2);
    assert_eq!(p.decode.reg_bank[5], -5);
}

#[test]
fn store_then_load() {
    let mut p = machine(&[
        (0, ldi(1, 42)),
        (1, ldi(2, 100)),
        (7, enc(STW, 1, 2, 0, 0)),
        (8, enc(LDW, 0, 2, 0, 0)),
    ]);
    // STW at address 7 reaches the memory stage on clock 11
    run(&mut p, 10);
    assert_eq!(p.ram[100], 0);
    p.clock();
    assert_eq!(p.ram[100], 42);
    assert_eq!(p.changed_ramfield, (100, 42));
    assert!(!p.memory.nwe);
    // the LDW behind it reads the stored word
    p.clock();
    assert_eq!(p.changed_ramfield, (-1, -1));
    assert_eq!(p.memory.data_out, 42);
    // LDW writes register r2 of its word: here register 2
    run(&mut p, 2);
    assert_eq!(p.decode.reg_bank[2], 42);
}

#[test]
fn store_to_negative_address_uses_low_bits() {
    let mut p = machine(&[(0, ldi(1, 9)), (1, ldi(2, -1)), (7, enc(STW, 1, 2, 0, 0))]);
    run(&mut p, 11);
    assert_eq!(p.ram[65535], 9);
    assert_eq!(p.changed_ramfield, (65535, 9));
    // the latched address keeps the sign of `%`
    assert_eq!(p.memory.addr, -1);
}

#[test]
fn load_from_negative_address_uses_low_bits() {
    let mut p = machine(&[(1, ldi(2, -1)), (7, enc(LDW, 0, 2, 0, 0))]);
    p.ram[0] = 77;
    p.ram[65535] = 88;
    run(&mut p, 11);
    // a load latches address 0 where the address's remainder is negative
    assert_eq!(p.memory.addr, 0);
    assert_eq!(p.memory.data_out, 88);
}

#[test]
fn store_then_load_at_negative_address() {
    let mut p = machine(&[
        (0, ldi(1, 42)),
        (1, ldi(2, -3)),
        (7, enc(STW, 1, 2, 0, 0)),
        (8, enc(LDW, 0, 2, 0, 0)),
    ]);
    run(&mut p, 11);
    assert_eq!(p.ram[65533], 42);
    assert_eq!(p.changed_ramfield, (65533, 42));
    p.clock();
    assert_eq!(p.memory.data_out, 42);
}

#[test]
fn jump_redirects_fetch() {
    let mut p = machine(&[(0, enc(JMP, 0, 0, 0, 0) | 10)]);
    run(&mut p, 4);
    assert!(p.memory.br_flag);
    assert_eq!(p.memory.pc, 10);
    p.clock();
    assert_eq!(p.fetch.pc, 10);
}

#[test]
fn taken_branch_adds_immediate_to_successor_address() {
    // registers 0 and 0 are equal, so BEQ is taken; its pc is its address + 1
    let mut p = machine(&[(0, enc(BEQ, 0, 0, 0, 5))]);
    run(&mut p, 3);
    assert!(p.execute.br_flag);
    p.clock();
    assert_eq!(p.memory.pc, 6);
    p.clock();
    assert_eq!(p.fetch.pc, 6);
}

#[test]
fn halt_holds_the_program_counter() {
    let mut p = machine(&[(0, (HALT as i32) << 26)]);
    run(&mut p, 5);
    assert_eq!(p.fetch.pc, 0);
    assert_eq!(p.fetch.ir, (HALT as i32) << 26);
}

#[test]
fn overflowing_add_cannot_clock() {
    let mut p = Processor::new_empty_rom();
    p.decode.opcode = ADD;
    p.decode.a = i32::MAX;
    p.decode.b = 1;
    assert!(!p.can_clock());
    p.decode.b = 0;
    assert!(p.can_clock());
}

#[test]
fn program_counter_outside_rom_cannot_clock() {
    let mut p = Processor::new_empty_rom();
    p.fetch.pc = 65536;
    assert!(!p.can_clock());
    p.fetch.pc = -1;
    assert!(!p.can_clock());
}

#[test]
fn reset_after_clocks_equals_fresh_machine() {
    let mut p = machine(&[(0, ldi(1, 5)), (3, enc(STW, 1, 1, 0, 0))]);
    p.set_num_rep("dec".to_string());
    run(&mut p, 10);
    let r = p.reset();
    assert_eq!(r.rom, p.rom);
    assert!(r.ram.iter().all(|&w| w == 0));
    assert_eq!(r.decode.reg_bank, vec![0; 32]);
    assert_eq!(r.fetch.pc, 0);
    assert_eq!(r.num_representation, "dec");
    assert_eq!(r.changed_ramfield, (0, 0));
    let rr = r.reset();
    assert_eq!(rr.rom, r.rom);
    assert_eq!(rr.num_representation, r.num_representation);
}

#[test]
fn clock_keeps_rom_and_representation() {
    let mut p = machine(&[(0, ldi(1, 5))]);
    let rom = p.rom.clone();
    run(&mut p, 8);
    assert_eq!(p.rom, rom);
    assert_eq!(p.num_representation, "hex");
}

#[test]
fn non_store_with_negative_address_latches_zero() {
    // an arithmetic instruction passes register b through as the address
    let mut p = machine(&[(1, ldi(2, -5)), (7, enc(ADD, 0, 2, 3, 0))]);
    run(&mut p, 11);
    assert_eq!(p.memory.opcode, ADD);
    assert_eq!(p.memory.addr, 0);
    assert_eq!(p.changed_ramfield, (-1, -1));
}
