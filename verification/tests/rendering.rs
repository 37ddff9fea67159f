use procsim::alu::Alu;
use procsim::constants::{ADD, BEQ, BLT, BNEQ, JMP, NEG, NICHT, ODER, SUBT, UND};
use procsim::processor::Processor;
use procsim::rom_reader::DataReader;
use procsim::text::{format_byte, format_flag, format_half, format_word, Radix};

#[test]
fn word_formats() {
    assert_eq!(format_word(-1, Radix::Hex), "ffffffff");
    assert_eq!(format_word(255, Radix::Hex), "000000ff");
    assert_eq!(format_word(-5, Radix::Dec), "-000000005");
    assert_eq!(format_word(42, Radix::Dec), "0000000042");
    assert_eq!(format_word(i32::MIN, Radix::Dec), "-2147483648");
    assert_eq!(format_word(5, Radix::Bin), "00000000000000000000000000000101");
    assert_eq!(format_word(-1, Radix::Bin), "1".repeat(32));
    for x in [0, 1, -1, 7, -300, i32::MAX, i32::MIN, 123456789] {
        assert_eq!(format_word(x, Radix::Hex), format!("{:08x}", x));
        assert_eq!(format_word(x, Radix::Dec), format!("{:010}", x));
        assert_eq!(format_word(x, Radix::Bin), format!("{:032b}", x));
    }
}

#[test]
fn narrow_formats() {
    for x in [0i8, 1, -1, 31, -32, i8::MAX, i8::MIN] {
        assert_eq!(format_byte(x, Radix::Hex), format!("{:02x}", x));
        assert_eq!(format_byte(x, Radix::Dec), format!("{:03}", x));
        assert_eq!(format_byte(x, Radix::Bin), format!("{:08b}", x));
    }
    for x in [0i16, 1, -1, 1000, -1000, i16::MAX, i16::MIN] {
        assert_eq!(format_half(x, Radix::Hex), format!("{:04x}", x));
        assert_eq!(format_half(x, Radix::Dec), format!("{:05}", x));
        assert_eq!(format_half(x, Radix::Bin), format!("{:016b}", x));
    }
    for r in [Radix::Hex, Radix::Dec, Radix::Bin] {
        assert_eq!(format_flag(true, r), "1");
        assert_eq!(format_flag(false, r), "0");
    }
}

#[test]
fn binary_rendering_reads_back_as_rom_word() {
    for x in [0, 1, 5, 1 << 20, i32::MAX] {
        let text = format!("0 {}\n", format_word(x, Radix::Bin));
        let rom = DataReader::read_rom_from_text(&text, 1).unwrap();
        assert_eq!(rom[0], x);
    }
}

#[test]
fn decimal_rendering_reads_back_as_rom_address() {
    let text = format!("{} 1\n", format_word(12, Radix::Dec));
    let rom = DataReader::read_rom_from_text(&text, 16).unwrap();
    assert_eq!(rom[12], 1);
}

#[test]
fn machine_text_in_each_radix() {
    let mut p = Processor::new_empty_rom();
    p.rom[1] = -2;
    p.decode.reg_bank[3] = 10;
    p.execute.br_flag = true;
    let h = p.to_hex();
    assert_eq!(h.rom.len(), 65536);
    assert_eq!(h.rom[1], "fffffffe");
    assert_eq!(h.decode.reg_bank[3], "0000000a");
    assert_eq!(h.decode.opcode, "00");
    assert_eq!(h.decode.imm, "0000");
    assert_eq!(h.execute.br_flag, "1");
    assert_eq!(h.num_representation, "hex");
    assert_eq!(h.changed_ramfield, ("00000000".to_string(), "00000000".to_string()));
    let d = p.to_dec();
    assert_eq!(d.rom[1], "-000000002");
    assert_eq!(d.decode.r1, "000");
    assert_eq!(d.memory.imm, "00000");
    let b = p.to_bin();
    assert_eq!(b.decode.reg_bank[3], "00000000000000000000000000001010");
    assert_eq!(b.write_back.opcode, "00000000");
}

#[test]
fn state_text_follows_representation() {
    let mut p = Processor::new_empty_rom();
    assert_eq!(p.state_text().unwrap().fetch.pc, "00000000");
    p.set_num_rep("dec".to_string());
    assert_eq!(p.state_text().unwrap().fetch.pc, "0000000000");
    p.set_num_rep("bin".to_string());
    assert_eq!(p.state_text().unwrap().fetch.pc.len(), 32);
    p.set_num_rep("raw".to_string());
    assert!(p.state_text().is_none());
}

#[test]
fn alu_operations() {
    assert_eq!(Alu::op(ADD, 2, 3, 0, 0), (5, false));
    assert_eq!(Alu::op(SUBT, 2, 3, 0, 0), (-1, false));
    assert_eq!(Alu::op(NEG, 2, 0, 0, 0), (-2, false));
    assert_eq!(Alu::op(NICHT, 0, 0, 0, 0), (-1, false));
    // UND combines by exclusive or
    assert_eq!(Alu::op(UND, 6, 3, 0, 0), (5, false));
    assert_eq!(Alu::op(ODER, 6, 3, 0, 0), (7, false));
    assert_eq!(Alu::op(BEQ, 4, 4, 0, 0), (0, true));
    assert_eq!(Alu::op(BEQ, 4, 5, 0, 0), (0, false));
    assert_eq!(Alu::op(BNEQ, 4, 5, 0, 0), (0, true));
    assert_eq!(Alu::op(BLT, 4, 5, 0, 0), (0, true));
    assert_eq!(Alu::op(BLT, 5, 4, 0, 0), (0, false));
    assert_eq!(Alu::op(JMP, 5, 4, 0, 0), (0, false));
    assert!(!Alu::op_ok(ADD, i32::MAX, 1));
    assert!(!Alu::op_ok(SUBT, i32::MIN, 1));
    assert!(!Alu::op_ok(NEG, i32::MIN, 0));
    assert!(Alu::op_ok(NEG, i32::MAX, 0));
}

#[test]
fn every_rendering_reads_back() {
    for x in [0, 1, -1, 42, -42, i32::MAX, i32::MIN, 0x1234_abcd] {
        let h = format_word(x, Radix::Hex);
        assert_eq!(h.len(), 8);
        assert_eq!(u32::from_str_radix(&h, 16).unwrap() as i32, x);
        let b = format_word(x, Radix::Bin);
        assert_eq!(b.len(), 32);
        assert_eq!(u32::from_str_radix(&b, 2).unwrap() as i32, x);
        let d = format_word(x, Radix::Dec);
        assert_eq!(d.parse::<i64>().unwrap(), x as i64);
        assert_eq!(d.len(), std::cmp::max(10, x.to_string().len()));
    }
    for x in [0i16, -1, i16::MIN, i16::MAX, 300] {
        assert_eq!(u16::from_str_radix(&format_half(x, Radix::Hex), 16).unwrap() as i16, x);
        assert_eq!(u16::from_str_radix(&format_half(x, Radix::Bin), 2).unwrap() as i16, x);
        assert_eq!(format_half(x, Radix::Dec).parse::<i16>().unwrap(), x);
    }
    for x in [0i8, -1, i8::MIN, i8::MAX, 31] {
        assert_eq!(u8::from_str_radix(&format_byte(x, Radix::Hex), 16).unwrap() as i8, x);
        assert_eq!(u8::from_str_radix(&format_byte(x, Radix::Bin), 2).unwrap() as i8, x);
        assert_eq!(format_byte(x, Radix::Dec).parse::<i8>().unwrap(), x);
    }
}

#[test]
fn machine_text_reads_back() {
    let mut p = Processor::new_empty_rom();
    p.rom[7] = -123456;
    p.decode.reg_bank[31] = i32::MIN;
    let h = p.to_hex();
    assert_eq!(u32::from_str_radix(&h.rom[7], 16).unwrap() as i32, -123456);
    assert_eq!(u32::from_str_radix(&h.decode.reg_bank[31], 16).unwrap() as i32, i32::MIN);
    let d = p.to_dec();
    assert_eq!(d.rom[7].parse::<i32>().unwrap(), -123456);
}
