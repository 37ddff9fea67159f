use procsim::processor::Processor;
use procsim::rom_reader::{DataReader, RomError, RomErrorKind};

fn read(text: &str) -> Result<Vec<i32>, RomError> {
    DataReader::read_rom_from_text(text, 16)
}

fn err(line: usize, kind: RomErrorKind) -> Result<Vec<i32>, RomError> {
    Err(RomError { line, kind })
}

#[test]
fn reads_words_at_their_addresses() {
    let rom = read("0 101\n3 11111 // three ones\n").unwrap();
    assert_eq!(rom.len(), 16);
    assert_eq!(rom[0], 5);
    assert_eq!(rom[3], 31);
    assert_eq!(rom.iter().filter(|&&w| w != 0).count(), 2);
}

#[test]
fn later_lines_override_earlier() {
    let rom = read("2 1\n2 10\n").unwrap();
    assert_eq!(rom[2], 2);
}

#[test]
fn comment_only_word_stores_nothing() {
    let rom = read("1 //nothing here\n99 //address beyond the rom is not checked\n").unwrap();
    assert!(rom.iter().all(|&w| w == 0));
}

#[test]
fn crlf_and_missing_final_newline() {
    let rom = read("1 11\r\n2 1").unwrap();
    assert_eq!(rom[1], 3);
    assert_eq!(rom[2], 1);
}

#[test]
fn only_the_second_field_is_the_word() {
    // the word ends at the next space
    let rom = read("4 1010 1111\n").unwrap();
    assert_eq!(rom[4], 10);
}

#[test]
fn word_is_trimmed_before_comment() {
    let rom = read("5 \t110\t//x\n").unwrap();
    assert_eq!(rom[5], 6);
}

#[test]
fn signed_words() {
    let rom = read("0 -1\n1 +11\n2 -10000000000000000000000000000000\n").unwrap();
    assert_eq!(rom[0], -1);
    assert_eq!(rom[1], 3);
    assert_eq!(rom[2], i32::MIN);
}

#[test]
fn empty_text_gives_zero_rom() {
    let rom = read("").unwrap();
    assert_eq!(rom, vec![0; 16]);
}

#[test]
fn bad_line_number() {
    assert_eq!(read("x 1\n"), err(0, RomErrorKind::BadLineNumber));
    assert_eq!(read("0 1\n-1 1\n"), err(1, RomErrorKind::BadLineNumber));
    assert_eq!(read("4294967296 1\n"), err(0, RomErrorKind::BadLineNumber));
}

#[test]
fn blank_line_is_an_error() {
    assert_eq!(read("0 1\n\n1 1\n"), err(1, RomErrorKind::BadLineNumber));
}

#[test]
fn missing_word() {
    assert_eq!(read("0 1\n7\n"), err(1, RomErrorKind::MissingWord));
}

#[test]
fn bad_word() {
    assert_eq!(read("0 102\n"), err(0, RomErrorKind::BadWord));
    assert_eq!(read("0 -\n"), err(0, RomErrorKind::BadWord));
    // 32 binary digits with the top one set exceed i32
    assert_eq!(read("0 10000000000000000000000000000000\n"), err(0, RomErrorKind::BadWord));
}

#[test]
fn line_number_out_of_range() {
    assert_eq!(read("0 1\n16 1\n"), err(1, RomErrorKind::LineNumberOutOfRange));
    assert!(read("15 1\n").is_ok());
}

#[test]
fn no_file_gives_zero_rom() {
    let rom = DataReader::read_rom_from_file(None, 8).unwrap();
    assert_eq!(rom, vec![0; 8]);
}

#[test]
fn new_machine_from_image() {
    let p = Processor::new("prog.dat".to_string(), Some("0 1\n65535 11\n"), "bin".to_string()).unwrap();
    assert_eq!(p.rom.len(), 65536);
    assert_eq!(p.rom[0], 1);
    assert_eq!(p.rom[65535], 3);
    assert_eq!(p.num_representation, "bin");
    assert_eq!(p.get_rom_path(), "prog.dat");
    assert_eq!(p.ram.len(), 65536);
}

#[test]
fn new_machine_rejects_bad_image() {
    let r = Processor::new("p".to_string(), Some("65536 1\n"), "hex".to_string());
    assert_eq!(r.err(), Some(RomError { line: 0, kind: RomErrorKind::LineNumberOutOfRange }));
}

#[test]
fn load_program_keeps_representation() {
    let mut p = Processor::new_empty_rom();
    p.set_num_rep("dec".to_string());
    let q = p.load_program("other.dat".to_string(), Some("3 111\n")).unwrap();
    assert_eq!(q.rom[3], 7);
    assert_eq!(q.num_representation, "dec");
    assert_eq!(q.get_rom_path(), "other.dat");
}

#[test]
fn reload_program_reads_same_file_again() {
    let mut p = Processor::new("a.dat".to_string(), Some("0 1\n"), "hex".to_string()).unwrap();
    p.clock();
    let q = p.reload_program(Some("0 10\n")).unwrap();
    assert_eq!(q.rom[0], 2);
    assert_eq!(q.get_rom_path(), "a.dat");
    assert_eq!(q.fetch.pc, 0);
    // the machine it was asked of is unchanged
    assert_eq!(p.rom[0], 1);
    assert_eq!(p.fetch.pc, 1);
    let z = p.reload_program(None).unwrap();
    assert!(z.rom.iter().all(|&w| w == 0));
}
