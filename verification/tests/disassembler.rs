use wasmboi::dasm::{disassemble, trace, DasmError, Disassembler};
use wasmboi::hardware::opcode::Instruction;

fn image(entry: u16, program: &[(usize, &[u8])]) -> Vec<u8> {
    let mut rom = vec![0u8; 0x200];
    rom[0x102] = entry as u8;
    rom[0x103] = (entry >> 8) as u8;
    for (at, bytes) in program {
        rom[*at..*at + bytes.len()].copy_from_slice(bytes);
    }
    rom
}

#[test]
fn listing_follows_calls() {
    let rom = image(
        0x0150,
        &[(0x150, &[0x3E, 0x12, 0xCD, 0x60, 0x01, 0xC9]), (0x160, &[0x7F, 0xC9])],
    );
    let mut dasm = Disassembler::new(&rom).ok().unwrap();
    assert_eq!(dasm.start_address(), 0x0150);
    dasm.follow(0x0150);
    let paths = trace(&mut dasm, 100).ok().unwrap();
    assert_eq!(
        paths,
        vec![
            vec![
                String::from("LD\tA, 12h"),
                String::from("CALL"),
                String::from("LD\tA, A"),
                String::from("RET")
            ],
            vec![String::from("RET")]
        ]
    );
    assert_eq!(
        disassemble(&rom).ok(),
        Some(String::from("\nLD\tA, 12h\nCALL\nLD\tA, A\nRET\n;--\n\nRET\n;--\n"))
    );
}

#[test]
fn listing_stops_at_a_label_it_has_decoded() {
    let rom = image(0x0150, &[(0x150, &[0x06, 0x01, 0xC3, 0x50, 0x01])]);
    assert_eq!(
        disassemble(&rom).ok(),
        Some(String::from("\nLD\tB, 1h\nJP\n;--\n"))
    );
}

#[test]
fn listing_runs_to_the_end_of_the_image() {
    let mut rom = image(0x01FC, &[(0x1FC, &[0x00, 0xD3, 0x3E, 0x07])]);
    assert_eq!(
        disassemble(&rom).ok(),
        Some(String::from("\nNOP\nNOP\nLD\tA, 7h\n;--\n"))
    );
    rom[0x1FF] = 0x3E;
    assert_eq!(
        disassemble(&rom).ok(),
        Some(String::from("\nNOP\nNOP\nLD\tA, 3Eh\n;--\n"))
    );
    rom[0x1FE] = 0x00;
    assert_eq!(
        disassemble(&rom).ok(),
        Some(String::from("\nNOP\nNOP\nNOP\nReceived an invalid LD instruction\n;--\n"))
    );
    rom[0x1FC] = 0xE9;
    assert_eq!(disassemble(&rom).ok(), Some(String::from("\nJP\n;--\n")));
    rom[0x102] = 0x00;
    rom[0x103] = 0x02;
    assert_eq!(disassemble(&rom).ok(), Some(String::from("\n;--\n")));
}

#[test]
fn listing_without_a_start_is_empty() {
    let rom = image(0x0150, &[]);
    let mut dasm = Disassembler::new(&rom).ok().unwrap();
    assert_eq!(trace(&mut dasm, 0).ok(), Some(vec![]));
}

#[test]
fn listing_is_given_up_when_the_budget_is_spent() {
    let rom = image(0x0150, &[(0x150, &[0x00, 0x00, 0xC9])]);
    for budget in 0..4 {
        let mut dasm = Disassembler::new(&rom).ok().unwrap();
        dasm.follow(0x0150);
        match trace(&mut dasm, budget) {
            Err(DasmError::PartialDASM(text)) => {
                assert_eq!(text, "The disassembly did not come to an end")
            }
            _ => panic!("the disassembly came to an end within {} steps", budget),
        }
    }
    let mut dasm = Disassembler::new(&rom).ok().unwrap();
    dasm.follow(0x0150);
    assert_eq!(
        trace(&mut dasm, 4).ok(),
        Some(vec![vec![String::from("NOP"), String::from("NOP"), String::from("RET")]])
    );
}

#[test]
fn image_without_a_header_is_refused() {
    match disassemble(&vec![0u8; 0x100]) {
        Err(DasmError::InvalidRom(text)) => assert_eq!(text, "Could not read cartridge"),
        _ => panic!("an image without a header was read"),
    }
    assert!(matches!(Disassembler::new(&vec![]), Err(DasmError::InvalidRom(_))));
}

#[test]
fn listing_describes_what_is_no_opcode_as_nop() {
    let rom = image(0x0150, &[]);
    let dasm = Disassembler::new(&rom).ok().unwrap();
    let data = dasm.extract_instruction_data(0xD3, 0).ok().unwrap();
    assert_eq!(data.instruction, Instruction::NOP);
    assert_eq!(data.byte, 0xD3);
    assert_eq!(data.size, 0);
    let data = dasm.extract_instruction_data(0xC3, 0).ok().unwrap();
    assert_eq!(data.instruction, Instruction::JP_NN);
    assert_eq!(data.size, 2);
}
