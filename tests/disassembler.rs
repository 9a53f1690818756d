use scam::disassembler::{Dissasembler, Instruction};

fn decomp_test(program: &str, memory: &[u8]) {
    let disassembler = Dissasembler::new(0x8000, memory);

    let disassembled_program = disassembler.disassemble();

    assert_eq!(program, disassembled_program);
}

#[test]
fn fibbo() {
    decomp_test(
        "LDA #$00
STA $00
LDA #$01
STA $01
LDX #$00
LDA $00,X
CLC
ADC $01,X
STA $02,X
INX
BCC *-$08
INX",
        &[
            0xA9, 0x00, 0x85, 0x00, 0xA9, 0x01, 0x85, 0x01, 0xA2, 0x00, 0xB5, 0x00, 0x18, 0x75,
            0x01, 0x95, 0x02, 0xE8, 0x90, 0xF6, 0xE8,
        ],
    );
}

#[test]
fn listing_of_each_operand_form() {
    decomp_test(
        "ASL A
JMP ($12FF)
LDA ($10,X)
STA ($20),Y
LDX $30,Y
LDA $1234,X
LDA $1234,Y
JSR $4321
BNE *+$05
*NOP $04
*LXA #$01",
        &[
            0x0A, 0x6C, 0xFF, 0x12, 0xA1, 0x10, 0x91, 0x20, 0xB6, 0x30, 0xBD, 0x34, 0x12, 0xB9,
            0x34, 0x12, 0x20, 0x21, 0x43, 0xD0, 0x03, 0x04, 0x04, 0xAB, 0x01,
        ],
    );
}

#[test]
fn empty_program_lists_one_instruction() {
    decomp_test("BRK", &[]);
}

#[test]
fn decoded_instruction_reports_its_length() {
    let jmp = Instruction::decode(0x8000, 0x4C, 0x34, 0x12);
    assert_eq!(jmp.next_instruction_offset(), 2);
    assert_eq!(jmp.disassemble_instruction(), "JMP $1234");
    let clc = Instruction::decode(0x8000, 0x18, 0, 0);
    assert_eq!(clc.next_instruction_offset(), 0);
    assert_eq!(clc.disassemble_instruction(), "CLC");
    let jam = Instruction::decode(0x8000, 0x02, 0, 0);
    assert_eq!(jam.disassemble_instruction(), "*JAM");
}
