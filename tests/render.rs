use pydis::opcode::py27::{Mnemonic, Standard};
use pydis::opcode::Instruction;

#[test]
fn renders_name_and_decimal_operand() {
    let i = Instruction { opcode: Standard::LOAD_CONST, arg: Some(120) };
    assert_eq!(i.to_string(), "LOAD_CONST 120");
    let i = Instruction { opcode: Standard::CALL_FUNCTION, arg: Some(0) };
    assert_eq!(i.to_string(), "CALL_FUNCTION 0");
    let i = Instruction { opcode: Standard::JUMP_ABSOLUTE, arg: Some(65535) };
    assert_eq!(i.to_string(), "JUMP_ABSOLUTE 65535");
}

#[test]
fn renders_name_alone_without_operand() {
    let i = Instruction { opcode: Standard::RETURN_VALUE, arg: None };
    assert_eq!(i.to_string(), "RETURN_VALUE");
}

#[test]
fn names_match_variants() {
    assert_eq!(Mnemonic::STOP_CODE.name(), "STOP_CODE");
    assert_eq!(Mnemonic::MAP_ADD.name(), "MAP_ADD");
    for b in 0..=255u8 {
        if let Some(o) = <Standard as pydis::opcode::Opcode>::from_u8(b) {
            assert_eq!(format!("{:?}", o), pydis::opcode::Opcode::mnemonic(&o).name());
        }
    }
}
