use pydis::error::DecodeError;
use pydis::opcode::py27::Standard;
use pydis::opcode::{Instruction, Opcode};
use pydis::{decode, decode_py27};

fn encode(i: &Instruction<Standard>) -> Vec<u8> {
    let mut out = vec![i.opcode.to_u8()];
    if let Some(a) = i.arg {
        out.extend_from_slice(&a.to_le_bytes());
    }
    out
}

#[test]
fn round_trip_every_opcode_without_operand() {
    let mut seen = 0;
    for b in 0..=255u8 {
        if let Some(o) = Standard::from_u8(b) {
            assert_eq!(o.to_u8(), b);
            if !o.has_arg() {
                seen += 1;
                let r = decode_py27(&[b]).unwrap();
                assert_eq!(r, Instruction { opcode: o, arg: None });
                assert_eq!(r.len(), 1);
            }
        }
    }
    assert_eq!(seen, 71);
}

#[test]
fn round_trip_every_opcode_with_operand() {
    let args: [u16; 6] = [0, 1, 255, 256, 0x1234, 65535];
    for b in 0..=255u8 {
        if let Some(o) = Standard::from_u8(b) {
            if o.has_arg() {
                for &a in args.iter() {
                    let i = Instruction { opcode: o, arg: Some(a) };
                    let bytes = encode(&i);
                    assert_eq!(bytes.len(), 3);
                    let r = decode_py27(&bytes).unwrap();
                    assert_eq!(r, i);
                    assert_eq!(r.len(), 3);
                }
            }
        }
    }
}

#[test]
fn round_trip_all_operands_of_one_opcode() {
    for a in 0..=65535u16 {
        let bytes = [Standard::LOAD_CONST.to_u8(), (a & 0xFF) as u8, (a >> 8) as u8];
        let r = decode_py27(&bytes).unwrap();
        assert_eq!(r, Instruction { opcode: Standard::LOAD_CONST, arg: Some(a) });
    }
}

#[test]
fn operand_is_little_endian() {
    let r = decode_py27(&[100, 0x02, 0x01]).unwrap();
    assert_eq!(r.opcode, Standard::LOAD_CONST);
    assert_eq!(r.arg, Some(0x0102));
}

#[test]
fn trailing_bytes_are_left_unread() {
    let r = decode_py27(&[1, 100, 0, 0]).unwrap();
    assert_eq!(r, Instruction { opcode: Standard::POP_TOP, arg: None });
    let r = decode_py27(&[131, 3, 0, 9, 9]).unwrap();
    assert_eq!(r, Instruction { opcode: Standard::CALL_FUNCTION, arg: Some(3) });
}

#[test]
fn empty_source_is_truncated() {
    assert!(matches!(decode_py27(&[]), Err(DecodeError::InvalidBytesRead)));
    assert!(matches!(decode::<Standard>(&[]), Err(DecodeError::InvalidBytesRead)));
}

#[test]
fn missing_operand_is_truncated() {
    assert!(matches!(decode_py27(&[100]), Err(DecodeError::InvalidBytesRead)));
    assert!(matches!(decode_py27(&[100, 7]), Err(DecodeError::InvalidBytesRead)));
    assert!(matches!(decode_py27(&[90]), Err(DecodeError::InvalidBytesRead)));
}

#[test]
fn unassigned_byte_is_unknown() {
    assert!(matches!(decode_py27(&[0x08]), Err(DecodeError::UnknownOpcode(0x08))));
    assert!(matches!(decode_py27(&[0x08, 1, 2]), Err(DecodeError::UnknownOpcode(0x08))));
    assert!(matches!(decode_py27(&[255]), Err(DecodeError::UnknownOpcode(255))));
    assert!(matches!(decode_py27(&[144]), Err(DecodeError::UnknownOpcode(144))));
}

#[test]
fn assigned_bytes_count() {
    let n = (0..=255u8).filter(|b| Standard::from_u8(*b).is_some()).count();
    assert_eq!(n, 120);
    assert_eq!(Standard::from_u8(0), Some(Standard::STOP_CODE));
    assert_eq!(Standard::from_u8(147), Some(Standard::MAP_ADD));
    assert_eq!(Standard::from_u8(148), None);
}

#[test]
fn io_failure_is_its_own_error() {
    let e = DecodeError::from(std::io::Error::new(std::io::ErrorKind::Other, "broken"));
    assert!(matches!(e, DecodeError::IoError(_)));
}
