pub mod error;
pub mod opcode;

use vstd::prelude::*;

use crate::error::DecodeError;
use crate::opcode::py27::Standard;
use crate::opcode::{Instruction, Opcode};

verus! {

/// Reads a little-endian unsigned 16-bit value from two bytes.
pub open spec fn le_u16(lo: u8, hi: u8) -> int {
    lo as int + 256 * hi as int
}

/// What decoding the first instruction of `bytes` in dialect `O` gives: the
/// opcode byte, then two operand bytes where the opcode takes an operand.
pub open spec fn decode_spec<O: Opcode>(bytes: Seq<u8>) -> Result<Instruction<O>, DecodeError> {
    if bytes.len() == 0 {
        Err(DecodeError::InvalidBytesRead)
    } else {
        match O::spec_from_u8(bytes[0]) {
            None => Err(DecodeError::UnknownOpcode(bytes[0])),
            Some(opcode) => if !opcode.spec_has_arg() {
                Ok(Instruction { opcode, arg: None })
            } else if bytes.len() < 3 {
                Err(DecodeError::InvalidBytesRead)
            } else {
                Ok(Instruction { opcode, arg: Some(le_u16(bytes[1], bytes[2]) as u16) })
            },
        }
    }
}

fn u16_from_le(lo: u8, hi: u8) -> (r: u16)
    ensures
        r as int == le_u16(lo, hi),
{
    lo as u16 + (hi as u16) * 256
}

/// Decodes a single instruction from the start of a source and returns its result or an error
pub fn decode<O: Opcode>(source: &[u8]) -> (r: Result<Instruction<O>, DecodeError>)
    ensures
        r == decode_spec::<O>(source@),
{
    if source.len() == 0 {
        return Err(DecodeError::InvalidBytesRead);
    }
    let byte = source[0];
    let opcode = match O::from_u8(byte) {
        Some(opcode) => opcode,
        None => return Err(DecodeError::UnknownOpcode(byte)),
    };
    let arg = if opcode.has_arg() {
        if source.len() < 3 {
            return Err(DecodeError::InvalidBytesRead);
        }
        Some(u16_from_le(source[1], source[2]))
    } else {
        None
    };
    Ok(Instruction { opcode, arg })
}

/// Convenience wrapper around [`decode`] for decoding Python 2.7 instructions
pub fn decode_py27(source: &[u8]) -> (r: Result<Instruction<Standard>, DecodeError>)
    ensures
        r == decode_spec::<Standard>(source@),
{
    decode::<Standard>(source)
}

/// Decoding reads an instruction's encoding and nothing after it: whatever
/// follows, the same instruction comes back.
pub proof fn lemma_decode_encoding<O: Opcode>(i: Instruction<O>, rest: Seq<u8>)
    requires
        i.wf(),
    ensures
        decode_spec::<O>(i.encoding() + rest) == Ok::<Instruction<O>, DecodeError>(i),
{
    i.opcode.lemma_to_u8_from_u8();
    let bytes = i.encoding() + rest;
    assert(bytes[0] == i.opcode.spec_to_u8());
    if let Some(a) = i.arg {
        assert(bytes[1] == (a % 256) as u8 && bytes[2] == (a / 256) as u8);
        assert(le_u16(bytes[1], bytes[2]) == a as int);
    }
}

/// Encoding an instruction whose operand is present exactly when its opcode
/// takes one, and decoding the bytes, gives the instruction back.
pub proof fn lemma_round_trip<O: Opcode>(i: Instruction<O>)
    requires
        i.wf(),
    ensures
        decode_spec::<O>(i.encoding()) == Ok::<Instruction<O>, DecodeError>(i),
{
    lemma_decode_encoding(i, Seq::empty());
    assert(i.encoding() + Seq::empty() =~= i.encoding());
}

/// Decoding is all or nothing: an instruction that comes back has its operand
/// exactly when its opcode takes one, and its encoding is what was read.
pub proof fn lemma_decode_whole<O: Opcode>(bytes: Seq<u8>)
    ensures
        decode_spec::<O>(bytes) matches Ok(i) ==> i.wf() && i.encoding().len() <= bytes.len()
            && i.encoding() =~= bytes.subrange(0, i.encoding().len() as int),
{
    if bytes.len() > 0 {
        O::lemma_from_u8_to_u8(bytes[0]);
        if let Ok(i) = decode_spec::<O>(bytes) {
            if let Some(a) = i.arg {
                assert((a % 256) as u8 == bytes[1] && (a / 256) as u8 == bytes[2]);
            }
        }
    }
}

/// An empty source holds no instruction, and an opcode that takes an operand
/// followed by fewer than two bytes is cut short.
pub proof fn lemma_truncated<O: Opcode>(opcode: O, rest: Seq<u8>)
    requires
        opcode.spec_has_arg(),
        rest.len() < 2,
    ensures
        decode_spec::<O>(Seq::empty()) == Err::<Instruction<O>, DecodeError>(
            DecodeError::InvalidBytesRead,
        ),
        decode_spec::<O>(seq![opcode.spec_to_u8()] + rest) == Err::<Instruction<O>, DecodeError>(
            DecodeError::InvalidBytesRead,
        ),
{
    opcode.lemma_to_u8_from_u8();
    assert((seq![opcode.spec_to_u8()] + rest)[0] == opcode.spec_to_u8());
}

} // verus!
