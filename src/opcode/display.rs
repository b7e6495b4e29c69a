use vstd::prelude::*;
use vstd::string::StringExecFns;

use super::{Instruction, Opcode};

verus! {

/// The character of a decimal digit.
pub open spec fn digit_char(d: nat) -> char {
    ((d + 48) as u8) as char
}

/// The decimal digits of `n`, without leading zeros.
pub open spec fn decimal(n: nat) -> Seq<char>
    decreases n,
{
    if n < 10 {
        seq![digit_char(n)]
    } else {
        decimal(n / 10) + seq![digit_char(n % 10)]
    }
}

fn digit_str(d: u16) -> (r: &'static str)
    requires
        d < 10,
    ensures
        r@ == seq![digit_char(d as nat)],
{
    proof {
        reveal_strlit("0");
        reveal_strlit("1");
        reveal_strlit("2");
        reveal_strlit("3");
        reveal_strlit("4");
        reveal_strlit("5");
        reveal_strlit("6");
        reveal_strlit("7");
        reveal_strlit("8");
        reveal_strlit("9");
    }
    match d {
        0 => "0",
        1 => "1",
        2 => "2",
        3 => "3",
        4 => "4",
        5 => "5",
        6 => "6",
        7 => "7",
        8 => "8",
        _ => "9",
    }
}

fn append_decimal(s: &mut String, n: u16)
    ensures
        final(s)@ == old(s)@ + decimal(n as nat),
    decreases n,
{
    if n >= 10 {
        append_decimal(s, n / 10);
    }
    s.append(digit_str(n % 10));
    assert(old(s)@ + decimal(n as nat) =~= s@);
}

impl<O: Opcode> Instruction<O> {
    /// The text of an instruction: its operation's name, then a space and the
    /// operand in decimal if there is one.
    pub open spec fn rendering(&self) -> Seq<char> {
        match self.arg {
            Some(a) => self.opcode.spec_mnemonic().spec_name() + seq![' '] + decimal(a as nat),
            None => self.opcode.spec_mnemonic().spec_name(),
        }
    }

    /// Renders this instruction as text
    pub fn to_string(&self) -> (r: String)
        ensures
            r@ == self.rendering(),
    {
        let mut s = String::from_str(self.opcode.mnemonic().name());
        if let Some(a) = self.arg {
            proof {
                reveal_strlit(" ");
            }
            s.append(" ");
            append_decimal(&mut s, a);
        }
        s
    }
}

} // verus!
