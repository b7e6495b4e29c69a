pub mod display;
pub mod effect;
pub mod py27;
pub mod py39;

use vstd::prelude::*;

use self::py27::Mnemonic;

verus! {

/// The classification capability that every dialect's opcode set provides.
///
/// Each value of an implementing type stands for one opcode of one dialect.
/// It is encoded by exactly one byte, and each byte encodes at most one value.
/// The predicates depend on the opcode alone, never on an operand.
pub trait Opcode: Sized + Copy {
    /// The byte that encodes this opcode.
    spec fn spec_to_u8(&self) -> u8;

    /// The opcode that a byte encodes in this dialect, if any.
    spec fn spec_from_u8(b: u8) -> Option<Self>;

    spec fn spec_has_arg(&self) -> bool;

    spec fn spec_has_extended_arg(&self) -> bool;

    spec fn spec_has_const(&self) -> bool;

    spec fn spec_has_comp(&self) -> bool;

    spec fn spec_is_relative_jump(&self) -> bool;

    spec fn spec_is_absolute_jump(&self) -> bool;

    spec fn spec_is_other_conditional_jump(&self) -> bool;

    spec fn spec_is_conditional_jump(&self) -> bool;

    spec fn spec_has_name(&self) -> bool;

    spec fn spec_has_local(&self) -> bool;

    spec fn spec_has_free(&self) -> bool;

    spec fn spec_mnemonic(&self) -> Mnemonic;

    /// Decoding the byte of an opcode gives that opcode back.
    proof fn lemma_to_u8_from_u8(&self)
        ensures
            Self::spec_from_u8(self.spec_to_u8()) == Some(*self),
    ;

    /// A byte decodes only to an opcode that it encodes.
    proof fn lemma_from_u8_to_u8(b: u8)
        ensures
            Self::spec_from_u8(b) matches Some(o) ==> o.spec_to_u8() == b,
    ;

    /// No opcode has both a relative and an absolute jump target, and the
    /// operand indexes at most one table: names, locals, free variables or
    /// constants.
    proof fn lemma_classification_disjoint(&self)
        ensures
            !(self.spec_is_relative_jump() && self.spec_is_absolute_jump()),
            self.spec_has_name() ==> !self.spec_has_local() && !self.spec_has_free()
                && !self.spec_has_const(),
            self.spec_has_local() ==> !self.spec_has_free() && !self.spec_has_const(),
            self.spec_has_free() ==> !self.spec_has_const(),
    ;

    /// Every jump target is the operand: an opcode that jumps takes one.
    proof fn lemma_jump_has_arg(&self)
        ensures
            self.spec_is_relative_jump() || self.spec_is_absolute_jump() ==> self.spec_has_arg(),
    ;

    /// The opcode that a byte encodes in this dialect, if any.
    fn from_u8(b: u8) -> (r: Option<Self>)
        ensures
            r == Self::spec_from_u8(b),
    ;

    /// The byte that encodes this opcode.
    fn to_u8(&self) -> (r: u8)
        ensures
            r == self.spec_to_u8(),
    ;

    /// Whether or not this opcode has an argument
    fn has_arg(&self) -> (r: bool)
        ensures
            r == self.spec_has_arg(),
    ;

    /// Whether or not this opcode has an extended argument
    fn has_extended_arg(&self) -> (r: bool)
        ensures
            r == self.spec_has_extended_arg(),
    ;

    /// Whether or not this opcode has a constant parameter
    fn has_const(&self) -> (r: bool)
        ensures
            r == self.spec_has_const(),
    ;

    /// Whether or not this opcode is a boolean operation
    fn has_comp(&self) -> (r: bool)
        ensures
            r == self.spec_has_comp(),
    ;

    /// Whether or not this opcode is any kind of instruction which may jump
    fn is_jump(&self) -> (r: bool)
        ensures
            r == (self.spec_is_relative_jump() || self.spec_is_absolute_jump()),
    {
        self.is_relative_jump() || self.is_absolute_jump()
    }

    /// Whether or not this opcode is a structural conditional jump, such as
    /// loop or handler setup, whose jump is implied by what it does
    fn is_other_conditional_jump(&self) -> (r: bool)
        ensures
            r == self.spec_is_other_conditional_jump(),
    ;

    /// Whether or not this opcode has a relative jump target
    fn is_relative_jump(&self) -> (r: bool)
        ensures
            r == self.spec_is_relative_jump(),
    ;

    /// Whether or not this opcode has an absolute jump target
    fn is_absolute_jump(&self) -> (r: bool)
        ensures
            r == self.spec_is_absolute_jump(),
    ;

    /// Whether or not this opcode is a conditional jump
    fn is_conditional_jump(&self) -> (r: bool)
        ensures
            r == self.spec_is_conditional_jump(),
    ;

    /// Whether or not this opcode accesses an attribute by name
    fn has_name(&self) -> (r: bool)
        ensures
            r == self.spec_has_name(),
    ;

    /// Whether or not this opcode accesses a local variable
    fn has_local(&self) -> (r: bool)
        ensures
            r == self.spec_has_local(),
    ;

    /// Whether or not this opcode accesses a free variable
    fn has_free(&self) -> (r: bool)
        ensures
            r == self.spec_has_free(),
    ;

    /// The dialect-independent operation of this opcode
    fn mnemonic(&self) -> (r: Mnemonic)
        ensures
            r == self.spec_mnemonic(),
    ;
}

/// One decoded instruction: an opcode and, where the opcode takes one, its
/// 16-bit operand.
#[derive(Debug, Clone, PartialEq, Eq)]
pub struct Instruction<O: Opcode> {
    pub opcode: O,
    pub arg: Option<u16>,
}

impl<O: Opcode> Instruction<O> {
    /// The operand is present exactly when the opcode takes one.
    pub open spec fn wf(&self) -> bool {
        (self.arg is Some) == self.opcode.spec_has_arg()
    }

    /// The bytes that encode this instruction: the opcode byte, then the
    /// operand in little-endian order if there is one.
    pub open spec fn encoding(&self) -> Seq<u8> {
        match self.arg {
            Some(a) => seq![self.opcode.spec_to_u8(), (a % 256) as u8, (a / 256) as u8],
            None => seq![self.opcode.spec_to_u8()],
        }
    }

    /// The length of this instruction in bytes
    pub fn len(&self) -> (r: usize)
        ensures
            r == self.encoding().len(),
            r == if self.arg is Some { 3usize } else { 1usize },
    {
        1 + match self.arg {
            Some(_) => 2,
            None => 0,
        }
    }
}

} // verus!
