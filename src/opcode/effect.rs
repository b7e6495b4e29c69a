use vstd::prelude::*;

use super::py27::{Mnemonic, Standard};
use super::{Instruction, Opcode};

verus! {

/// The net change in operand-stack depth that executing an instruction causes.
#[derive(Debug, Copy, Clone, PartialEq, Eq, Structural)]
pub enum StackEffect {
    /// Pushes this many more values than it pops (fewer, if negative).
    Known(isize),
    /// Only the state of the running program can tell.
    Indeterminate,
}

impl StackEffect {
    /// The change in depth, or `None` where it cannot be known statically.
    pub open spec fn delta(self) -> Option<int> {
        match self {
            StackEffect::Known(n) => Some(n as int),
            StackEffect::Indeterminate => None,
        }
    }
}

/// A call pops the callable, `a % 256` positional arguments, `a / 256`
/// keyword arguments and `extra` spread collections, and pushes one result.
pub open spec fn call_delta(a: int, extra: int) -> int {
    -(a % 256 + a / 256 + extra + 1) + 1
}

/// Whether the effect of an operation depends on its operand.
pub open spec fn reads_arg(m: Mnemonic) -> bool {
    matches!(
        m,
        Mnemonic::UNPACK_SEQUENCE
        | Mnemonic::DUP_TOPX
        | Mnemonic::BUILD_TUPLE
        | Mnemonic::BUILD_LIST
        | Mnemonic::BUILD_SET
        | Mnemonic::CALL_FUNCTION
        | Mnemonic::MAKE_CLOSURE
        | Mnemonic::BUILD_SLICE
        | Mnemonic::CALL_FUNCTION_VAR
        | Mnemonic::CALL_FUNCTION_KW
        | Mnemonic::CALL_FUNCTION_VAR_KW
    )
}

/// Whether the stack-effect table covers an operation. The operand-widening
/// prefix is not covered.
pub open spec fn has_stack_effect(m: Mnemonic) -> bool {
    m != Mnemonic::EXTENDED_ARG
}

/// The operations whose effect depends on the state of the running program:
/// a jump that pops only when not taken, and the setup or cleanup of a block
/// whose effect depends on whether control leaves it normally or by unwinding.
pub open spec fn runtime_dependent(m: Mnemonic) -> bool {
    matches!(
        m,
        Mnemonic::WITH_CLEANUP
        | Mnemonic::JUMP_IF_FALSE_OR_POP
        | Mnemonic::JUMP_IF_TRUE_OR_POP
        | Mnemonic::SETUP_EXCEPT
        | Mnemonic::SETUP_FINALLY
        | Mnemonic::SETUP_WITH
    )
}

/// The net change in stack depth of operation `m` with operand `a`, or `None`
/// where it depends on the state of the running program. The operand-widening
/// prefix, which the table does not cover, has `None` too.
pub open spec fn stack_delta(m: Mnemonic, a: int) -> Option<int> {
    match m {
        Mnemonic::STOP_CODE
        | Mnemonic::NOP
        | Mnemonic::ROT_TWO
        | Mnemonic::ROT_THREE
        | Mnemonic::ROT_FOUR => Some(0),
        Mnemonic::POP_TOP => Some(-1),
        Mnemonic::DUP_TOP => Some(1),
        Mnemonic::DUP_TOP_TWO => Some(2),
        Mnemonic::UNARY_POSITIVE
        | Mnemonic::UNARY_NEGATIVE
        | Mnemonic::UNARY_NOT
        | Mnemonic::UNARY_CONVERT
        | Mnemonic::UNARY_INVERT
        | Mnemonic::GET_ITER => Some(0),
        Mnemonic::BINARY_POWER
        | Mnemonic::BINARY_MULTIPLY
        | Mnemonic::BINARY_DIVIDE
        | Mnemonic::BINARY_FLOOR_DIVIDE
        | Mnemonic::BINARY_TRUE_DIVIDE
        | Mnemonic::BINARY_MODULO
        | Mnemonic::BINARY_ADD
        | Mnemonic::BINARY_SUBTRACT
        | Mnemonic::BINARY_SUBSC
        | Mnemonic::BINARY_LSHIFT
        | Mnemonic::BINARY_RSHIFT
        | Mnemonic::BINARY_AND
        | Mnemonic::BINARY_XOR
        | Mnemonic::BINARY_OR => Some(-1),
        Mnemonic::INPLACE_POWER
        | Mnemonic::INPLACE_MULTIPLY
        | Mnemonic::INPLACE_DIVIDE
        | Mnemonic::INPLACE_FLOOR_DIVIDE
        | Mnemonic::INPLACE_TRUE_DIVIDE
        | Mnemonic::INPLACE_MODULO
        | Mnemonic::INPLACE_ADD
        | Mnemonic::INPLACE_SUBTRACT
        | Mnemonic::INPLACE_LSHIFT
        | Mnemonic::INPLACE_RSHIFT
        | Mnemonic::INPLACE_AND
        | Mnemonic::INPLACE_XOR
        | Mnemonic::INPLACE_OR => Some(-1),
        Mnemonic::SLICE_0 => Some(0),
        Mnemonic::SLICE_1 => Some(-1),
        Mnemonic::SLICE_2 => Some(-2),
        Mnemonic::SLICE_3 => Some(-3),
        Mnemonic::STORE_SLICE_0 => Some(-1),
        Mnemonic::STORE_SLICE_1 => Some(-2),
        Mnemonic::STORE_SLICE_2 => Some(-3),
        Mnemonic::STORE_SLICE_3 => Some(-4),
        Mnemonic::DELETE_SLICE_0 => Some(-1),
        Mnemonic::DELETE_SLICE_1 => Some(-2),
        Mnemonic::DELETE_SLICE_2 => Some(-3),
        Mnemonic::DELETE_SLICE_3 => Some(-4),
        Mnemonic::STORE_SUBSCR => Some(-3),
        Mnemonic::DELETE_SUBSCR => Some(-2),
        Mnemonic::PRINT_EXPR => Some(-1),
        Mnemonic::PRINT_ITEM => Some(-1),
        Mnemonic::PRINT_ITEM_TO => Some(-2),
        Mnemonic::PRINT_NEWLINE => Some(0),
        Mnemonic::PRINT_NEWLINE_TO => Some(-1),
        Mnemonic::BREAK_LOOP => Some(0),
        Mnemonic::CONTINUE_LOOP => Some(0),
        Mnemonic::LIST_APPEND => Some(-1),
        Mnemonic::LOAD_LOCALS => Some(1),
        Mnemonic::RETURN_VALUE => Some(0),
        Mnemonic::YIELD_VALUE => Some(0),
        Mnemonic::IMPORT_STAR => Some(-1),
        Mnemonic::EXEC_STMT => Some(-3),
        Mnemonic::POP_BLOCK => Some(0),
        Mnemonic::END_FINALLY => Some(0),
        Mnemonic::BUILD_CLASS => Some(-3),
        Mnemonic::SETUP_WITH => None,
        Mnemonic::WITH_CLEANUP => None,
        Mnemonic::STORE_NAME => Some(-1),
        Mnemonic::STORE_FAST => Some(-1),
        Mnemonic::STORE_DEREF => Some(-1),
        Mnemonic::SET_ADD => Some(-1),
        Mnemonic::MAP_ADD => Some(-1),
        Mnemonic::DELETE_NAME => Some(0),
        Mnemonic::UNPACK_SEQUENCE => Some(a - 1),
        Mnemonic::DUP_TOPX => Some(a),
        Mnemonic::STORE_ATTR => Some(-2),
        Mnemonic::DELETE_ATTR => Some(-1),
        Mnemonic::STORE_GLOBAL => Some(-1),
        Mnemonic::DELETE_GLOBAL => Some(0),
        Mnemonic::LOAD_CONST => Some(1),
        Mnemonic::LOAD_NAME => Some(1),
        Mnemonic::BUILD_TUPLE
        | Mnemonic::BUILD_LIST
        | Mnemonic::BUILD_SET => Some(a - 1),
        Mnemonic::BUILD_MAP => Some(1),
        Mnemonic::LOAD_ATTR => Some(0),
        Mnemonic::COMPARE_OP => Some(-1),
        Mnemonic::IMPORT_NAME => Some(-1),
        Mnemonic::IMPORT_FROM => Some(1),
        Mnemonic::JUMP_FORWARD | Mnemonic::JUMP_ABSOLUTE => Some(0),
        Mnemonic::POP_JUMP_IF_FALSE | Mnemonic::POP_JUMP_IF_TRUE => Some(-1),
        Mnemonic::JUMP_IF_FALSE_OR_POP | Mnemonic::JUMP_IF_TRUE_OR_POP => None,
        Mnemonic::FOR_ITER => Some(1),
        Mnemonic::LOAD_GLOBAL => Some(1),
        Mnemonic::SETUP_LOOP => Some(0),
        Mnemonic::SETUP_EXCEPT | Mnemonic::SETUP_FINALLY => None,
        Mnemonic::STORE_MAP => Some(-2),
        Mnemonic::LOAD_FAST => Some(1),
        Mnemonic::DELETE_FAST => Some(0),
        Mnemonic::LOAD_CLOSURE => Some(0),
        Mnemonic::LOAD_DEREF => Some(1),
        Mnemonic::RAISE_VARARGS => Some(0),
        Mnemonic::CALL_FUNCTION => Some(call_delta(a, 0)),
        Mnemonic::MAKE_FUNCTION => Some(-1),
        Mnemonic::MAKE_CLOSURE => Some(2 + a),
        Mnemonic::BUILD_SLICE => Some(1 - a),
        Mnemonic::EXTENDED_ARG => None,
        Mnemonic::CALL_FUNCTION_VAR | Mnemonic::CALL_FUNCTION_KW => Some(call_delta(a, 1)),
        Mnemonic::CALL_FUNCTION_VAR_KW => Some(call_delta(a, 2)),
    }
}

fn call_adjustment(a: u16, extra: isize) -> (r: isize)
    requires
        0 <= extra <= 2,
    ensures
        r == call_delta(a as int, extra as int),
{
    let pos_args = (a & 0xFF) as isize;
    let kwargs = ((a >> 8) & 0xFF) as isize;
    assert(a & 0xFF == a % 256 && (a >> 8) & 0xFF == a / 256) by (bit_vector);
    // the callable is popped, the return value pushed
    -(pos_args + kwargs + extra + 1) + 1
}

impl<O: Opcode> Instruction<O> {
    /// The operand as an integer, zero where there is none.
    pub open spec fn arg_value(&self) -> int {
        match self.arg {
            Some(a) => a as int,
            None => 0,
        }
    }

    /// How the stack adjusts after this instruction executes. A positive number indicates that N
    /// elements were pushed to the stack while a negative number indicates the number of elements
    /// removed from the stack
    pub fn stack_adjustment_after(&self) -> (r: StackEffect)
        requires
            has_stack_effect(self.opcode.spec_mnemonic()),
            reads_arg(self.opcode.spec_mnemonic()) ==> self.arg is Some,
        ensures
            r.delta() == stack_delta(self.opcode.spec_mnemonic(), self.arg_value()),
    {
        let a: u16 = match self.arg {
            Some(a) => a,
            None => 0,
        };
        match self.opcode.mnemonic() {
            Mnemonic::STOP_CODE
            | Mnemonic::NOP
            | Mnemonic::ROT_TWO
            | Mnemonic::ROT_THREE
            | Mnemonic::ROT_FOUR => StackEffect::Known(0),
            Mnemonic::POP_TOP => StackEffect::Known(-1),
            Mnemonic::DUP_TOP => StackEffect::Known(1),
            Mnemonic::DUP_TOP_TWO => StackEffect::Known(2),
            Mnemonic::UNARY_POSITIVE
            | Mnemonic::UNARY_NEGATIVE
            | Mnemonic::UNARY_NOT
            | Mnemonic::UNARY_CONVERT
            | Mnemonic::UNARY_INVERT
            | Mnemonic::GET_ITER => StackEffect::Known(0),
            Mnemonic::BINARY_POWER
            | Mnemonic::BINARY_MULTIPLY
            | Mnemonic::BINARY_DIVIDE
            | Mnemonic::BINARY_FLOOR_DIVIDE
            | Mnemonic::BINARY_TRUE_DIVIDE
            | Mnemonic::BINARY_MODULO
            | Mnemonic::BINARY_ADD
            | Mnemonic::BINARY_SUBTRACT
            | Mnemonic::BINARY_SUBSC
            | Mnemonic::BINARY_LSHIFT
            | Mnemonic::BINARY_RSHIFT
            | Mnemonic::BINARY_AND
            | Mnemonic::BINARY_XOR
            | Mnemonic::BINARY_OR => StackEffect::Known(-1),
            Mnemonic::INPLACE_POWER
            | Mnemonic::INPLACE_MULTIPLY
            | Mnemonic::INPLACE_DIVIDE
            | Mnemonic::INPLACE_FLOOR_DIVIDE
            | Mnemonic::INPLACE_TRUE_DIVIDE
            | Mnemonic::INPLACE_MODULO
            | Mnemonic::INPLACE_ADD
            | Mnemonic::INPLACE_SUBTRACT
            | Mnemonic::INPLACE_LSHIFT
            | Mnemonic::INPLACE_RSHIFT
            | Mnemonic::INPLACE_AND
            | Mnemonic::INPLACE_XOR
            | Mnemonic::INPLACE_OR => StackEffect::Known(-1),
            Mnemonic::SLICE_0 => StackEffect::Known(0),
            Mnemonic::SLICE_1 => StackEffect::Known(-1),
            Mnemonic::SLICE_2 => StackEffect::Known(-2),
            Mnemonic::SLICE_3 => StackEffect::Known(-3),
            Mnemonic::STORE_SLICE_0 => StackEffect::Known(-1),
            Mnemonic::STORE_SLICE_1 => StackEffect::Known(-2),
            Mnemonic::STORE_SLICE_2 => StackEffect::Known(-3),
            Mnemonic::STORE_SLICE_3 => StackEffect::Known(-4),
            Mnemonic::DELETE_SLICE_0 => StackEffect::Known(-1),
            Mnemonic::DELETE_SLICE_1 => StackEffect::Known(-2),
            Mnemonic::DELETE_SLICE_2 => StackEffect::Known(-3),
            Mnemonic::DELETE_SLICE_3 => StackEffect::Known(-4),
            Mnemonic::STORE_SUBSCR => StackEffect::Known(-3),
            Mnemonic::DELETE_SUBSCR => StackEffect::Known(-2),
            Mnemonic::PRINT_EXPR => StackEffect::Known(-1),
            Mnemonic::PRINT_ITEM => StackEffect::Known(-1),
            Mnemonic::PRINT_ITEM_TO => StackEffect::Known(-2),
            Mnemonic::PRINT_NEWLINE => StackEffect::Known(0),
            Mnemonic::PRINT_NEWLINE_TO => StackEffect::Known(-1),
            Mnemonic::BREAK_LOOP => StackEffect::Known(0),
            Mnemonic::CONTINUE_LOOP => StackEffect::Known(0),
            Mnemonic::LIST_APPEND => StackEffect::Known(-1),
            Mnemonic::LOAD_LOCALS => StackEffect::Known(1),
            Mnemonic::RETURN_VALUE => StackEffect::Known(0),
            Mnemonic::YIELD_VALUE => StackEffect::Known(0),
            Mnemonic::IMPORT_STAR => StackEffect::Known(-1),
            Mnemonic::EXEC_STMT => StackEffect::Known(-3),
            Mnemonic::POP_BLOCK => StackEffect::Known(0),
            Mnemonic::END_FINALLY => StackEffect::Known(0),
            Mnemonic::BUILD_CLASS => StackEffect::Known(-3),
            Mnemonic::SETUP_WITH => StackEffect::Indeterminate,
            Mnemonic::WITH_CLEANUP => StackEffect::Indeterminate,
            Mnemonic::STORE_NAME => StackEffect::Known(-1),
            Mnemonic::STORE_FAST => StackEffect::Known(-1),
            Mnemonic::STORE_DEREF => StackEffect::Known(-1),
            Mnemonic::SET_ADD => StackEffect::Known(-1),
            Mnemonic::MAP_ADD => StackEffect::Known(-1),
            Mnemonic::DELETE_NAME => StackEffect::Known(0),
            Mnemonic::UNPACK_SEQUENCE => StackEffect::Known(a as isize - 1),
            Mnemonic::DUP_TOPX => StackEffect::Known(a as isize),
            Mnemonic::STORE_ATTR => StackEffect::Known(-2),
            Mnemonic::DELETE_ATTR => StackEffect::Known(-1),
            Mnemonic::STORE_GLOBAL => StackEffect::Known(-1),
            Mnemonic::DELETE_GLOBAL => StackEffect::Known(0),
            Mnemonic::LOAD_CONST => StackEffect::Known(1),
            Mnemonic::LOAD_NAME => StackEffect::Known(1),
            Mnemonic::BUILD_TUPLE
            | Mnemonic::BUILD_LIST
            | Mnemonic::BUILD_SET => StackEffect::Known(a as isize - 1),
            Mnemonic::BUILD_MAP => StackEffect::Known(1),
            Mnemonic::LOAD_ATTR => StackEffect::Known(0),
            Mnemonic::COMPARE_OP => StackEffect::Known(-1),
            Mnemonic::IMPORT_NAME => StackEffect::Known(-1),
            Mnemonic::IMPORT_FROM => StackEffect::Known(1),
            Mnemonic::JUMP_FORWARD | Mnemonic::JUMP_ABSOLUTE => StackEffect::Known(0),
            Mnemonic::POP_JUMP_IF_FALSE | Mnemonic::POP_JUMP_IF_TRUE => StackEffect::Known(-1),
            Mnemonic::JUMP_IF_FALSE_OR_POP | Mnemonic::JUMP_IF_TRUE_OR_POP => StackEffect::Indeterminate,
            Mnemonic::FOR_ITER => StackEffect::Known(1),
            Mnemonic::LOAD_GLOBAL => StackEffect::Known(1),
            Mnemonic::SETUP_LOOP => StackEffect::Known(0),
            Mnemonic::SETUP_EXCEPT | Mnemonic::SETUP_FINALLY => StackEffect::Indeterminate,
            Mnemonic::STORE_MAP => StackEffect::Known(-2),
            Mnemonic::LOAD_FAST => StackEffect::Known(1),
            Mnemonic::DELETE_FAST => StackEffect::Known(0),
            Mnemonic::LOAD_CLOSURE => StackEffect::Known(0),
            Mnemonic::LOAD_DEREF => StackEffect::Known(1),
            Mnemonic::RAISE_VARARGS => StackEffect::Known(0),
            Mnemonic::CALL_FUNCTION => StackEffect::Known(call_adjustment(a, 0)),
            Mnemonic::MAKE_FUNCTION => StackEffect::Known(-1),
            Mnemonic::MAKE_CLOSURE => StackEffect::Known(2 + a as isize),
            Mnemonic::BUILD_SLICE => StackEffect::Known(1 - a as isize),
            Mnemonic::EXTENDED_ARG => StackEffect::Indeterminate,
            Mnemonic::CALL_FUNCTION_VAR | Mnemonic::CALL_FUNCTION_KW => StackEffect::Known(call_adjustment(a, 1)),
            Mnemonic::CALL_FUNCTION_VAR_KW => StackEffect::Known(call_adjustment(a, 2)),
        }
    }
}

/// Loading a constant pushes one value, whatever the operand.
pub proof fn lemma_load_const_pushes_one(a: int)
    ensures
        stack_delta(Mnemonic::LOAD_CONST, a) == Some(1int),
{
}

/// The effect is indeterminate exactly for the operations that depend on the
/// running program; every other covered operation has a number.
pub proof fn lemma_indeterminate_exactly_runtime_dependent(m: Mnemonic, a: int)
    requires
        has_stack_effect(m),
    ensures
        stack_delta(m, a) is None <==> runtime_dependent(m),
{
}

/// In the standard dialect every opcode whose effect depends on its operand
/// takes one, so a well-formed instruction always has what the calculator
/// reads.
pub proof fn lemma_standard_operand_present(i: Instruction<Standard>)
    requires
        i.wf(),
    ensures
        reads_arg(i.opcode.spec_mnemonic()) ==> i.arg is Some,
{
}

} // verus!
