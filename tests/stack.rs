use pydis::opcode::effect::StackEffect;
use pydis::opcode::py27::Standard;
use pydis::opcode::{Instruction, Opcode};

fn effect(opcode: Standard, arg: Option<u16>) -> StackEffect {
    Instruction { opcode, arg }.stack_adjustment_after()
}

#[test]
fn load_const_pushes_one() {
    for a in [0u16, 1, 7, 255, 65535] {
        assert_eq!(effect(Standard::LOAD_CONST, Some(a)), StackEffect::Known(1));
    }
}

#[test]
fn call_function_counts_arguments() {
    assert_eq!(effect(Standard::CALL_FUNCTION, Some(0x0102)), StackEffect::Known(-3));
    assert_eq!(effect(Standard::CALL_FUNCTION, Some(0)), StackEffect::Known(0));
    assert_eq!(effect(Standard::CALL_FUNCTION, Some(0xFFFF)), StackEffect::Known(-510));
}

#[test]
fn call_variants_count_spreads() {
    assert_eq!(effect(Standard::CALL_FUNCTION_VAR, Some(0x0102)), StackEffect::Known(-4));
    assert_eq!(effect(Standard::CALL_FUNCTION_KW, Some(0x0102)), StackEffect::Known(-4));
    assert_eq!(effect(Standard::CALL_FUNCTION_VAR_KW, Some(0x0102)), StackEffect::Known(-5));
}

#[test]
fn runtime_dependent_are_indeterminate() {
    for o in [
        Standard::WITH_CLEANUP,
        Standard::JUMP_IF_FALSE_OR_POP,
        Standard::JUMP_IF_TRUE_OR_POP,
        Standard::SETUP_EXCEPT,
        Standard::SETUP_FINALLY,
        Standard::SETUP_WITH,
    ] {
        let arg = if o.has_arg() { Some(4) } else { None };
        let e = effect(o, arg);
        assert_eq!(e, StackEffect::Indeterminate);
        assert!(!matches!(e, StackEffect::Known(_)));
    }
}

#[test]
fn collections_net_count_minus_one() {
    assert_eq!(effect(Standard::BUILD_TUPLE, Some(3)), StackEffect::Known(2));
    assert_eq!(effect(Standard::BUILD_LIST, Some(0)), StackEffect::Known(-1));
    assert_eq!(effect(Standard::BUILD_SET, Some(1)), StackEffect::Known(0));
    assert_eq!(effect(Standard::UNPACK_SEQUENCE, Some(4)), StackEffect::Known(3));
    assert_eq!(effect(Standard::BUILD_SLICE, Some(3)), StackEffect::Known(-2));
    assert_eq!(effect(Standard::DUP_TOPX, Some(2)), StackEffect::Known(2));
    assert_eq!(effect(Standard::MAKE_CLOSURE, Some(1)), StackEffect::Known(3));
}

#[test]
fn fixed_effects() {
    assert_eq!(effect(Standard::POP_TOP, None), StackEffect::Known(-1));
    assert_eq!(effect(Standard::DUP_TOP_TWO, None), StackEffect::Known(2));
    assert_eq!(effect(Standard::BINARY_ADD, None), StackEffect::Known(-1));
    assert_eq!(effect(Standard::STORE_SLICE_3, None), StackEffect::Known(-4));
    assert_eq!(effect(Standard::STORE_SUBSCR, None), StackEffect::Known(-3));
    assert_eq!(effect(Standard::NOP, None), StackEffect::Known(0));
    assert_eq!(effect(Standard::STORE_ATTR, Some(0)), StackEffect::Known(-2));
    assert_eq!(effect(Standard::POP_JUMP_IF_FALSE, Some(10)), StackEffect::Known(-1));
    assert_eq!(effect(Standard::SETUP_LOOP, Some(10)), StackEffect::Known(0));
}

#[test]
fn instruction_length() {
    assert_eq!(Instruction { opcode: Standard::NOP, arg: None }.len(), 1);
    assert_eq!(Instruction { opcode: Standard::LOAD_FAST, arg: Some(0) }.len(), 3);
}
