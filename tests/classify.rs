use pydis::opcode::py27::{Mnemonic, Standard};
use pydis::opcode::Opcode;

fn all() -> Vec<Standard> {
    (0..=255u8).filter_map(Standard::from_u8).collect()
}

#[test]
fn jump_kinds_are_disjoint() {
    for o in all() {
        assert!(!(o.is_relative_jump() && o.is_absolute_jump()), "{:?}", o);
        assert_eq!(o.is_jump(), o.is_relative_jump() || o.is_absolute_jump());
        if o.is_jump() {
            assert!(o.has_arg(), "{:?}", o);
        }
    }
}

#[test]
fn operand_tables_are_disjoint() {
    for o in all() {
        let n = [o.has_name(), o.has_local(), o.has_free(), o.has_const()]
            .iter()
            .filter(|x| **x)
            .count();
        assert!(n <= 1, "{:?}", o);
    }
}

#[test]
fn has_arg_threshold() {
    assert!(!Standard::BUILD_CLASS.has_arg());
    assert!(Standard::STORE_NAME.has_arg());
    assert!(!Standard::STOP_CODE.has_arg());
    assert!(Standard::MAP_ADD.has_arg());
    assert!(Standard::EXTENDED_ARG.has_extended_arg());
    assert!(!Standard::SETUP_WITH.has_extended_arg());
    assert!(Standard::SET_ADD.has_extended_arg());
}

#[test]
fn named_classes() {
    assert!(Standard::LOAD_CONST.has_const());
    assert!(!Standard::LOAD_NAME.has_const());
    assert!(Standard::COMPARE_OP.has_comp());
    assert!(Standard::LOAD_GLOBAL.has_name());
    assert!(Standard::IMPORT_FROM.has_name());
    assert!(!Standard::LOAD_FAST.has_name());
    assert!(Standard::DELETE_FAST.has_local());
    assert!(Standard::STORE_DEREF.has_free());
    assert!(!Standard::LOAD_GLOBAL.has_free());
}

#[test]
fn jump_classes() {
    assert!(Standard::FOR_ITER.is_relative_jump());
    assert!(Standard::JUMP_FORWARD.is_relative_jump());
    assert!(!Standard::JUMP_FORWARD.is_other_conditional_jump());
    assert!(Standard::SETUP_LOOP.is_other_conditional_jump());
    assert!(Standard::CONTINUE_LOOP.is_absolute_jump());
    assert!(!Standard::CONTINUE_LOOP.is_conditional_jump());
    assert!(Standard::POP_JUMP_IF_TRUE.is_conditional_jump());
    assert!(Standard::POP_JUMP_IF_TRUE.is_jump());
    assert!(!Standard::RETURN_VALUE.is_jump());
}

#[test]
fn mnemonic_round_trip() {
    for o in all() {
        assert_eq!(Standard::from(o.mnemonic()), o);
    }
    assert_eq!(Standard::LOAD_CONST.mnemonic(), Mnemonic::LOAD_CONST);
    assert_eq!(Standard::from(Mnemonic::CALL_FUNCTION), Standard::CALL_FUNCTION);
    assert_eq!(Standard::from(Mnemonic::CALL_FUNCTION).to_u8(), 131);
}

#[test]
fn mnemonics_are_distinct() {
    let ops = all();
    for (i, a) in ops.iter().enumerate() {
        for b in ops.iter().skip(i + 1) {
            assert_ne!(a.mnemonic(), b.mnemonic());
        }
    }
}
