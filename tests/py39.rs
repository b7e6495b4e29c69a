use pydis::opcode::py39::Opcode;

fn all() -> Vec<Opcode> {
    (0..=255u8).filter_map(Opcode::from_u8).collect()
}

#[test]
fn py39_bytes_round_trip() {
    let ops = all();
    assert_eq!(ops.len(), 105);
    for o in ops {
        assert_eq!(Opcode::from_u8(o.to_u8()), Some(o));
    }
    assert_eq!(Opcode::from_u8(0), None);
    assert_eq!(Opcode::from_u8(8), None);
    assert_eq!(Opcode::from_u8(48), Some(Opcode::RERAISE));
    assert_eq!(Opcode::from_u8(92), Some(Opcode::UNPACK_SEQUENCE));
    assert_eq!(Opcode::MAP_ADD.to_u8(), 147);
}

#[test]
fn py39_classes_are_disjoint() {
    for o in all() {
        assert!(!(o.is_relative_jump() && o.is_absolute_jump()), "{:?}", o);
        let n = [o.has_name(), o.has_local(), o.has_free(), o.has_const()]
            .iter()
            .filter(|x| **x)
            .count();
        assert!(n <= 1, "{:?}", o);
        if o.is_relative_jump() || o.is_absolute_jump() {
            assert!(o.has_arg(), "{:?}", o);
        }
    }
}

#[test]
fn py39_classes() {
    assert!(!Opcode::POP_EXCEPT.has_arg());
    assert!(Opcode::STORE_NAME.has_arg());
    assert!(Opcode::LIST_APPEND.has_extended_arg());
    assert!(!Opcode::SETUP_WITH.has_extended_arg());
    assert!(Opcode::LOAD_CONST.has_const());
    assert!(Opcode::COMPARE_OP.has_comp());
    assert!(!Opcode::IS_OP.has_comp());
    assert!(Opcode::SETUP_FINALLY.is_relative_jump());
    assert!(Opcode::JUMP_FORWARD.is_relative_jump());
    assert!(!Opcode::JUMP_FORWARD.is_absolute_jump());
    assert!(Opcode::JUMP_IF_NOT_EXC_MATCH.is_absolute_jump());
    assert!(Opcode::IMPORT_FROM.has_name());
    assert!(Opcode::LOAD_GLOBAL.has_name());
    assert!(Opcode::STORE_FAST.has_local());
    assert!(Opcode::LOAD_CLOSURE.has_free());
}
