use vstd::prelude::*;

use super::Opcode;

verus! {

/// Dialect-independent names of the operations of the virtual machine.
#[allow(non_camel_case_types)]
#[derive(Debug, Copy, Clone, PartialEq, Eq, Structural)]
pub enum Mnemonic {
    STOP_CODE,
    POP_TOP,
    ROT_TWO,
    ROT_THREE,
    DUP_TOP,
    DUP_TOP_TWO,
    ROT_FOUR,
    NOP,
    UNARY_POSITIVE,
    UNARY_NEGATIVE,
    UNARY_NOT,
    UNARY_CONVERT,
    UNARY_INVERT,
    BINARY_POWER,
    BINARY_MULTIPLY,
    BINARY_DIVIDE,
    BINARY_MODULO,
    BINARY_ADD,
    BINARY_SUBTRACT,
    BINARY_SUBSC,
    BINARY_FLOOR_DIVIDE,
    BINARY_TRUE_DIVIDE,
    INPLACE_FLOOR_DIVIDE,
    INPLACE_TRUE_DIVIDE,
    SLICE_0,
    SLICE_1,
    SLICE_2,
    SLICE_3,
    STORE_SLICE_0,
    STORE_SLICE_1,
    STORE_SLICE_2,
    STORE_SLICE_3,
    DELETE_SLICE_0,
    DELETE_SLICE_1,
    DELETE_SLICE_2,
    DELETE_SLICE_3,
    STORE_MAP,
    INPLACE_ADD,
    INPLACE_SUBTRACT,
    INPLACE_MULTIPLY,
    INPLACE_DIVIDE,
    INPLACE_MODULO,
    STORE_SUBSCR,
    DELETE_SUBSCR,
    BINARY_LSHIFT,
    BINARY_RSHIFT,
    BINARY_AND,
    BINARY_XOR,
    BINARY_OR,
    INPLACE_POWER,
    GET_ITER,
    PRINT_EXPR,
    PRINT_ITEM,
    PRINT_NEWLINE,
    PRINT_ITEM_TO,
    PRINT_NEWLINE_TO,
    INPLACE_LSHIFT,
    INPLACE_RSHIFT,
    INPLACE_AND,
    INPLACE_XOR,
    INPLACE_OR,
    BREAK_LOOP,
    WITH_CLEANUP,
    LOAD_LOCALS,
    RETURN_VALUE,
    IMPORT_STAR,
    EXEC_STMT,
    YIELD_VALUE,
    POP_BLOCK,
    END_FINALLY,
    BUILD_CLASS,
    STORE_NAME,
    DELETE_NAME,
    UNPACK_SEQUENCE,
    FOR_ITER,
    LIST_APPEND,
    STORE_ATTR,
    DELETE_ATTR,
    STORE_GLOBAL,
    DELETE_GLOBAL,
    DUP_TOPX,
    LOAD_CONST,
    LOAD_NAME,
    BUILD_TUPLE,
    BUILD_LIST,
    BUILD_SET,
    BUILD_MAP,
    LOAD_ATTR,
    COMPARE_OP,
    IMPORT_NAME,
    IMPORT_FROM,
    JUMP_FORWARD,
    JUMP_IF_FALSE_OR_POP,
    JUMP_IF_TRUE_OR_POP,
    JUMP_ABSOLUTE,
    POP_JUMP_IF_FALSE,
    POP_JUMP_IF_TRUE,
    LOAD_GLOBAL,
    CONTINUE_LOOP,
    SETUP_LOOP,
    SETUP_EXCEPT,
    SETUP_FINALLY,
    LOAD_FAST,
    STORE_FAST,
    DELETE_FAST,
    RAISE_VARARGS,
    CALL_FUNCTION,
    MAKE_FUNCTION,
    BUILD_SLICE,
    MAKE_CLOSURE,
    LOAD_CLOSURE,
    LOAD_DEREF,
    STORE_DEREF,
    CALL_FUNCTION_VAR,
    CALL_FUNCTION_KW,
    CALL_FUNCTION_VAR_KW,
    SETUP_WITH,
    EXTENDED_ARG,
    SET_ADD,
    MAP_ADD,
}

impl Mnemonic {
    /// The symbolic name of each operation.
    pub open spec fn spec_name(self) -> Seq<char> {
        match self {
            Mnemonic::STOP_CODE => "STOP_CODE"@,
            Mnemonic::POP_TOP => "POP_TOP"@,
            Mnemonic::ROT_TWO => "ROT_TWO"@,
            Mnemonic::ROT_THREE => "ROT_THREE"@,
            Mnemonic::DUP_TOP => "DUP_TOP"@,
            Mnemonic::DUP_TOP_TWO => "DUP_TOP_TWO"@,
            Mnemonic::ROT_FOUR => "ROT_FOUR"@,
            Mnemonic::NOP => "NOP"@,
            Mnemonic::UNARY_POSITIVE => "UNARY_POSITIVE"@,
            Mnemonic::UNARY_NEGATIVE => "UNARY_NEGATIVE"@,
            Mnemonic::UNARY_NOT => "UNARY_NOT"@,
            Mnemonic::UNARY_CONVERT => "UNARY_CONVERT"@,
            Mnemonic::UNARY_INVERT => "UNARY_INVERT"@,
            Mnemonic::BINARY_POWER => "BINARY_POWER"@,
            Mnemonic::BINARY_MULTIPLY => "BINARY_MULTIPLY"@,
            Mnemonic::BINARY_DIVIDE => "BINARY_DIVIDE"@,
            Mnemonic::BINARY_MODULO => "BINARY_MODULO"@,
            Mnemonic::BINARY_ADD => "BINARY_ADD"@,
            Mnemonic::BINARY_SUBTRACT => "BINARY_SUBTRACT"@,
            Mnemonic::BINARY_SUBSC => "BINARY_SUBSC"@,
            Mnemonic::BINARY_FLOOR_DIVIDE => "BINARY_FLOOR_DIVIDE"@,
            Mnemonic::BINARY_TRUE_DIVIDE => "BINARY_TRUE_DIVIDE"@,
            Mnemonic::INPLACE_FLOOR_DIVIDE => "INPLACE_FLOOR_DIVIDE"@,
            Mnemonic::INPLACE_TRUE_DIVIDE => "INPLACE_TRUE_DIVIDE"@,
            Mnemonic::SLICE_0 => "SLICE_0"@,
            Mnemonic::SLICE_1 => "SLICE_1"@,
            Mnemonic::SLICE_2 => "SLICE_2"@,
            Mnemonic::SLICE_3 => "SLICE_3"@,
            Mnemonic::STORE_SLICE_0 => "STORE_SLICE_0"@,
            Mnemonic::STORE_SLICE_1 => "STORE_SLICE_1"@,
            Mnemonic::STORE_SLICE_2 => "STORE_SLICE_2"@,
            Mnemonic::STORE_SLICE_3 => "STORE_SLICE_3"@,
            Mnemonic::DELETE_SLICE_0 => "DELETE_SLICE_0"@,
            Mnemonic::DELETE_SLICE_1 => "DELETE_SLICE_1"@,
            Mnemonic::DELETE_SLICE_2 => "DELETE_SLICE_2"@,
            Mnemonic::DELETE_SLICE_3 => "DELETE_SLICE_3"@,
            Mnemonic::STORE_MAP => "STORE_MAP"@,
            Mnemonic::INPLACE_ADD => "INPLACE_ADD"@,
            Mnemonic::INPLACE_SUBTRACT => "INPLACE_SUBTRACT"@,
            Mnemonic::INPLACE_MULTIPLY => "INPLACE_MULTIPLY"@,
            Mnemonic::INPLACE_DIVIDE => "INPLACE_DIVIDE"@,
            Mnemonic::INPLACE_MODULO => "INPLACE_MODULO"@,
            Mnemonic::STORE_SUBSCR => "STORE_SUBSCR"@,
            Mnemonic::DELETE_SUBSCR => "DELETE_SUBSCR"@,
            Mnemonic::BINARY_LSHIFT => "BINARY_LSHIFT"@,
            Mnemonic::BINARY_RSHIFT => "BINARY_RSHIFT"@,
            Mnemonic::BINARY_AND => "BINARY_AND"@,
            Mnemonic::BINARY_XOR => "BINARY_XOR"@,
            Mnemonic::BINARY_OR => "BINARY_OR"@,
            Mnemonic::INPLACE_POWER => "INPLACE_POWER"@,
            Mnemonic::GET_ITER => "GET_ITER"@,
            Mnemonic::PRINT_EXPR => "PRINT_EXPR"@,
            Mnemonic::PRINT_ITEM => "PRINT_ITEM"@,
            Mnemonic::PRINT_NEWLINE => "PRINT_NEWLINE"@,
            Mnemonic::PRINT_ITEM_TO => "PRINT_ITEM_TO"@,
            Mnemonic::PRINT_NEWLINE_TO => "PRINT_NEWLINE_TO"@,
            Mnemonic::INPLACE_LSHIFT => "INPLACE_LSHIFT"@,
            Mnemonic::INPLACE_RSHIFT => "INPLACE_RSHIFT"@,
            Mnemonic::INPLACE_AND => "INPLACE_AND"@,
            Mnemonic::INPLACE_XOR => "INPLACE_XOR"@,
            Mnemonic::INPLACE_OR => "INPLACE_OR"@,
            Mnemonic::BREAK_LOOP => "BREAK_LOOP"@,
            Mnemonic::WITH_CLEANUP => "WITH_CLEANUP"@,
            Mnemonic::LOAD_LOCALS => "LOAD_LOCALS"@,
            Mnemonic::RETURN_VALUE => "RETURN_VALUE"@,
            Mnemonic::IMPORT_STAR => "IMPORT_STAR"@,
            Mnemonic::EXEC_STMT => "EXEC_STMT"@,
            Mnemonic::YIELD_VALUE => "YIELD_VALUE"@,
            Mnemonic::POP_BLOCK => "POP_BLOCK"@,
            Mnemonic::END_FINALLY => "END_FINALLY"@,
            Mnemonic::BUILD_CLASS => "BUILD_CLASS"@,
            Mnemonic::STORE_NAME => "STORE_NAME"@,
            Mnemonic::DELETE_NAME => "DELETE_NAME"@,
            Mnemonic::UNPACK_SEQUENCE => "UNPACK_SEQUENCE"@,
            Mnemonic::FOR_ITER => "FOR_ITER"@,
            Mnemonic::LIST_APPEND => "LIST_APPEND"@,
            Mnemonic::STORE_ATTR => "STORE_ATTR"@,
            Mnemonic::DELETE_ATTR => "DELETE_ATTR"@,
            Mnemonic::STORE_GLOBAL => "STORE_GLOBAL"@,
            Mnemonic::DELETE_GLOBAL => "DELETE_GLOBAL"@,
            Mnemonic::DUP_TOPX => "DUP_TOPX"@,
            Mnemonic::LOAD_CONST => "LOAD_CONST"@,
            Mnemonic::LOAD_NAME => "LOAD_NAME"@,
            Mnemonic::BUILD_TUPLE => "BUILD_TUPLE"@,
            Mnemonic::BUILD_LIST => "BUILD_LIST"@,
            Mnemonic::BUILD_SET => "BUILD_SET"@,
            Mnemonic::BUILD_MAP => "BUILD_MAP"@,
            Mnemonic::LOAD_ATTR => "LOAD_ATTR"@,
            Mnemonic::COMPARE_OP => "COMPARE_OP"@,
            Mnemonic::IMPORT_NAME => "IMPORT_NAME"@,
            Mnemonic::IMPORT_FROM => "IMPORT_FROM"@,
            Mnemonic::JUMP_FORWARD => "JUMP_FORWARD"@,
            Mnemonic::JUMP_IF_FALSE_OR_POP => "JUMP_IF_FALSE_OR_POP"@,
            Mnemonic::JUMP_IF_TRUE_OR_POP => "JUMP_IF_TRUE_OR_POP"@,
            Mnemonic::JUMP_ABSOLUTE => "JUMP_ABSOLUTE"@,
            Mnemonic::POP_JUMP_IF_FALSE => "POP_JUMP_IF_FALSE"@,
            Mnemonic::POP_JUMP_IF_TRUE => "POP_JUMP_IF_TRUE"@,
            Mnemonic::LOAD_GLOBAL => "LOAD_GLOBAL"@,
            Mnemonic::CONTINUE_LOOP => "CONTINUE_LOOP"@,
            Mnemonic::SETUP_LOOP => "SETUP_LOOP"@,
            Mnemonic::SETUP_EXCEPT => "SETUP_EXCEPT"@,
            Mnemonic::SETUP_FINALLY => "SETUP_FINALLY"@,
            Mnemonic::LOAD_FAST => "LOAD_FAST"@,
            Mnemonic::STORE_FAST => "STORE_FAST"@,
            Mnemonic::DELETE_FAST => "DELETE_FAST"@,
            Mnemonic::RAISE_VARARGS => "RAISE_VARARGS"@,
            Mnemonic::CALL_FUNCTION => "CALL_FUNCTION"@,
            Mnemonic::MAKE_FUNCTION => "MAKE_FUNCTION"@,
            Mnemonic::BUILD_SLICE => "BUILD_SLICE"@,
            Mnemonic::MAKE_CLOSURE => "MAKE_CLOSURE"@,
            Mnemonic::LOAD_CLOSURE => "LOAD_CLOSURE"@,
            Mnemonic::LOAD_DEREF => "LOAD_DEREF"@,
            Mnemonic::STORE_DEREF => "STORE_DEREF"@,
            Mnemonic::CALL_FUNCTION_VAR => "CALL_FUNCTION_VAR"@,
            Mnemonic::CALL_FUNCTION_KW => "CALL_FUNCTION_KW"@,
            Mnemonic::CALL_FUNCTION_VAR_KW => "CALL_FUNCTION_VAR_KW"@,
            Mnemonic::SETUP_WITH => "SETUP_WITH"@,
            Mnemonic::EXTENDED_ARG => "EXTENDED_ARG"@,
            Mnemonic::SET_ADD => "SET_ADD"@,
            Mnemonic::MAP_ADD => "MAP_ADD"@,
        }
    }

    /// The symbolic name of this operation
    pub fn name(&self) -> (r: &'static str)
        ensures
            r@ == self.spec_name(),
    {
        match self {
            Mnemonic::STOP_CODE => "STOP_CODE",
            Mnemonic::POP_TOP => "POP_TOP",
            Mnemonic::ROT_TWO => "ROT_TWO",
            Mnemonic::ROT_THREE => "ROT_THREE",
            Mnemonic::DUP_TOP => "DUP_TOP",
            Mnemonic::DUP_TOP_TWO => "DUP_TOP_TWO",
            Mnemonic::ROT_FOUR => "ROT_FOUR",
            Mnemonic::NOP => "NOP",
            Mnemonic::UNARY_POSITIVE => "UNARY_POSITIVE",
            Mnemonic::UNARY_NEGATIVE => "UNARY_NEGATIVE",
            Mnemonic::UNARY_NOT => "UNARY_NOT",
            Mnemonic::UNARY_CONVERT => "UNARY_CONVERT",
            Mnemonic::UNARY_INVERT => "UNARY_INVERT",
            Mnemonic::BINARY_POWER => "BINARY_POWER",
            Mnemonic::BINARY_MULTIPLY => "BINARY_MULTIPLY",
            Mnemonic::BINARY_DIVIDE => "BINARY_DIVIDE",
            Mnemonic::BINARY_MODULO => "BINARY_MODULO",
            Mnemonic::BINARY_ADD => "BINARY_ADD",
            Mnemonic::BINARY_SUBTRACT => "BINARY_SUBTRACT",
            Mnemonic::BINARY_SUBSC => "BINARY_SUBSC",
            Mnemonic::BINARY_FLOOR_DIVIDE => "BINARY_FLOOR_DIVIDE",
            Mnemonic::BINARY_TRUE_DIVIDE => "BINARY_TRUE_DIVIDE",
            Mnemonic::INPLACE_FLOOR_DIVIDE => "INPLACE_FLOOR_DIVIDE",
            Mnemonic::INPLACE_TRUE_DIVIDE => "INPLACE_TRUE_DIVIDE",
            Mnemonic::SLICE_0 => "SLICE_0",
            Mnemonic::SLICE_1 => "SLICE_1",
            Mnemonic::SLICE_2 => "SLICE_2",
            Mnemonic::SLICE_3 => "SLICE_3",
            Mnemonic::STORE_SLICE_0 => "STORE_SLICE_0",
            Mnemonic::STORE_SLICE_1 => "STORE_SLICE_1",
            Mnemonic::STORE_SLICE_2 => "STORE_SLICE_2",
            Mnemonic::STORE_SLICE_3 => "STORE_SLICE_3",
            Mnemonic::DELETE_SLICE_0 => "DELETE_SLICE_0",
            Mnemonic::DELETE_SLICE_1 => "DELETE_SLICE_1",
            Mnemonic::DELETE_SLICE_2 => "DELETE_SLICE_2",
            Mnemonic::DELETE_SLICE_3 => "DELETE_SLICE_3",
            Mnemonic::STORE_MAP => "STORE_MAP",
            Mnemonic::INPLACE_ADD => "INPLACE_ADD",
            Mnemonic::INPLACE_SUBTRACT => "INPLACE_SUBTRACT",
            Mnemonic::INPLACE_MULTIPLY => "INPLACE_MULTIPLY",
            Mnemonic::INPLACE_DIVIDE => "INPLACE_DIVIDE",
            Mnemonic::INPLACE_MODULO => "INPLACE_MODULO",
            Mnemonic::STORE_SUBSCR => "STORE_SUBSCR",
            Mnemonic::DELETE_SUBSCR => "DELETE_SUBSCR",
            Mnemonic::BINARY_LSHIFT => "BINARY_LSHIFT",
            Mnemonic::BINARY_RSHIFT => "BINARY_RSHIFT",
            Mnemonic::BINARY_AND => "BINARY_AND",
            Mnemonic::BINARY_XOR => "BINARY_XOR",
            Mnemonic::BINARY_OR => "BINARY_OR",
            Mnemonic::INPLACE_POWER => "INPLACE_POWER",
            Mnemonic::GET_ITER => "GET_ITER",
            Mnemonic::PRINT_EXPR => "PRINT_EXPR",
            Mnemonic::PRINT_ITEM => "PRINT_ITEM",
            Mnemonic::PRINT_NEWLINE => "PRINT_NEWLINE",
            Mnemonic::PRINT_ITEM_TO => "PRINT_ITEM_TO",
            Mnemonic::PRINT_NEWLINE_TO => "PRINT_NEWLINE_TO",
            Mnemonic::INPLACE_LSHIFT => "INPLACE_LSHIFT",
            Mnemonic::INPLACE_RSHIFT => "INPLACE_RSHIFT",
            Mnemonic::INPLACE_AND => "INPLACE_AND",
            Mnemonic::INPLACE_XOR => "INPLACE_XOR",
            Mnemonic::INPLACE_OR => "INPLACE_OR",
            Mnemonic::BREAK_LOOP => "BREAK_LOOP",
            Mnemonic::WITH_CLEANUP => "WITH_CLEANUP",
            Mnemonic::LOAD_LOCALS => "LOAD_LOCALS",
            Mnemonic::RETURN_VALUE => "RETURN_VALUE",
            Mnemonic::IMPORT_STAR => "IMPORT_STAR",
            Mnemonic::EXEC_STMT => "EXEC_STMT",
            Mnemonic::YIELD_VALUE => "YIELD_VALUE",
            Mnemonic::POP_BLOCK => "POP_BLOCK",
            Mnemonic::END_FINALLY => "END_FINALLY",
            Mnemonic::BUILD_CLASS => "BUILD_CLASS",
            Mnemonic::STORE_NAME => "STORE_NAME",
            Mnemonic::DELETE_NAME => "DELETE_NAME",
            Mnemonic::UNPACK_SEQUENCE => "UNPACK_SEQUENCE",
            Mnemonic::FOR_ITER => "FOR_ITER",
            Mnemonic::LIST_APPEND => "LIST_APPEND",
            Mnemonic::STORE_ATTR => "STORE_ATTR",
            Mnemonic::DELETE_ATTR => "DELETE_ATTR",
            Mnemonic::STORE_GLOBAL => "STORE_GLOBAL",
            Mnemonic::DELETE_GLOBAL => "DELETE_GLOBAL",
            Mnemonic::DUP_TOPX => "DUP_TOPX",
            Mnemonic::LOAD_CONST => "LOAD_CONST",
            Mnemonic::LOAD_NAME => "LOAD_NAME",
            Mnemonic::BUILD_TUPLE => "BUILD_TUPLE",
            Mnemonic::BUILD_LIST => "BUILD_LIST",
            Mnemonic::BUILD_SET => "BUILD_SET",
            Mnemonic::BUILD_MAP => "BUILD_MAP",
            Mnemonic::LOAD_ATTR => "LOAD_ATTR",
            Mnemonic::COMPARE_OP => "COMPARE_OP",
            Mnemonic::IMPORT_NAME => "IMPORT_NAME",
            Mnemonic::IMPORT_FROM => "IMPORT_FROM",
            Mnemonic::JUMP_FORWARD => "JUMP_FORWARD",
            Mnemonic::JUMP_IF_FALSE_OR_POP => "JUMP_IF_FALSE_OR_POP",
            Mnemonic::JUMP_IF_TRUE_OR_POP => "JUMP_IF_TRUE_OR_POP",
            Mnemonic::JUMP_ABSOLUTE => "JUMP_ABSOLUTE",
            Mnemonic::POP_JUMP_IF_FALSE => "POP_JUMP_IF_FALSE",
            Mnemonic::POP_JUMP_IF_TRUE => "POP_JUMP_IF_TRUE",
            Mnemonic::LOAD_GLOBAL => "LOAD_GLOBAL",
            Mnemonic::CONTINUE_LOOP => "CONTINUE_LOOP",
            Mnemonic::SETUP_LOOP => "SETUP_LOOP",
            Mnemonic::SETUP_EXCEPT => "SETUP_EXCEPT",
            Mnemonic::SETUP_FINALLY => "SETUP_FINALLY",
            Mnemonic::LOAD_FAST => "LOAD_FAST",
            Mnemonic::STORE_FAST => "STORE_FAST",
            Mnemonic::DELETE_FAST => "DELETE_FAST",
            Mnemonic::RAISE_VARARGS => "RAISE_VARARGS",
            Mnemonic::CALL_FUNCTION => "CALL_FUNCTION",
            Mnemonic::MAKE_FUNCTION => "MAKE_FUNCTION",
            Mnemonic::BUILD_SLICE => "BUILD_SLICE",
            Mnemonic::MAKE_CLOSURE => "MAKE_CLOSURE",
            Mnemonic::LOAD_CLOSURE => "LOAD_CLOSURE",
            Mnemonic::LOAD_DEREF => "LOAD_DEREF",
            Mnemonic::STORE_DEREF => "STORE_DEREF",
            Mnemonic::CALL_FUNCTION_VAR => "CALL_FUNCTION_VAR",
            Mnemonic::CALL_FUNCTION_KW => "CALL_FUNCTION_KW",
            Mnemonic::CALL_FUNCTION_VAR_KW => "CALL_FUNCTION_VAR_KW",
            Mnemonic::SETUP_WITH => "SETUP_WITH",
            Mnemonic::EXTENDED_ARG => "EXTENDED_ARG",
            Mnemonic::SET_ADD => "SET_ADD",
            Mnemonic::MAP_ADD => "MAP_ADD",
        }
    }
}

/// The standard opcode set of the 2.7 virtual machine, in byte order.
#[allow(non_camel_case_types)]
#[derive(Debug, Copy, Clone, PartialEq, Eq, Structural, PartialOrd, Ord, Hash)]
pub enum Standard {
    STOP_CODE,
    POP_TOP,
    ROT_TWO,
    ROT_THREE,
    DUP_TOP,
    DUP_TOP_TWO,
    ROT_FOUR,
    NOP,
    UNARY_POSITIVE,
    UNARY_NEGATIVE,
    UNARY_NOT,
    UNARY_CONVERT,
    UNARY_INVERT,
    BINARY_POWER,
    BINARY_MULTIPLY,
    BINARY_DIVIDE,
    BINARY_MODULO,
    BINARY_ADD,
    BINARY_SUBTRACT,
    BINARY_SUBSC,
    BINARY_FLOOR_DIVIDE,
    BINARY_TRUE_DIVIDE,
    INPLACE_FLOOR_DIVIDE,
    INPLACE_TRUE_DIVIDE,
    SLICE_0,
    SLICE_1,
    SLICE_2,
    SLICE_3,
    STORE_SLICE_0,
    STORE_SLICE_1,
    STORE_SLICE_2,
    STORE_SLICE_3,
    DELETE_SLICE_0,
    DELETE_SLICE_1,
    DELETE_SLICE_2,
    DELETE_SLICE_3,
    STORE_MAP,
    INPLACE_ADD,
    INPLACE_SUBTRACT,
    INPLACE_MULTIPLY,
    INPLACE_DIVIDE,
    INPLACE_MODULO,
    STORE_SUBSCR,
    DELETE_SUBSCR,
    BINARY_LSHIFT,
    BINARY_RSHIFT,
    BINARY_AND,
    BINARY_XOR,
    BINARY_OR,
    INPLACE_POWER,
    GET_ITER,
    PRINT_EXPR,
    PRINT_ITEM,
    PRINT_NEWLINE,
    PRINT_ITEM_TO,
    PRINT_NEWLINE_TO,
    INPLACE_LSHIFT,
    INPLACE_RSHIFT,
    INPLACE_AND,
    INPLACE_XOR,
    INPLACE_OR,
    BREAK_LOOP,
    WITH_CLEANUP,
    LOAD_LOCALS,
    RETURN_VALUE,
    IMPORT_STAR,
    EXEC_STMT,
    YIELD_VALUE,
    POP_BLOCK,
    END_FINALLY,
    BUILD_CLASS,
    STORE_NAME,
    DELETE_NAME,
    UNPACK_SEQUENCE,
    FOR_ITER,
    LIST_APPEND,
    STORE_ATTR,
    DELETE_ATTR,
    STORE_GLOBAL,
    DELETE_GLOBAL,
    DUP_TOPX,
    LOAD_CONST,
    LOAD_NAME,
    BUILD_TUPLE,
    BUILD_LIST,
    BUILD_SET,
    BUILD_MAP,
    LOAD_ATTR,
    COMPARE_OP,
    IMPORT_NAME,
    IMPORT_FROM,
    JUMP_FORWARD,
    JUMP_IF_FALSE_OR_POP,
    JUMP_IF_TRUE_OR_POP,
    JUMP_ABSOLUTE,
    POP_JUMP_IF_FALSE,
    POP_JUMP_IF_TRUE,
    LOAD_GLOBAL,
    CONTINUE_LOOP,
    SETUP_LOOP,
    SETUP_EXCEPT,
    SETUP_FINALLY,
    LOAD_FAST,
    STORE_FAST,
    DELETE_FAST,
    RAISE_VARARGS,
    CALL_FUNCTION,
    MAKE_FUNCTION,
    BUILD_SLICE,
    MAKE_CLOSURE,
    LOAD_CLOSURE,
    LOAD_DEREF,
    STORE_DEREF,
    CALL_FUNCTION_VAR,
    CALL_FUNCTION_KW,
    CALL_FUNCTION_VAR_KW,
    SETUP_WITH,
    EXTENDED_ARG,
    SET_ADD,
    MAP_ADD,
}

impl Standard {
    /// The byte that encodes each opcode.
    pub open spec fn byte(self) -> u8 {
        match self {
            Standard::STOP_CODE => 0,
            Standard::POP_TOP => 1,
            Standard::ROT_TWO => 2,
            Standard::ROT_THREE => 3,
            Standard::DUP_TOP => 4,
            Standard::DUP_TOP_TWO => 5,
            Standard::ROT_FOUR => 6,
            Standard::NOP => 9,
            Standard::UNARY_POSITIVE => 10,
            Standard::UNARY_NEGATIVE => 11,
            Standard::UNARY_NOT => 12,
            Standard::UNARY_CONVERT => 13,
            Standard::UNARY_INVERT => 15,
            Standard::BINARY_POWER => 19,
            Standard::BINARY_MULTIPLY => 20,
            Standard::BINARY_DIVIDE => 21,
            Standard::BINARY_MODULO => 22,
            Standard::BINARY_ADD => 23,
            Standard::BINARY_SUBTRACT => 24,
            Standard::BINARY_SUBSC => 25,
            Standard::BINARY_FLOOR_DIVIDE => 26,
            Standard::BINARY_TRUE_DIVIDE => 27,
            Standard::INPLACE_FLOOR_DIVIDE => 28,
            Standard::INPLACE_TRUE_DIVIDE => 29,
            Standard::SLICE_0 => 30,
            Standard::SLICE_1 => 31,
            Standard::SLICE_2 => 32,
            Standard::SLICE_3 => 33,
            Standard::STORE_SLICE_0 => 40,
            Standard::STORE_SLICE_1 => 41,
            Standard::STORE_SLICE_2 => 42,
            Standard::STORE_SLICE_3 => 43,
            Standard::DELETE_SLICE_0 => 50,
            Standard::DELETE_SLICE_1 => 51,
            Standard::DELETE_SLICE_2 => 52,
            Standard::DELETE_SLICE_3 => 53,
            Standard::STORE_MAP => 54,
            Standard::INPLACE_ADD => 55,
            Standard::INPLACE_SUBTRACT => 56,
            Standard::INPLACE_MULTIPLY => 57,
            Standard::INPLACE_DIVIDE => 58,
            Standard::INPLACE_MODULO => 59,
            Standard::STORE_SUBSCR => 60,
            Standard::DELETE_SUBSCR => 61,
            Standard::BINARY_LSHIFT => 62,
            Standard::BINARY_RSHIFT => 63,
            Standard::BINARY_AND => 64,
            Standard::BINARY_XOR => 65,
            Standard::BINARY_OR => 66,
            Standard::INPLACE_POWER => 67,
            Standard::GET_ITER => 68,
            Standard::PRINT_EXPR => 70,
            Standard::PRINT_ITEM => 71,
            Standard::PRINT_NEWLINE => 72,
            Standard::PRINT_ITEM_TO => 73,
            Standard::PRINT_NEWLINE_TO => 74,
            Standard::INPLACE_LSHIFT => 75,
            Standard::INPLACE_RSHIFT => 76,
            Standard::INPLACE_AND => 77,
            Standard::INPLACE_XOR => 78,
            Standard::INPLACE_OR => 79,
            Standard::BREAK_LOOP => 80,
            Standard::WITH_CLEANUP => 81,
            Standard::LOAD_LOCALS => 82,
            Standard::RETURN_VALUE => 83,
            Standard::IMPORT_STAR => 84,
            Standard::EXEC_STMT => 85,
            Standard::YIELD_VALUE => 86,
            Standard::POP_BLOCK => 87,
            Standard::END_FINALLY => 88,
            Standard::BUILD_CLASS => 89,
            Standard::STORE_NAME => 90,
            Standard::DELETE_NAME => 91,
            Standard::UNPACK_SEQUENCE => 92,
            Standard::FOR_ITER => 93,
            Standard::LIST_APPEND => 94,
            Standard::STORE_ATTR => 95,
            Standard::DELETE_ATTR => 96,
            Standard::STORE_GLOBAL => 97,
            Standard::DELETE_GLOBAL => 98,
            Standard::DUP_TOPX => 99,
            Standard::LOAD_CONST => 100,
            Standard::LOAD_NAME => 101,
            Standard::BUILD_TUPLE => 102,
            Standard::BUILD_LIST => 103,
            Standard::BUILD_SET => 104,
            Standard::BUILD_MAP => 105,
            Standard::LOAD_ATTR => 106,
            Standard::COMPARE_OP => 107,
            Standard::IMPORT_NAME => 108,
            Standard::IMPORT_FROM => 109,
            Standard::JUMP_FORWARD => 110,
            Standard::JUMP_IF_FALSE_OR_POP => 111,
            Standard::JUMP_IF_TRUE_OR_POP => 112,
            Standard::JUMP_ABSOLUTE => 113,
            Standard::POP_JUMP_IF_FALSE => 114,
            Standard::POP_JUMP_IF_TRUE => 115,
            Standard::LOAD_GLOBAL => 116,
            Standard::CONTINUE_LOOP => 119,
            Standard::SETUP_LOOP => 120,
            Standard::SETUP_EXCEPT => 121,
            Standard::SETUP_FINALLY => 122,
            Standard::LOAD_FAST => 124,
            Standard::STORE_FAST => 125,
            Standard::DELETE_FAST => 126,
            Standard::RAISE_VARARGS => 130,
            Standard::CALL_FUNCTION => 131,
            Standard::MAKE_FUNCTION => 132,
            Standard::BUILD_SLICE => 133,
            Standard::MAKE_CLOSURE => 134,
            Standard::LOAD_CLOSURE => 135,
            Standard::LOAD_DEREF => 136,
            Standard::STORE_DEREF => 138,
            Standard::CALL_FUNCTION_VAR => 140,
            Standard::CALL_FUNCTION_KW => 141,
            Standard::CALL_FUNCTION_VAR_KW => 142,
            Standard::SETUP_WITH => 143,
            Standard::EXTENDED_ARG => 145,
            Standard::SET_ADD => 146,
            Standard::MAP_ADD => 147,
        }
    }

    /// The opcode that each assigned byte encodes.
    pub open spec fn from_byte(b: u8) -> Option<Standard> {
        match b {
            0 => Some(Standard::STOP_CODE),
            1 => Some(Standard::POP_TOP),
            2 => Some(Standard::ROT_TWO),
            3 => Some(Standard::ROT_THREE),
            4 => Some(Standard::DUP_TOP),
            5 => Some(Standard::DUP_TOP_TWO),
            6 => Some(Standard::ROT_FOUR),
            9 => Some(Standard::NOP),
            10 => Some(Standard::UNARY_POSITIVE),
            11 => Some(Standard::UNARY_NEGATIVE),
            12 => Some(Standard::UNARY_NOT),
            13 => Some(Standard::UNARY_CONVERT),
            15 => Some(Standard::UNARY_INVERT),
            19 => Some(Standard::BINARY_POWER),
            20 => Some(Standard::BINARY_MULTIPLY),
            21 => Some(Standard::BINARY_DIVIDE),
            22 => Some(Standard::BINARY_MODULO),
            23 => Some(Standard::BINARY_ADD),
            24 => Some(Standard::BINARY_SUBTRACT),
            25 => Some(Standard::BINARY_SUBSC),
            26 => Some(Standard::BINARY_FLOOR_DIVIDE),
            27 => Some(Standard::BINARY_TRUE_DIVIDE),
            28 => Some(Standard::INPLACE_FLOOR_DIVIDE),
            29 => Some(Standard::INPLACE_TRUE_DIVIDE),
            30 => Some(Standard::SLICE_0),
            31 => Some(Standard::SLICE_1),
            32 => Some(Standard::SLICE_2),
            33 => Some(Standard::SLICE_3),
            40 => Some(Standard::STORE_SLICE_0),
            41 => Some(Standard::STORE_SLICE_1),
            42 => Some(Standard::STORE_SLICE_2),
            43 => Some(Standard::STORE_SLICE_3),
            50 => Some(Standard::DELETE_SLICE_0),
            51 => Some(Standard::DELETE_SLICE_1),
            52 => Some(Standard::DELETE_SLICE_2),
            53 => Some(Standard::DELETE_SLICE_3),
            54 => Some(Standard::STORE_MAP),
            55 => Some(Standard::INPLACE_ADD),
            56 => Some(Standard::INPLACE_SUBTRACT),
            57 => Some(Standard::INPLACE_MULTIPLY),
            58 => Some(Standard::INPLACE_DIVIDE),
            59 => Some(Standard::INPLACE_MODULO),
            60 => Some(Standard::STORE_SUBSCR),
            61 => Some(Standard::DELETE_SUBSCR),
            62 => Some(Standard::BINARY_LSHIFT),
            63 => Some(Standard::BINARY_RSHIFT),
            64 => Some(Standard::BINARY_AND),
            65 => Some(Standard::BINARY_XOR),
            66 => Some(Standard::BINARY_OR),
            67 => Some(Standard::INPLACE_POWER),
            68 => Some(Standard::GET_ITER),
            70 => Some(Standard::PRINT_EXPR),
            71 => Some(Standard::PRINT_ITEM),
            72 => Some(Standard::PRINT_NEWLINE),
            73 => Some(Standard::PRINT_ITEM_TO),
            74 => Some(Standard::PRINT_NEWLINE_TO),
            75 => Some(Standard::INPLACE_LSHIFT),
            76 => Some(Standard::INPLACE_RSHIFT),
            77 => Some(Standard::INPLACE_AND),
            78 => Some(Standard::INPLACE_XOR),
            79 => Some(Standard::INPLACE_OR),
            80 => Some(Standard::BREAK_LOOP),
            81 => Some(Standard::WITH_CLEANUP),
            82 => Some(Standard::LOAD_LOCALS),
            83 => Some(Standard::RETURN_VALUE),
            84 => Some(Standard::IMPORT_STAR),
            85 => Some(Standard::EXEC_STMT),
            86 => Some(Standard::YIELD_VALUE),
            87 => Some(Standard::POP_BLOCK),
            88 => Some(Standard::END_FINALLY),
            89 => Some(Standard::BUILD_CLASS),
            90 => Some(Standard::STORE_NAME),
            91 => Some(Standard::DELETE_NAME),
            92 => Some(Standard::UNPACK_SEQUENCE),
            93 => Some(Standard::FOR_ITER),
            94 => Some(Standard::LIST_APPEND),
            95 => Some(Standard::STORE_ATTR),
            96 => Some(Standard::DELETE_ATTR),
            97 => Some(Standard::STORE_GLOBAL),
            98 => Some(Standard::DELETE_GLOBAL),
            99 => Some(Standard::DUP_TOPX),
            100 => Some(Standard::LOAD_CONST),
            101 => Some(Standard::LOAD_NAME),
            102 => Some(Standard::BUILD_TUPLE),
            103 => Some(Standard::BUILD_LIST),
            104 => Some(Standard::BUILD_SET),
            105 => Some(Standard::BUILD_MAP),
            106 => Some(Standard::LOAD_ATTR),
            107 => Some(Standard::COMPARE_OP),
            108 => Some(Standard::IMPORT_NAME),
            109 => Some(Standard::IMPORT_FROM),
            110 => Some(Standard::JUMP_FORWARD),
            111 => Some(Standard::JUMP_IF_FALSE_OR_POP),
            112 => Some(Standard::JUMP_IF_TRUE_OR_POP),
            113 => Some(Standard::JUMP_ABSOLUTE),
            114 => Some(Standard::POP_JUMP_IF_FALSE),
            115 => Some(Standard::POP_JUMP_IF_TRUE),
            116 => Some(Standard::LOAD_GLOBAL),
            119 => Some(Standard::CONTINUE_LOOP),
            120 => Some(Standard::SETUP_LOOP),
            121 => Some(Standard::SETUP_EXCEPT),
            122 => Some(Standard::SETUP_FINALLY),
            124 => Some(Standard::LOAD_FAST),
            125 => Some(Standard::STORE_FAST),
            126 => Some(Standard::DELETE_FAST),
            130 => Some(Standard::RAISE_VARARGS),
            131 => Some(Standard::CALL_FUNCTION),
            132 => Some(Standard::MAKE_FUNCTION),
            133 => Some(Standard::BUILD_SLICE),
            134 => Some(Standard::MAKE_CLOSURE),
            135 => Some(Standard::LOAD_CLOSURE),
            136 => Some(Standard::LOAD_DEREF),
            138 => Some(Standard::STORE_DEREF),
            140 => Some(Standard::CALL_FUNCTION_VAR),
            141 => Some(Standard::CALL_FUNCTION_KW),
            142 => Some(Standard::CALL_FUNCTION_VAR_KW),
            143 => Some(Standard::SETUP_WITH),
            145 => Some(Standard::EXTENDED_ARG),
            146 => Some(Standard::SET_ADD),
            147 => Some(Standard::MAP_ADD),
            _ => None,
        }
    }

    /// The operation that each opcode performs.
    pub open spec fn operation(self) -> Mnemonic {
        match self {
            Standard::STOP_CODE => Mnemonic::STOP_CODE,
            Standard::POP_TOP => Mnemonic::POP_TOP,
            Standard::ROT_TWO => Mnemonic::ROT_TWO,
            Standard::ROT_THREE => Mnemonic::ROT_THREE,
            Standard::DUP_TOP => Mnemonic::DUP_TOP,
            Standard::DUP_TOP_TWO => Mnemonic::DUP_TOP_TWO,
            Standard::ROT_FOUR => Mnemonic::ROT_FOUR,
            Standard::NOP => Mnemonic::NOP,
            Standard::UNARY_POSITIVE => Mnemonic::UNARY_POSITIVE,
            Standard::UNARY_NEGATIVE => Mnemonic::UNARY_NEGATIVE,
            Standard::UNARY_NOT => Mnemonic::UNARY_NOT,
            Standard::UNARY_CONVERT => Mnemonic::UNARY_CONVERT,
            Standard::UNARY_INVERT => Mnemonic::UNARY_INVERT,
            Standard::BINARY_POWER => Mnemonic::BINARY_POWER,
            Standard::BINARY_MULTIPLY => Mnemonic::BINARY_MULTIPLY,
            Standard::BINARY_DIVIDE => Mnemonic::BINARY_DIVIDE,
            Standard::BINARY_MODULO => Mnemonic::BINARY_MODULO,
            Standard::BINARY_ADD => Mnemonic::BINARY_ADD,
            Standard::BINARY_SUBTRACT => Mnemonic::BINARY_SUBTRACT,
            Standard::BINARY_SUBSC => Mnemonic::BINARY_SUBSC,
            Standard::BINARY_FLOOR_DIVIDE => Mnemonic::BINARY_FLOOR_DIVIDE,
            Standard::BINARY_TRUE_DIVIDE => Mnemonic::BINARY_TRUE_DIVIDE,
            Standard::INPLACE_FLOOR_DIVIDE => Mnemonic::INPLACE_FLOOR_DIVIDE,
            Standard::INPLACE_TRUE_DIVIDE => Mnemonic::INPLACE_TRUE_DIVIDE,
            Standard::SLICE_0 => Mnemonic::SLICE_0,
            Standard::SLICE_1 => Mnemonic::SLICE_1,
            Standard::SLICE_2 => Mnemonic::SLICE_2,
            Standard::SLICE_3 => Mnemonic::SLICE_3,
            Standard::STORE_SLICE_0 => Mnemonic::STORE_SLICE_0,
            Standard::STORE_SLICE_1 => Mnemonic::STORE_SLICE_1,
            Standard::STORE_SLICE_2 => Mnemonic::STORE_SLICE_2,
            Standard::STORE_SLICE_3 => Mnemonic::STORE_SLICE_3,
            Standard::DELETE_SLICE_0 => Mnemonic::DELETE_SLICE_0,
            Standard::DELETE_SLICE_1 => Mnemonic::DELETE_SLICE_1,
            Standard::DELETE_SLICE_2 => Mnemonic::DELETE_SLICE_2,
            Standard::DELETE_SLICE_3 => Mnemonic::DELETE_SLICE_3,
            Standard::STORE_MAP => Mnemonic::STORE_MAP,
            Standard::INPLACE_ADD => Mnemonic::INPLACE_ADD,
            Standard::INPLACE_SUBTRACT => Mnemonic::INPLACE_SUBTRACT,
            Standard::INPLACE_MULTIPLY => Mnemonic::INPLACE_MULTIPLY,
            Standard::INPLACE_DIVIDE => Mnemonic::INPLACE_DIVIDE,
            Standard::INPLACE_MODULO => Mnemonic::INPLACE_MODULO,
            Standard::STORE_SUBSCR => Mnemonic::STORE_SUBSCR,
            Standard::DELETE_SUBSCR => Mnemonic::DELETE_SUBSCR,
            Standard::BINARY_LSHIFT => Mnemonic::BINARY_LSHIFT,
            Standard::BINARY_RSHIFT => Mnemonic::BINARY_RSHIFT,
            Standard::BINARY_AND => Mnemonic::BINARY_AND,
            Standard::BINARY_XOR => Mnemonic::BINARY_XOR,
            Standard::BINARY_OR => Mnemonic::BINARY_OR,
            Standard::INPLACE_POWER => Mnemonic::INPLACE_POWER,
            Standard::GET_ITER => Mnemonic::GET_ITER,
            Standard::PRINT_EXPR => Mnemonic::PRINT_EXPR,
            Standard::PRINT_ITEM => Mnemonic::PRINT_ITEM,
            Standard::PRINT_NEWLINE => Mnemonic::PRINT_NEWLINE,
            Standard::PRINT_ITEM_TO => Mnemonic::PRINT_ITEM_TO,
            Standard::PRINT_NEWLINE_TO => Mnemonic::PRINT_NEWLINE_TO,
            Standard::INPLACE_LSHIFT => Mnemonic::INPLACE_LSHIFT,
            Standard::INPLACE_RSHIFT => Mnemonic::INPLACE_RSHIFT,
            Standard::INPLACE_AND => Mnemonic::INPLACE_AND,
            Standard::INPLACE_XOR => Mnemonic::INPLACE_XOR,
            Standard::INPLACE_OR => Mnemonic::INPLACE_OR,
            Standard::BREAK_LOOP => Mnemonic::BREAK_LOOP,
            Standard::WITH_CLEANUP => Mnemonic::WITH_CLEANUP,
            Standard::LOAD_LOCALS => Mnemonic::LOAD_LOCALS,
            Standard::RETURN_VALUE => Mnemonic::RETURN_VALUE,
            Standard::IMPORT_STAR => Mnemonic::IMPORT_STAR,
            Standard::EXEC_STMT => Mnemonic::EXEC_STMT,
            Standard::YIELD_VALUE => Mnemonic::YIELD_VALUE,
            Standard::POP_BLOCK => Mnemonic::POP_BLOCK,
            Standard::END_FINALLY => Mnemonic::END_FINALLY,
            Standard::BUILD_CLASS => Mnemonic::BUILD_CLASS,
            Standard::STORE_NAME => Mnemonic::STORE_NAME,
            Standard::DELETE_NAME => Mnemonic::DELETE_NAME,
            Standard::UNPACK_SEQUENCE => Mnemonic::UNPACK_SEQUENCE,
            Standard::FOR_ITER => Mnemonic::FOR_ITER,
            Standard::LIST_APPEND => Mnemonic::LIST_APPEND,
            Standard::STORE_ATTR => Mnemonic::STORE_ATTR,
            Standard::DELETE_ATTR => Mnemonic::DELETE_ATTR,
            Standard::STORE_GLOBAL => Mnemonic::STORE_GLOBAL,
            Standard::DELETE_GLOBAL => Mnemonic::DELETE_GLOBAL,
            Standard::DUP_TOPX => Mnemonic::DUP_TOPX,
            Standard::LOAD_CONST => Mnemonic::LOAD_CONST,
            Standard::LOAD_NAME => Mnemonic::LOAD_NAME,
            Standard::BUILD_TUPLE => Mnemonic::BUILD_TUPLE,
            Standard::BUILD_LIST => Mnemonic::BUILD_LIST,
            Standard::BUILD_SET => Mnemonic::BUILD_SET,
            Standard::BUILD_MAP => Mnemonic::BUILD_MAP,
            Standard::LOAD_ATTR => Mnemonic::LOAD_ATTR,
            Standard::COMPARE_OP => Mnemonic::COMPARE_OP,
            Standard::IMPORT_NAME => Mnemonic::IMPORT_NAME,
            Standard::IMPORT_FROM => Mnemonic::IMPORT_FROM,
            Standard::JUMP_FORWARD => Mnemonic::JUMP_FORWARD,
            Standard::JUMP_IF_FALSE_OR_POP => Mnemonic::JUMP_IF_FALSE_OR_POP,
            Standard::JUMP_IF_TRUE_OR_POP => Mnemonic::JUMP_IF_TRUE_OR_POP,
            Standard::JUMP_ABSOLUTE => Mnemonic::JUMP_ABSOLUTE,
            Standard::POP_JUMP_IF_FALSE => Mnemonic::POP_JUMP_IF_FALSE,
            Standard::POP_JUMP_IF_TRUE => Mnemonic::POP_JUMP_IF_TRUE,
            Standard::LOAD_GLOBAL => Mnemonic::LOAD_GLOBAL,
            Standard::CONTINUE_LOOP => Mnemonic::CONTINUE_LOOP,
            Standard::SETUP_LOOP => Mnemonic::SETUP_LOOP,
            Standard::SETUP_EXCEPT => Mnemonic::SETUP_EXCEPT,
            Standard::SETUP_FINALLY => Mnemonic::SETUP_FINALLY,
            Standard::LOAD_FAST => Mnemonic::LOAD_FAST,
            Standard::STORE_FAST => Mnemonic::STORE_FAST,
            Standard::DELETE_FAST => Mnemonic::DELETE_FAST,
            Standard::RAISE_VARARGS => Mnemonic::RAISE_VARARGS,
            Standard::CALL_FUNCTION => Mnemonic::CALL_FUNCTION,
            Standard::MAKE_FUNCTION => Mnemonic::MAKE_FUNCTION,
            Standard::BUILD_SLICE => Mnemonic::BUILD_SLICE,
            Standard::MAKE_CLOSURE => Mnemonic::MAKE_CLOSURE,
            Standard::LOAD_CLOSURE => Mnemonic::LOAD_CLOSURE,
            Standard::LOAD_DEREF => Mnemonic::LOAD_DEREF,
            Standard::STORE_DEREF => Mnemonic::STORE_DEREF,
            Standard::CALL_FUNCTION_VAR => Mnemonic::CALL_FUNCTION_VAR,
            Standard::CALL_FUNCTION_KW => Mnemonic::CALL_FUNCTION_KW,
            Standard::CALL_FUNCTION_VAR_KW => Mnemonic::CALL_FUNCTION_VAR_KW,
            Standard::SETUP_WITH => Mnemonic::SETUP_WITH,
            Standard::EXTENDED_ARG => Mnemonic::EXTENDED_ARG,
            Standard::SET_ADD => Mnemonic::SET_ADD,
            Standard::MAP_ADD => Mnemonic::MAP_ADD,
        }
    }

    /// The opcode that performs each operation.
    pub open spec fn of_operation(m: Mnemonic) -> Standard {
        match m {
            Mnemonic::STOP_CODE => Standard::STOP_CODE,
            Mnemonic::POP_TOP => Standard::POP_TOP,
            Mnemonic::ROT_TWO => Standard::ROT_TWO,
            Mnemonic::ROT_THREE => Standard::ROT_THREE,
            Mnemonic::DUP_TOP => Standard::DUP_TOP,
            Mnemonic::DUP_TOP_TWO => Standard::DUP_TOP_TWO,
            Mnemonic::ROT_FOUR => Standard::ROT_FOUR,
            Mnemonic::NOP => Standard::NOP,
            Mnemonic::UNARY_POSITIVE => Standard::UNARY_POSITIVE,
            Mnemonic::UNARY_NEGATIVE => Standard::UNARY_NEGATIVE,
            Mnemonic::UNARY_NOT => Standard::UNARY_NOT,
            Mnemonic::UNARY_CONVERT => Standard::UNARY_CONVERT,
            Mnemonic::UNARY_INVERT => Standard::UNARY_INVERT,
            Mnemonic::BINARY_POWER => Standard::BINARY_POWER,
            Mnemonic::BINARY_MULTIPLY => Standard::BINARY_MULTIPLY,
            Mnemonic::BINARY_DIVIDE => Standard::BINARY_DIVIDE,
            Mnemonic::BINARY_MODULO => Standard::BINARY_MODULO,
            Mnemonic::BINARY_ADD => Standard::BINARY_ADD,
            Mnemonic::BINARY_SUBTRACT => Standard::BINARY_SUBTRACT,
            Mnemonic::BINARY_SUBSC => Standard::BINARY_SUBSC,
            Mnemonic::BINARY_FLOOR_DIVIDE => Standard::BINARY_FLOOR_DIVIDE,
            Mnemonic::BINARY_TRUE_DIVIDE => Standard::BINARY_TRUE_DIVIDE,
            Mnemonic::INPLACE_FLOOR_DIVIDE => Standard::INPLACE_FLOOR_DIVIDE,
            Mnemonic::INPLACE_TRUE_DIVIDE => Standard::INPLACE_TRUE_DIVIDE,
            Mnemonic::SLICE_0 => Standard::SLICE_0,
            Mnemonic::SLICE_1 => Standard::SLICE_1,
            Mnemonic::SLICE_2 => Standard::SLICE_2,
            Mnemonic::SLICE_3 => Standard::SLICE_3,
            Mnemonic::STORE_SLICE_0 => Standard::STORE_SLICE_0,
            Mnemonic::STORE_SLICE_1 => Standard::STORE_SLICE_1,
            Mnemonic::STORE_SLICE_2 => Standard::STORE_SLICE_2,
            Mnemonic::STORE_SLICE_3 => Standard::STORE_SLICE_3,
            Mnemonic::DELETE_SLICE_0 => Standard::DELETE_SLICE_0,
            Mnemonic::DELETE_SLICE_1 => Standard::DELETE_SLICE_1,
            Mnemonic::DELETE_SLICE_2 => Standard::DELETE_SLICE_2,
            Mnemonic::DELETE_SLICE_3 => Standard::DELETE_SLICE_3,
            Mnemonic::STORE_MAP => Standard::STORE_MAP,
            Mnemonic::INPLACE_ADD => Standard::INPLACE_ADD,
            Mnemonic::INPLACE_SUBTRACT => Standard::INPLACE_SUBTRACT,
            Mnemonic::INPLACE_MULTIPLY => Standard::INPLACE_MULTIPLY,
            Mnemonic::INPLACE_DIVIDE => Standard::INPLACE_DIVIDE,
            Mnemonic::INPLACE_MODULO => Standard::INPLACE_MODULO,
            Mnemonic::STORE_SUBSCR => Standard::STORE_SUBSCR,
            Mnemonic::DELETE_SUBSCR => Standard::DELETE_SUBSCR,
            Mnemonic::BINARY_LSHIFT => Standard::BINARY_LSHIFT,
            Mnemonic::BINARY_RSHIFT => Standard::BINARY_RSHIFT,
            Mnemonic::BINARY_AND => Standard::BINARY_AND,
            Mnemonic::BINARY_XOR => Standard::BINARY_XOR,
            Mnemonic::BINARY_OR => Standard::BINARY_OR,
            Mnemonic::INPLACE_POWER => Standard::INPLACE_POWER,
            Mnemonic::GET_ITER => Standard::GET_ITER,
            Mnemonic::PRINT_EXPR => Standard::PRINT_EXPR,
            Mnemonic::PRINT_ITEM => Standard::PRINT_ITEM,
            Mnemonic::PRINT_NEWLINE => Standard::PRINT_NEWLINE,
            Mnemonic::PRINT_ITEM_TO => Standard::PRINT_ITEM_TO,
            Mnemonic::PRINT_NEWLINE_TO => Standard::PRINT_NEWLINE_TO,
            Mnemonic::INPLACE_LSHIFT => Standard::INPLACE_LSHIFT,
            Mnemonic::INPLACE_RSHIFT => Standard::INPLACE_RSHIFT,
            Mnemonic::INPLACE_AND => Standard::INPLACE_AND,
            Mnemonic::INPLACE_XOR => Standard::INPLACE_XOR,
            Mnemonic::INPLACE_OR => Standard::INPLACE_OR,
            Mnemonic::BREAK_LOOP => Standard::BREAK_LOOP,
            Mnemonic::WITH_CLEANUP => Standard::WITH_CLEANUP,
            Mnemonic::LOAD_LOCALS => Standard::LOAD_LOCALS,
            Mnemonic::RETURN_VALUE => Standard::RETURN_VALUE,
            Mnemonic::IMPORT_STAR => Standard::IMPORT_STAR,
            Mnemonic::EXEC_STMT => Standard::EXEC_STMT,
            Mnemonic::YIELD_VALUE => Standard::YIELD_VALUE,
            Mnemonic::POP_BLOCK => Standard::POP_BLOCK,
            Mnemonic::END_FINALLY => Standard::END_FINALLY,
            Mnemonic::BUILD_CLASS => Standard::BUILD_CLASS,
            Mnemonic::STORE_NAME => Standard::STORE_NAME,
            Mnemonic::DELETE_NAME => Standard::DELETE_NAME,
            Mnemonic::UNPACK_SEQUENCE => Standard::UNPACK_SEQUENCE,
            Mnemonic::FOR_ITER => Standard::FOR_ITER,
            Mnemonic::LIST_APPEND => Standard::LIST_APPEND,
            Mnemonic::STORE_ATTR => Standard::STORE_ATTR,
            Mnemonic::DELETE_ATTR => Standard::DELETE_ATTR,
            Mnemonic::STORE_GLOBAL => Standard::STORE_GLOBAL,
            Mnemonic::DELETE_GLOBAL => Standard::DELETE_GLOBAL,
            Mnemonic::DUP_TOPX => Standard::DUP_TOPX,
            Mnemonic::LOAD_CONST => Standard::LOAD_CONST,
            Mnemonic::LOAD_NAME => Standard::LOAD_NAME,
            Mnemonic::BUILD_TUPLE => Standard::BUILD_TUPLE,
            Mnemonic::BUILD_LIST => Standard::BUILD_LIST,
            Mnemonic::BUILD_SET => Standard::BUILD_SET,
            Mnemonic::BUILD_MAP => Standard::BUILD_MAP,
            Mnemonic::LOAD_ATTR => Standard::LOAD_ATTR,
            Mnemonic::COMPARE_OP => Standard::COMPARE_OP,
            Mnemonic::IMPORT_NAME => Standard::IMPORT_NAME,
            Mnemonic::IMPORT_FROM => Standard::IMPORT_FROM,
            Mnemonic::JUMP_FORWARD => Standard::JUMP_FORWARD,
            Mnemonic::JUMP_IF_FALSE_OR_POP => Standard::JUMP_IF_FALSE_OR_POP,
            Mnemonic::JUMP_IF_TRUE_OR_POP => Standard::JUMP_IF_TRUE_OR_POP,
            Mnemonic::JUMP_ABSOLUTE => Standard::JUMP_ABSOLUTE,
            Mnemonic::POP_JUMP_IF_FALSE => Standard::POP_JUMP_IF_FALSE,
            Mnemonic::POP_JUMP_IF_TRUE => Standard::POP_JUMP_IF_TRUE,
            Mnemonic::LOAD_GLOBAL => Standard::LOAD_GLOBAL,
            Mnemonic::CONTINUE_LOOP => Standard::CONTINUE_LOOP,
            Mnemonic::SETUP_LOOP => Standard::SETUP_LOOP,
            Mnemonic::SETUP_EXCEPT => Standard::SETUP_EXCEPT,
            Mnemonic::SETUP_FINALLY => Standard::SETUP_FINALLY,
            Mnemonic::LOAD_FAST => Standard::LOAD_FAST,
            Mnemonic::STORE_FAST => Standard::STORE_FAST,
            Mnemonic::DELETE_FAST => Standard::DELETE_FAST,
            Mnemonic::RAISE_VARARGS => Standard::RAISE_VARARGS,
            Mnemonic::CALL_FUNCTION => Standard::CALL_FUNCTION,
            Mnemonic::MAKE_FUNCTION => Standard::MAKE_FUNCTION,
            Mnemonic::BUILD_SLICE => Standard::BUILD_SLICE,
            Mnemonic::MAKE_CLOSURE => Standard::MAKE_CLOSURE,
            Mnemonic::LOAD_CLOSURE => Standard::LOAD_CLOSURE,
            Mnemonic::LOAD_DEREF => Standard::LOAD_DEREF,
            Mnemonic::STORE_DEREF => Standard::STORE_DEREF,
            Mnemonic::CALL_FUNCTION_VAR => Standard::CALL_FUNCTION_VAR,
            Mnemonic::CALL_FUNCTION_KW => Standard::CALL_FUNCTION_KW,
            Mnemonic::CALL_FUNCTION_VAR_KW => Standard::CALL_FUNCTION_VAR_KW,
            Mnemonic::SETUP_WITH => Standard::SETUP_WITH,
            Mnemonic::EXTENDED_ARG => Standard::EXTENDED_ARG,
            Mnemonic::SET_ADD => Standard::SET_ADD,
            Mnemonic::MAP_ADD => Standard::MAP_ADD,
        }
    }
}

/// Each operation has exactly one standard opcode: going from an opcode to its
/// operation and back gives the opcode, and the other way round the operation.
pub proof fn lemma_operation_round_trip(o: Standard, m: Mnemonic)
    ensures
        Standard::of_operation(o.operation()) == o,
        Standard::of_operation(m).operation() == m,
{
}

/// Distinct standard opcodes perform distinct operations.
pub proof fn lemma_operation_injective(a: Standard, b: Standard)
    ensures
        a.operation() == b.operation() ==> a == b,
{
    lemma_operation_round_trip(a, a.operation());
    lemma_operation_round_trip(b, b.operation());
}

impl From<Mnemonic> for Standard {
    fn from(mnemonic: Mnemonic) -> (r: Self)
        ensures
            r == Standard::of_operation(mnemonic),
    {
        match mnemonic {
            Mnemonic::STOP_CODE => Self::STOP_CODE,
            Mnemonic::POP_TOP => Self::POP_TOP,
            Mnemonic::ROT_TWO => Self::ROT_TWO,
            Mnemonic::ROT_THREE => Self::ROT_THREE,
            Mnemonic::DUP_TOP => Self::DUP_TOP,
            Mnemonic::DUP_TOP_TWO => Self::DUP_TOP_TWO,
            Mnemonic::ROT_FOUR => Self::ROT_FOUR,
            Mnemonic::NOP => Self::NOP,
            Mnemonic::UNARY_POSITIVE => Self::UNARY_POSITIVE,
            Mnemonic::UNARY_NEGATIVE => Self::UNARY_NEGATIVE,
            Mnemonic::UNARY_NOT => Self::UNARY_NOT,
            Mnemonic::UNARY_CONVERT => Self::UNARY_CONVERT,
            Mnemonic::UNARY_INVERT => Self::UNARY_INVERT,
            Mnemonic::BINARY_POWER => Self::BINARY_POWER,
            Mnemonic::BINARY_MULTIPLY => Self::BINARY_MULTIPLY,
            Mnemonic::BINARY_DIVIDE => Self::BINARY_DIVIDE,
            Mnemonic::BINARY_MODULO => Self::BINARY_MODULO,
            Mnemonic::BINARY_ADD => Self::BINARY_ADD,
            Mnemonic::BINARY_SUBTRACT => Self::BINARY_SUBTRACT,
            Mnemonic::BINARY_SUBSC => Self::BINARY_SUBSC,
            Mnemonic::BINARY_FLOOR_DIVIDE => Self::BINARY_FLOOR_DIVIDE,
            Mnemonic::BINARY_TRUE_DIVIDE => Self::BINARY_TRUE_DIVIDE,
            Mnemonic::INPLACE_FLOOR_DIVIDE => Self::INPLACE_FLOOR_DIVIDE,
            Mnemonic::INPLACE_TRUE_DIVIDE => Self::INPLACE_TRUE_DIVIDE,
            Mnemonic::SLICE_0 => Self::SLICE_0,
            Mnemonic::SLICE_1 => Self::SLICE_1,
            Mnemonic::SLICE_2 => Self::SLICE_2,
            Mnemonic::SLICE_3 => Self::SLICE_3,
            Mnemonic::STORE_SLICE_0 => Self::STORE_SLICE_0,
            Mnemonic::STORE_SLICE_1 => Self::STORE_SLICE_1,
            Mnemonic::STORE_SLICE_2 => Self::STORE_SLICE_2,
            Mnemonic::STORE_SLICE_3 => Self::STORE_SLICE_3,
            Mnemonic::DELETE_SLICE_0 => Self::DELETE_SLICE_0,
            Mnemonic::DELETE_SLICE_1 => Self::DELETE_SLICE_1,
            Mnemonic::DELETE_SLICE_2 => Self::DELETE_SLICE_2,
            Mnemonic::DELETE_SLICE_3 => Self::DELETE_SLICE_3,
            Mnemonic::STORE_MAP => Self::STORE_MAP,
            Mnemonic::INPLACE_ADD => Self::INPLACE_ADD,
            Mnemonic::INPLACE_SUBTRACT => Self::INPLACE_SUBTRACT,
            Mnemonic::INPLACE_MULTIPLY => Self::INPLACE_MULTIPLY,
            Mnemonic::INPLACE_DIVIDE => Self::INPLACE_DIVIDE,
            Mnemonic::INPLACE_MODULO => Self::INPLACE_MODULO,
            Mnemonic::STORE_SUBSCR => Self::STORE_SUBSCR,
            Mnemonic::DELETE_SUBSCR => Self::DELETE_SUBSCR,
            Mnemonic::BINARY_LSHIFT => Self::BINARY_LSHIFT,
            Mnemonic::BINARY_RSHIFT => Self::BINARY_RSHIFT,
            Mnemonic::BINARY_AND => Self::BINARY_AND,
            Mnemonic::BINARY_XOR => Self::BINARY_XOR,
            Mnemonic::BINARY_OR => Self::BINARY_OR,
            Mnemonic::INPLACE_POWER => Self::INPLACE_POWER,
            Mnemonic::GET_ITER => Self::GET_ITER,
            Mnemonic::PRINT_EXPR => Self::PRINT_EXPR,
            Mnemonic::PRINT_ITEM => Self::PRINT_ITEM,
            Mnemonic::PRINT_NEWLINE => Self::PRINT_NEWLINE,
            Mnemonic::PRINT_ITEM_TO => Self::PRINT_ITEM_TO,
            Mnemonic::PRINT_NEWLINE_TO => Self::PRINT_NEWLINE_TO,
            Mnemonic::INPLACE_LSHIFT => Self::INPLACE_LSHIFT,
            Mnemonic::INPLACE_RSHIFT => Self::INPLACE_RSHIFT,
            Mnemonic::INPLACE_AND => Self::INPLACE_AND,
            Mnemonic::INPLACE_XOR => Self::INPLACE_XOR,
            Mnemonic::INPLACE_OR => Self::INPLACE_OR,
            Mnemonic::BREAK_LOOP => Self::BREAK_LOOP,
            Mnemonic::WITH_CLEANUP => Self::WITH_CLEANUP,
            Mnemonic::LOAD_LOCALS => Self::LOAD_LOCALS,
            Mnemonic::RETURN_VALUE => Self::RETURN_VALUE,
            Mnemonic::IMPORT_STAR => Self::IMPORT_STAR,
            Mnemonic::EXEC_STMT => Self::EXEC_STMT,
            Mnemonic::YIELD_VALUE => Self::YIELD_VALUE,
            Mnemonic::POP_BLOCK => Self::POP_BLOCK,
            Mnemonic::END_FINALLY => Self::END_FINALLY,
            Mnemonic::BUILD_CLASS => Self::BUILD_CLASS,
            Mnemonic::STORE_NAME => Self::STORE_NAME,
            Mnemonic::DELETE_NAME => Self::DELETE_NAME,
            Mnemonic::UNPACK_SEQUENCE => Self::UNPACK_SEQUENCE,
            Mnemonic::FOR_ITER => Self::FOR_ITER,
            Mnemonic::LIST_APPEND => Self::LIST_APPEND,
            Mnemonic::STORE_ATTR => Self::STORE_ATTR,
            Mnemonic::DELETE_ATTR => Self::DELETE_ATTR,
            Mnemonic::STORE_GLOBAL => Self::STORE_GLOBAL,
            Mnemonic::DELETE_GLOBAL => Self::DELETE_GLOBAL,
            Mnemonic::DUP_TOPX => Self::DUP_TOPX,
            Mnemonic::LOAD_CONST => Self::LOAD_CONST,
            Mnemonic::LOAD_NAME => Self::LOAD_NAME,
            Mnemonic::BUILD_TUPLE => Self::BUILD_TUPLE,
            Mnemonic::BUILD_LIST => Self::BUILD_LIST,
            Mnemonic::BUILD_SET => Self::BUILD_SET,
            Mnemonic::BUILD_MAP => Self::BUILD_MAP,
            Mnemonic::LOAD_ATTR => Self::LOAD_ATTR,
            Mnemonic::COMPARE_OP => Self::COMPARE_OP,
            Mnemonic::IMPORT_NAME => Self::IMPORT_NAME,
            Mnemonic::IMPORT_FROM => Self::IMPORT_FROM,
            Mnemonic::JUMP_FORWARD => Self::JUMP_FORWARD,
            Mnemonic::JUMP_IF_FALSE_OR_POP => Self::JUMP_IF_FALSE_OR_POP,
            Mnemonic::JUMP_IF_TRUE_OR_POP => Self::JUMP_IF_TRUE_OR_POP,
            Mnemonic::JUMP_ABSOLUTE => Self::JUMP_ABSOLUTE,
            Mnemonic::POP_JUMP_IF_FALSE => Self::POP_JUMP_IF_FALSE,
            Mnemonic::POP_JUMP_IF_TRUE => Self::POP_JUMP_IF_TRUE,
            Mnemonic::LOAD_GLOBAL => Self::LOAD_GLOBAL,
            Mnemonic::CONTINUE_LOOP => Self::CONTINUE_LOOP,
            Mnemonic::SETUP_LOOP => Self::SETUP_LOOP,
            Mnemonic::SETUP_EXCEPT => Self::SETUP_EXCEPT,
            Mnemonic::SETUP_FINALLY => Self::SETUP_FINALLY,
            Mnemonic::LOAD_FAST => Self::LOAD_FAST,
            Mnemonic::STORE_FAST => Self::STORE_FAST,
            Mnemonic::DELETE_FAST => Self::DELETE_FAST,
            Mnemonic::RAISE_VARARGS => Self::RAISE_VARARGS,
            Mnemonic::CALL_FUNCTION => Self::CALL_FUNCTION,
            Mnemonic::MAKE_FUNCTION => Self::MAKE_FUNCTION,
            Mnemonic::BUILD_SLICE => Self::BUILD_SLICE,
            Mnemonic::MAKE_CLOSURE => Self::MAKE_CLOSURE,
            Mnemonic::LOAD_CLOSURE => Self::LOAD_CLOSURE,
            Mnemonic::LOAD_DEREF => Self::LOAD_DEREF,
            Mnemonic::STORE_DEREF => Self::STORE_DEREF,
            Mnemonic::CALL_FUNCTION_VAR => Self::CALL_FUNCTION_VAR,
            Mnemonic::CALL_FUNCTION_KW => Self::CALL_FUNCTION_KW,
            Mnemonic::CALL_FUNCTION_VAR_KW => Self::CALL_FUNCTION_VAR_KW,
            Mnemonic::SETUP_WITH => Self::SETUP_WITH,
            Mnemonic::EXTENDED_ARG => Self::EXTENDED_ARG,
            Mnemonic::SET_ADD => Self::SET_ADD,
            Mnemonic::MAP_ADD => Self::MAP_ADD,
        }
    }
}

impl vstd::std_specs::convert::FromSpecImpl<Mnemonic> for Standard {
    open spec fn obeys_from_spec() -> bool {
        true
    }

    open spec fn from_spec(v: Mnemonic) -> Standard {
        Standard::of_operation(v)
    }
}

impl Opcode for Standard {
    open spec fn spec_to_u8(&self) -> u8 {
        self.byte()
    }

    open spec fn spec_from_u8(b: u8) -> Option<Self> {
        Standard::from_byte(b)
    }

    open spec fn spec_has_arg(&self) -> bool {
        self.byte() >= 90
    }

    open spec fn spec_has_extended_arg(&self) -> bool {
        self.byte() >= 144
    }

    open spec fn spec_has_const(&self) -> bool {
        *self == Standard::LOAD_CONST
    }

    open spec fn spec_has_comp(&self) -> bool {
        *self == Standard::COMPARE_OP
    }

    open spec fn spec_is_relative_jump(&self) -> bool {
        matches!(
            self,
            Standard::FOR_ITER
            | Standard::JUMP_FORWARD
            | Standard::SETUP_LOOP
            | Standard::SETUP_EXCEPT
            | Standard::SETUP_FINALLY
            | Standard::SETUP_WITH
        )
    }

    open spec fn spec_is_absolute_jump(&self) -> bool {
        matches!(
            self,
            Standard::JUMP_IF_FALSE_OR_POP
            | Standard::JUMP_IF_TRUE_OR_POP
            | Standard::JUMP_ABSOLUTE
            | Standard::POP_JUMP_IF_FALSE
            | Standard::POP_JUMP_IF_TRUE
            | Standard::CONTINUE_LOOP
        )
    }

    open spec fn spec_is_other_conditional_jump(&self) -> bool {
        matches!(
            self,
            Standard::FOR_ITER
            | Standard::SETUP_LOOP
            | Standard::SETUP_EXCEPT
            | Standard::SETUP_FINALLY
            | Standard::SETUP_WITH
        )
    }

    open spec fn spec_is_conditional_jump(&self) -> bool {
        matches!(
            self,
            Standard::JUMP_IF_FALSE_OR_POP
            | Standard::JUMP_IF_TRUE_OR_POP
            | Standard::POP_JUMP_IF_FALSE
            | Standard::POP_JUMP_IF_TRUE
        )
    }

    open spec fn spec_has_name(&self) -> bool {
        matches!(
            self,
            Standard::STORE_NAME
            | Standard::DELETE_NAME
            | Standard::STORE_ATTR
            | Standard::DELETE_ATTR
            | Standard::STORE_GLOBAL
            | Standard::DELETE_GLOBAL
            | Standard::LOAD_NAME
            | Standard::LOAD_ATTR
            | Standard::IMPORT_NAME
            | Standard::IMPORT_FROM
            | Standard::LOAD_GLOBAL
        )
    }

    open spec fn spec_has_local(&self) -> bool {
        matches!(self, Standard::LOAD_FAST | Standard::STORE_FAST | Standard::DELETE_FAST)
    }

    open spec fn spec_has_free(&self) -> bool {
        matches!(self, Standard::LOAD_CLOSURE | Standard::LOAD_DEREF | Standard::STORE_DEREF)
    }

    open spec fn spec_mnemonic(&self) -> Mnemonic {
        self.operation()
    }

    proof fn lemma_to_u8_from_u8(&self) {
    }

    proof fn lemma_from_u8_to_u8(b: u8) {
    }

    proof fn lemma_classification_disjoint(&self) {
    }

    proof fn lemma_jump_has_arg(&self) {
    }

    fn from_u8(b: u8) -> (r: Option<Self>) {
        match b {
            0 => Some(Standard::STOP_CODE),
            1 => Some(Standard::POP_TOP),
            2 => Some(Standard::ROT_TWO),
            3 => Some(Standard::ROT_THREE),
            4 => Some(Standard::DUP_TOP),
            5 => Some(Standard::DUP_TOP_TWO),
            6 => Some(Standard::ROT_FOUR),
            9 => Some(Standard::NOP),
            10 => Some(Standard::UNARY_POSITIVE),
            11 => Some(Standard::UNARY_NEGATIVE),
            12 => Some(Standard::UNARY_NOT),
            13 => Some(Standard::UNARY_CONVERT),
            15 => Some(Standard::UNARY_INVERT),
            19 => Some(Standard::BINARY_POWER),
            20 => Some(Standard::BINARY_MULTIPLY),
            21 => Some(Standard::BINARY_DIVIDE),
            22 => Some(Standard::BINARY_MODULO),
            23 => Some(Standard::BINARY_ADD),
            24 => Some(Standard::BINARY_SUBTRACT),
            25 => Some(Standard::BINARY_SUBSC),
            26 => Some(Standard::BINARY_FLOOR_DIVIDE),
            27 => Some(Standard::BINARY_TRUE_DIVIDE),
            28 => Some(Standard::INPLACE_FLOOR_DIVIDE),
            29 => Some(Standard::INPLACE_TRUE_DIVIDE),
            30 => Some(Standard::SLICE_0),
            31 => Some(Standard::SLICE_1),
            32 => Some(Standard::SLICE_2),
            33 => Some(Standard::SLICE_3),
            40 => Some(Standard::STORE_SLICE_0),
            41 => Some(Standard::STORE_SLICE_1),
            42 => Some(Standard::STORE_SLICE_2),
            43 => Some(Standard::STORE_SLICE_3),
            50 => Some(Standard::DELETE_SLICE_0),
            51 => Some(Standard::DELETE_SLICE_1),
            52 => Some(Standard::DELETE_SLICE_2),
            53 => Some(Standard::DELETE_SLICE_3),
            54 => Some(Standard::STORE_MAP),
            55 => Some(Standard::INPLACE_ADD),
            56 => Some(Standard::INPLACE_SUBTRACT),
            57 => Some(Standard::INPLACE_MULTIPLY),
            58 => Some(Standard::INPLACE_DIVIDE),
            59 => Some(Standard::INPLACE_MODULO),
            60 => Some(Standard::STORE_SUBSCR),
            61 => Some(Standard::DELETE_SUBSCR),
            62 => Some(Standard::BINARY_LSHIFT),
            63 => Some(Standard::BINARY_RSHIFT),
            64 => Some(Standard::BINARY_AND),
            65 => Some(Standard::BINARY_XOR),
            66 => Some(Standard::BINARY_OR),
            67 => Some(Standard::INPLACE_POWER),
            68 => Some(Standard::GET_ITER),
            70 => Some(Standard::PRINT_EXPR),
            71 => Some(Standard::PRINT_ITEM),
            72 => Some(Standard::PRINT_NEWLINE),
            73 => Some(Standard::PRINT_ITEM_TO),
            74 => Some(Standard::PRINT_NEWLINE_TO),
            75 => Some(Standard::INPLACE_LSHIFT),
            76 => Some(Standard::INPLACE_RSHIFT),
            77 => Some(Standard::INPLACE_AND),
            78 => Some(Standard::INPLACE_XOR),
            79 => Some(Standard::INPLACE_OR),
            80 => Some(Standard::BREAK_LOOP),
            81 => Some(Standard::WITH_CLEANUP),
            82 => Some(Standard::LOAD_LOCALS),
            83 => Some(Standard::RETURN_VALUE),
            84 => Some(Standard::IMPORT_STAR),
            85 => Some(Standard::EXEC_STMT),
            86 => Some(Standard::YIELD_VALUE),
            87 => Some(Standard::POP_BLOCK),
            88 => Some(Standard::END_FINALLY),
            89 => Some(Standard::BUILD_CLASS),
            90 => Some(Standard::STORE_NAME),
            91 => Some(Standard::DELETE_NAME),
            92 => Some(Standard::UNPACK_SEQUENCE),
            93 => Some(Standard::FOR_ITER),
            94 => Some(Standard::LIST_APPEND),
            95 => Some(Standard::STORE_ATTR),
            96 => Some(Standard::DELETE_ATTR),
            97 => Some(Standard::STORE_GLOBAL),
            98 => Some(Standard::DELETE_GLOBAL),
            99 => Some(Standard::DUP_TOPX),
            100 => Some(Standard::LOAD_CONST),
            101 => Some(Standard::LOAD_NAME),
            102 => Some(Standard::BUILD_TUPLE),
            103 => Some(Standard::BUILD_LIST),
            104 => Some(Standard::BUILD_SET),
            105 => Some(Standard::BUILD_MAP),
            106 => Some(Standard::LOAD_ATTR),
            107 => Some(Standard::COMPARE_OP),
            108 => Some(Standard::IMPORT_NAME),
            109 => Some(Standard::IMPORT_FROM),
            110 => Some(Standard::JUMP_FORWARD),
            111 => Some(Standard::JUMP_IF_FALSE_OR_POP),
            112 => Some(Standard::JUMP_IF_TRUE_OR_POP),
            113 => Some(Standard::JUMP_ABSOLUTE),
            114 => Some(Standard::POP_JUMP_IF_FALSE),
            115 => Some(Standard::POP_JUMP_IF_TRUE),
            116 => Some(Standard::LOAD_GLOBAL),
            119 => Some(Standard::CONTINUE_LOOP),
            120 => Some(Standard::SETUP_LOOP),
            121 => Some(Standard::SETUP_EXCEPT),
            122 => Some(Standard::SETUP_FINALLY),
            124 => Some(Standard::LOAD_FAST),
            125 => Some(Standard::STORE_FAST),
            126 => Some(Standard::DELETE_FAST),
            130 => Some(Standard::RAISE_VARARGS),
            131 => Some(Standard::CALL_FUNCTION),
            132 => Some(Standard::MAKE_FUNCTION),
            133 => Some(Standard::BUILD_SLICE),
            134 => Some(Standard::MAKE_CLOSURE),
            135 => Some(Standard::LOAD_CLOSURE),
            136 => Some(Standard::LOAD_DEREF),
            138 => Some(Standard::STORE_DEREF),
            140 => Some(Standard::CALL_FUNCTION_VAR),
            141 => Some(Standard::CALL_FUNCTION_KW),
            142 => Some(Standard::CALL_FUNCTION_VAR_KW),
            143 => Some(Standard::SETUP_WITH),
            145 => Some(Standard::EXTENDED_ARG),
            146 => Some(Standard::SET_ADD),
            147 => Some(Standard::MAP_ADD),
            _ => None,
        }
    }

    fn to_u8(&self) -> (r: u8) {
        match self {
            Standard::STOP_CODE => 0,
            Standard::POP_TOP => 1,
            Standard::ROT_TWO => 2,
            Standard::ROT_THREE => 3,
            Standard::DUP_TOP => 4,
            Standard::DUP_TOP_TWO => 5,
            Standard::ROT_FOUR => 6,
            Standard::NOP => 9,
            Standard::UNARY_POSITIVE => 10,
            Standard::UNARY_NEGATIVE => 11,
            Standard::UNARY_NOT => 12,
            Standard::UNARY_CONVERT => 13,
            Standard::UNARY_INVERT => 15,
            Standard::BINARY_POWER => 19,
            Standard::BINARY_MULTIPLY => 20,
            Standard::BINARY_DIVIDE => 21,
            Standard::BINARY_MODULO => 22,
            Standard::BINARY_ADD => 23,
            Standard::BINARY_SUBTRACT => 24,
            Standard::BINARY_SUBSC => 25,
            Standard::BINARY_FLOOR_DIVIDE => 26,
            Standard::BINARY_TRUE_DIVIDE => 27,
            Standard::INPLACE_FLOOR_DIVIDE => 28,
            Standard::INPLACE_TRUE_DIVIDE => 29,
            Standard::SLICE_0 => 30,
            Standard::SLICE_1 => 31,
            Standard::SLICE_2 => 32,
            Standard::SLICE_3 => 33,
            Standard::STORE_SLICE_0 => 40,
            Standard::STORE_SLICE_1 => 41,
            Standard::STORE_SLICE_2 => 42,
            Standard::STORE_SLICE_3 => 43,
            Standard::DELETE_SLICE_0 => 50,
            Standard::DELETE_SLICE_1 => 51,
            Standard::DELETE_SLICE_2 => 52,
            Standard::DELETE_SLICE_3 => 53,
            Standard::STORE_MAP => 54,
            Standard::INPLACE_ADD => 55,
            Standard::INPLACE_SUBTRACT => 56,
            Standard::INPLACE_MULTIPLY => 57,
            Standard::INPLACE_DIVIDE => 58,
            Standard::INPLACE_MODULO => 59,
            Standard::STORE_SUBSCR => 60,
            Standard::DELETE_SUBSCR => 61,
            Standard::BINARY_LSHIFT => 62,
            Standard::BINARY_RSHIFT => 63,
            Standard::BINARY_AND => 64,
            Standard::BINARY_XOR => 65,
            Standard::BINARY_OR => 66,
            Standard::INPLACE_POWER => 67,
            Standard::GET_ITER => 68,
            Standard::PRINT_EXPR => 70,
            Standard::PRINT_ITEM => 71,
            Standard::PRINT_NEWLINE => 72,
            Standard::PRINT_ITEM_TO => 73,
            Standard::PRINT_NEWLINE_TO => 74,
            Standard::INPLACE_LSHIFT => 75,
            Standard::INPLACE_RSHIFT => 76,
            Standard::INPLACE_AND => 77,
            Standard::INPLACE_XOR => 78,
            Standard::INPLACE_OR => 79,
            Standard::BREAK_LOOP => 80,
            Standard::WITH_CLEANUP => 81,
            Standard::LOAD_LOCALS => 82,
            Standard::RETURN_VALUE => 83,
            Standard::IMPORT_STAR => 84,
            Standard::EXEC_STMT => 85,
            Standard::YIELD_VALUE => 86,
            Standard::POP_BLOCK => 87,
            Standard::END_FINALLY => 88,
            Standard::BUILD_CLASS => 89,
            Standard::STORE_NAME => 90,
            Standard::DELETE_NAME => 91,
            Standard::UNPACK_SEQUENCE => 92,
            Standard::FOR_ITER => 93,
            Standard::LIST_APPEND => 94,
            Standard::STORE_ATTR => 95,
            Standard::DELETE_ATTR => 96,
            Standard::STORE_GLOBAL => 97,
            Standard::DELETE_GLOBAL => 98,
            Standard::DUP_TOPX => 99,
            Standard::LOAD_CONST => 100,
            Standard::LOAD_NAME => 101,
            Standard::BUILD_TUPLE => 102,
            Standard::BUILD_LIST => 103,
            Standard::BUILD_SET => 104,
            Standard::BUILD_MAP => 105,
            Standard::LOAD_ATTR => 106,
            Standard::COMPARE_OP => 107,
            Standard::IMPORT_NAME => 108,
            Standard::IMPORT_FROM => 109,
            Standard::JUMP_FORWARD => 110,
            Standard::JUMP_IF_FALSE_OR_POP => 111,
            Standard::JUMP_IF_TRUE_OR_POP => 112,
            Standard::JUMP_ABSOLUTE => 113,
            Standard::POP_JUMP_IF_FALSE => 114,
            Standard::POP_JUMP_IF_TRUE => 115,
            Standard::LOAD_GLOBAL => 116,
            Standard::CONTINUE_LOOP => 119,
            Standard::SETUP_LOOP => 120,
            Standard::SETUP_EXCEPT => 121,
            Standard::SETUP_FINALLY => 122,
            Standard::LOAD_FAST => 124,
            Standard::STORE_FAST => 125,
            Standard::DELETE_FAST => 126,
            Standard::RAISE_VARARGS => 130,
            Standard::CALL_FUNCTION => 131,
            Standard::MAKE_FUNCTION => 132,
            Standard::BUILD_SLICE => 133,
            Standard::MAKE_CLOSURE => 134,
            Standard::LOAD_CLOSURE => 135,
            Standard::LOAD_DEREF => 136,
            Standard::STORE_DEREF => 138,
            Standard::CALL_FUNCTION_VAR => 140,
            Standard::CALL_FUNCTION_KW => 141,
            Standard::CALL_FUNCTION_VAR_KW => 142,
            Standard::SETUP_WITH => 143,
            Standard::EXTENDED_ARG => 145,
            Standard::SET_ADD => 146,
            Standard::MAP_ADD => 147,
        }
    }

    fn has_arg(&self) -> (r: bool) {
        self.to_u8() >= 90
    }

    fn has_extended_arg(&self) -> (r: bool) {
        self.to_u8() >= 144
    }

    fn has_const(&self) -> (r: bool) {
        matches!(self, Standard::LOAD_CONST)
    }

    fn has_comp(&self) -> (r: bool) {
        matches!(self, Standard::COMPARE_OP)
    }

    fn is_relative_jump(&self) -> (r: bool) {
        matches!(
            self,
            Standard::FOR_ITER
            | Standard::JUMP_FORWARD
            | Standard::SETUP_LOOP
            | Standard::SETUP_EXCEPT
            | Standard::SETUP_FINALLY
            | Standard::SETUP_WITH
        )
    }

    fn is_absolute_jump(&self) -> (r: bool) {
        matches!(
            self,
            Standard::JUMP_IF_FALSE_OR_POP
            | Standard::JUMP_IF_TRUE_OR_POP
            | Standard::JUMP_ABSOLUTE
            | Standard::POP_JUMP_IF_FALSE
            | Standard::POP_JUMP_IF_TRUE
            | Standard::CONTINUE_LOOP
        )
    }

    fn is_other_conditional_jump(&self) -> (r: bool) {
        matches!(
            self,
            Standard::FOR_ITER
            | Standard::SETUP_LOOP
            | Standard::SETUP_EXCEPT
            | Standard::SETUP_FINALLY
            | Standard::SETUP_WITH
        )
    }

    fn is_conditional_jump(&self) -> (r: bool) {
        matches!(
            self,
            Standard::JUMP_IF_FALSE_OR_POP
            | Standard::JUMP_IF_TRUE_OR_POP
            | Standard::POP_JUMP_IF_FALSE
            | Standard::POP_JUMP_IF_TRUE
        )
    }

    fn has_name(&self) -> (r: bool) {
        matches!(
            self,
            Standard::STORE_NAME
            | Standard::DELETE_NAME
            | Standard::STORE_ATTR
            | Standard::DELETE_ATTR
            | Standard::STORE_GLOBAL
            | Standard::DELETE_GLOBAL
            | Standard::LOAD_NAME
            | Standard::LOAD_ATTR
            | Standard::IMPORT_NAME
            | Standard::IMPORT_FROM
            | Standard::LOAD_GLOBAL
        )
    }

    fn has_local(&self) -> (r: bool) {
        matches!(self, Standard::LOAD_FAST | Standard::STORE_FAST | Standard::DELETE_FAST)
    }

    fn has_free(&self) -> (r: bool) {
        matches!(self, Standard::LOAD_CLOSURE | Standard::LOAD_DEREF | Standard::STORE_DEREF)
    }

    fn mnemonic(&self) -> (r: Mnemonic) {
        match self {
            Standard::STOP_CODE => Mnemonic::STOP_CODE,
            Standard::POP_TOP => Mnemonic::POP_TOP,
            Standard::ROT_TWO => Mnemonic::ROT_TWO,
            Standard::ROT_THREE => Mnemonic::ROT_THREE,
            Standard::DUP_TOP => Mnemonic::DUP_TOP,
            Standard::DUP_TOP_TWO => Mnemonic::DUP_TOP_TWO,
            Standard::ROT_FOUR => Mnemonic::ROT_FOUR,
            Standard::NOP => Mnemonic::NOP,
            Standard::UNARY_POSITIVE => Mnemonic::UNARY_POSITIVE,
            Standard::UNARY_NEGATIVE => Mnemonic::UNARY_NEGATIVE,
            Standard::UNARY_NOT => Mnemonic::UNARY_NOT,
            Standard::UNARY_CONVERT => Mnemonic::UNARY_CONVERT,
            Standard::UNARY_INVERT => Mnemonic::UNARY_INVERT,
            Standard::BINARY_POWER => Mnemonic::BINARY_POWER,
            Standard::BINARY_MULTIPLY => Mnemonic::BINARY_MULTIPLY,
            Standard::BINARY_DIVIDE => Mnemonic::BINARY_DIVIDE,
            Standard::BINARY_MODULO => Mnemonic::BINARY_MODULO,
            Standard::BINARY_ADD => Mnemonic::BINARY_ADD,
            Standard::BINARY_SUBTRACT => Mnemonic::BINARY_SUBTRACT,
            Standard::BINARY_SUBSC => Mnemonic::BINARY_SUBSC,
            Standard::BINARY_FLOOR_DIVIDE => Mnemonic::BINARY_FLOOR_DIVIDE,
            Standard::BINARY_TRUE_DIVIDE => Mnemonic::BINARY_TRUE_DIVIDE,
            Standard::INPLACE_FLOOR_DIVIDE => Mnemonic::INPLACE_FLOOR_DIVIDE,
            Standard::INPLACE_TRUE_DIVIDE => Mnemonic::INPLACE_TRUE_DIVIDE,
            Standard::SLICE_0 => Mnemonic::SLICE_0,
            Standard::SLICE_1 => Mnemonic::SLICE_1,
            Standard::SLICE_2 => Mnemonic::SLICE_2,
            Standard::SLICE_3 => Mnemonic::SLICE_3,
            Standard::STORE_SLICE_0 => Mnemonic::STORE_SLICE_0,
            Standard::STORE_SLICE_1 => Mnemonic::STORE_SLICE_1,
            Standard::STORE_SLICE_2 => Mnemonic::STORE_SLICE_2,
            Standard::STORE_SLICE_3 => Mnemonic::STORE_SLICE_3,
            Standard::DELETE_SLICE_0 => Mnemonic::DELETE_SLICE_0,
            Standard::DELETE_SLICE_1 => Mnemonic::DELETE_SLICE_1,
            Standard::DELETE_SLICE_2 => Mnemonic::DELETE_SLICE_2,
            Standard::DELETE_SLICE_3 => Mnemonic::DELETE_SLICE_3,
            Standard::STORE_MAP => Mnemonic::STORE_MAP,
            Standard::INPLACE_ADD => Mnemonic::INPLACE_ADD,
            Standard::INPLACE_SUBTRACT => Mnemonic::INPLACE_SUBTRACT,
            Standard::INPLACE_MULTIPLY => Mnemonic::INPLACE_MULTIPLY,
            Standard::INPLACE_DIVIDE => Mnemonic::INPLACE_DIVIDE,
            Standard::INPLACE_MODULO => Mnemonic::INPLACE_MODULO,
            Standard::STORE_SUBSCR => Mnemonic::STORE_SUBSCR,
            Standard::DELETE_SUBSCR => Mnemonic::DELETE_SUBSCR,
            Standard::BINARY_LSHIFT => Mnemonic::BINARY_LSHIFT,
            Standard::BINARY_RSHIFT => Mnemonic::BINARY_RSHIFT,
            Standard::BINARY_AND => Mnemonic::BINARY_AND,
            Standard::BINARY_XOR => Mnemonic::BINARY_XOR,
            Standard::BINARY_OR => Mnemonic::BINARY_OR,
            Standard::INPLACE_POWER => Mnemonic::INPLACE_POWER,
            Standard::GET_ITER => Mnemonic::GET_ITER,
            Standard::PRINT_EXPR => Mnemonic::PRINT_EXPR,
            Standard::PRINT_ITEM => Mnemonic::PRINT_ITEM,
            Standard::PRINT_NEWLINE => Mnemonic::PRINT_NEWLINE,
            Standard::PRINT_ITEM_TO => Mnemonic::PRINT_ITEM_TO,
            Standard::PRINT_NEWLINE_TO => Mnemonic::PRINT_NEWLINE_TO,
            Standard::INPLACE_LSHIFT => Mnemonic::INPLACE_LSHIFT,
            Standard::INPLACE_RSHIFT => Mnemonic::INPLACE_RSHIFT,
            Standard::INPLACE_AND => Mnemonic::INPLACE_AND,
            Standard::INPLACE_XOR => Mnemonic::INPLACE_XOR,
            Standard::INPLACE_OR => Mnemonic::INPLACE_OR,
            Standard::BREAK_LOOP => Mnemonic::BREAK_LOOP,
            Standard::WITH_CLEANUP => Mnemonic::WITH_CLEANUP,
            Standard::LOAD_LOCALS => Mnemonic::LOAD_LOCALS,
            Standard::RETURN_VALUE => Mnemonic::RETURN_VALUE,
            Standard::IMPORT_STAR => Mnemonic::IMPORT_STAR,
            Standard::EXEC_STMT => Mnemonic::EXEC_STMT,
            Standard::YIELD_VALUE => Mnemonic::YIELD_VALUE,
            Standard::POP_BLOCK => Mnemonic::POP_BLOCK,
            Standard::END_FINALLY => Mnemonic::END_FINALLY,
            Standard::BUILD_CLASS => Mnemonic::BUILD_CLASS,
            Standard::STORE_NAME => Mnemonic::STORE_NAME,
            Standard::DELETE_NAME => Mnemonic::DELETE_NAME,
            Standard::UNPACK_SEQUENCE => Mnemonic::UNPACK_SEQUENCE,
            Standard::FOR_ITER => Mnemonic::FOR_ITER,
            Standard::LIST_APPEND => Mnemonic::LIST_APPEND,
            Standard::STORE_ATTR => Mnemonic::STORE_ATTR,
            Standard::DELETE_ATTR => Mnemonic::DELETE_ATTR,
            Standard::STORE_GLOBAL => Mnemonic::STORE_GLOBAL,
            Standard::DELETE_GLOBAL => Mnemonic::DELETE_GLOBAL,
            Standard::DUP_TOPX => Mnemonic::DUP_TOPX,
            Standard::LOAD_CONST => Mnemonic::LOAD_CONST,
            Standard::LOAD_NAME => Mnemonic::LOAD_NAME,
            Standard::BUILD_TUPLE => Mnemonic::BUILD_TUPLE,
            Standard::BUILD_LIST => Mnemonic::BUILD_LIST,
            Standard::BUILD_SET => Mnemonic::BUILD_SET,
            Standard::BUILD_MAP => Mnemonic::BUILD_MAP,
            Standard::LOAD_ATTR => Mnemonic::LOAD_ATTR,
            Standard::COMPARE_OP => Mnemonic::COMPARE_OP,
            Standard::IMPORT_NAME => Mnemonic::IMPORT_NAME,
            Standard::IMPORT_FROM => Mnemonic::IMPORT_FROM,
            Standard::JUMP_FORWARD => Mnemonic::JUMP_FORWARD,
            Standard::JUMP_IF_FALSE_OR_POP => Mnemonic::JUMP_IF_FALSE_OR_POP,
            Standard::JUMP_IF_TRUE_OR_POP => Mnemonic::JUMP_IF_TRUE_OR_POP,
            Standard::JUMP_ABSOLUTE => Mnemonic::JUMP_ABSOLUTE,
            Standard::POP_JUMP_IF_FALSE => Mnemonic::POP_JUMP_IF_FALSE,
            Standard::POP_JUMP_IF_TRUE => Mnemonic::POP_JUMP_IF_TRUE,
            Standard::LOAD_GLOBAL => Mnemonic::LOAD_GLOBAL,
            Standard::CONTINUE_LOOP => Mnemonic::CONTINUE_LOOP,
            Standard::SETUP_LOOP => Mnemonic::SETUP_LOOP,
            Standard::SETUP_EXCEPT => Mnemonic::SETUP_EXCEPT,
            Standard::SETUP_FINALLY => Mnemonic::SETUP_FINALLY,
            Standard::LOAD_FAST => Mnemonic::LOAD_FAST,
            Standard::STORE_FAST => Mnemonic::STORE_FAST,
            Standard::DELETE_FAST => Mnemonic::DELETE_FAST,
            Standard::RAISE_VARARGS => Mnemonic::RAISE_VARARGS,
            Standard::CALL_FUNCTION => Mnemonic::CALL_FUNCTION,
            Standard::MAKE_FUNCTION => Mnemonic::MAKE_FUNCTION,
            Standard::BUILD_SLICE => Mnemonic::BUILD_SLICE,
            Standard::MAKE_CLOSURE => Mnemonic::MAKE_CLOSURE,
            Standard::LOAD_CLOSURE => Mnemonic::LOAD_CLOSURE,
            Standard::LOAD_DEREF => Mnemonic::LOAD_DEREF,
            Standard::STORE_DEREF => Mnemonic::STORE_DEREF,
            Standard::CALL_FUNCTION_VAR => Mnemonic::CALL_FUNCTION_VAR,
            Standard::CALL_FUNCTION_KW => Mnemonic::CALL_FUNCTION_KW,
            Standard::CALL_FUNCTION_VAR_KW => Mnemonic::CALL_FUNCTION_VAR_KW,
            Standard::SETUP_WITH => Mnemonic::SETUP_WITH,
            Standard::EXTENDED_ARG => Mnemonic::EXTENDED_ARG,
            Standard::SET_ADD => Mnemonic::SET_ADD,
            Standard::MAP_ADD => Mnemonic::MAP_ADD,
        }
    }
}

} // verus!
