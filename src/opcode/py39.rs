use vstd::prelude::*;

verus! {

/// The opcode numbering of the 3.9 virtual machine, for the operations it
/// lists. It classifies bytes and opcodes; its operations are not mapped to
/// the mnemonic catalog, whose stack effects follow the 2.7 machine.
#[allow(non_camel_case_types)]
#[derive(Debug, Copy, Clone, PartialEq, Eq, Structural, PartialOrd, Ord, Hash)]
pub enum Opcode {
    POP_TOP,
    ROT_TWO,
    ROT_THREE,
    DUP_TOP,
    DUP_TOP_TWO,
    ROT_FOUR,
    NOP,
    UNARY_POSITIVE,
    UNARY_NEGATIVE,
    UNARY_NOT,
    UNARY_INVERT,
    BINARY_MATRIX_MULTIPLY,
    INPLACE_MATRIX_MULTIPLY,
    BINARY_POWER,
    BINARY_MULTIPLY,
    BINARY_MODULO,
    BINARY_ADD,
    BINARY_SUBTRACT,
    BINARY_SUBSC,
    BINARY_FLOOR_DIVIDE,
    BINARY_TRUE_DIVIDE,
    INPLACE_FLOOR_DIVIDE,
    INPLACE_TRUE_DIVIDE,
    RERAISE,
    WITH_EXCEPT_START,
    GET_AITER,
    GET_ANEXT,
    BEFORE_ASYNC_WITH,
    END_ASYNC_FOR,
    INPLACE_ADD,
    INPLACE_SUBTRACT,
    INPLACE_MULTIPLY,
    INPLACE_MODULO,
    STORE_SUBSCR,
    DELETE_SUBSCR,
    BINARY_LSHIFT,
    BINARY_RSHIFT,
    BINARY_AND,
    BINARY_XOR,
    BINARY_OR,
    INPLACE_POWER,
    GET_ITER,
    GET_YIELD_FROM_ITER,
    PRINT_EXPR,
    LOAD_BUILD_CLASS,
    YIELD_FROM,
    GET_AWAITABLE,
    LOAD_ASSERTION_ERROR,
    INPLACE_LSHIFT,
    INPLACE_RSHIFT,
    INPLACE_AND,
    INPLACE_XOR,
    INPLACE_OR,
    LIST_TO_TUPLE,
    RETURN_VALUE,
    IMPORT_STAR,
    SETUP_ANNOTATIONS,
    YIELD_VALUE,
    POP_BLOCK,
    POP_EXCEPT,
    STORE_NAME,
    DELETE_NAME,
    UNPACK_SEQUENCE,
    FOR_ITER,
    UNPACK_EX,
    STORE_ATTR,
    DELETE_ATTR,
    STORE_GLOBAL,
    DELETE_GLOBAL,
    LOAD_CONST,
    LOAD_NAME,
    BUILD_TUPLE,
    BUILD_SET,
    BUILD_MAP,
    LOAD_ATTR,
    COMPARE_OP,
    IMPORT_NAME,
    IMPORT_FROM,
    JUMP_FORWARD,
    JUMP_IF_FALSE_OR_POP,
    JUMP_IF_TRUE_OR_POP,
    JUMP_ABSOLUTE,
    POP_JUMP_IF_FALSE,
    POP_JUMP_IF_TRUE,
    LOAD_GLOBAL,
    IS_OP,
    CONTAINS_OP,
    JUMP_IF_NOT_EXC_MATCH,
    SETUP_FINALLY,
    LOAD_FAST,
    STORE_FAST,
    DELETE_FAST,
    RAISE_VARARGS,
    CALL_FUNCTION,
    MAKE_FUNCTION,
    BUILD_SLICE,
    LOAD_CLOSURE,
    LOAD_DEREF,
    STORE_DEREF,
    CALL_FUNCTION_KW,
    CALL_FUNCTION_EX,
    SETUP_WITH,
    LIST_APPEND,
    SET_ADD,
    MAP_ADD,
}

impl Opcode {
    /// The byte that encodes each opcode.
    pub open spec fn byte(self) -> u8 {
        match self {
            Opcode::POP_TOP => 1,
            Opcode::ROT_TWO => 2,
            Opcode::ROT_THREE => 3,
            Opcode::DUP_TOP => 4,
            Opcode::DUP_TOP_TWO => 5,
            Opcode::ROT_FOUR => 6,
            Opcode::NOP => 9,
            Opcode::UNARY_POSITIVE => 10,
            Opcode::UNARY_NEGATIVE => 11,
            Opcode::UNARY_NOT => 12,
            Opcode::UNARY_INVERT => 15,
            Opcode::BINARY_MATRIX_MULTIPLY => 16,
            Opcode::INPLACE_MATRIX_MULTIPLY => 17,
            Opcode::BINARY_POWER => 19,
            Opcode::BINARY_MULTIPLY => 20,
            Opcode::BINARY_MODULO => 22,
            Opcode::BINARY_ADD => 23,
            Opcode::BINARY_SUBTRACT => 24,
            Opcode::BINARY_SUBSC => 25,
            Opcode::BINARY_FLOOR_DIVIDE => 26,
            Opcode::BINARY_TRUE_DIVIDE => 27,
            Opcode::INPLACE_FLOOR_DIVIDE => 28,
            Opcode::INPLACE_TRUE_DIVIDE => 29,
            Opcode::RERAISE => 48,
            Opcode::WITH_EXCEPT_START => 49,
            Opcode::GET_AITER => 50,
            Opcode::GET_ANEXT => 51,
            Opcode::BEFORE_ASYNC_WITH => 52,
            Opcode::END_ASYNC_FOR => 54,
            Opcode::INPLACE_ADD => 55,
            Opcode::INPLACE_SUBTRACT => 56,
            Opcode::INPLACE_MULTIPLY => 57,
            Opcode::INPLACE_MODULO => 59,
            Opcode::STORE_SUBSCR => 60,
            Opcode::DELETE_SUBSCR => 61,
            Opcode::BINARY_LSHIFT => 62,
            Opcode::BINARY_RSHIFT => 63,
            Opcode::BINARY_AND => 64,
            Opcode::BINARY_XOR => 65,
            Opcode::BINARY_OR => 66,
            Opcode::INPLACE_POWER => 67,
            Opcode::GET_ITER => 68,
            Opcode::GET_YIELD_FROM_ITER => 69,
            Opcode::PRINT_EXPR => 70,
            Opcode::LOAD_BUILD_CLASS => 71,
            Opcode::YIELD_FROM => 72,
            Opcode::GET_AWAITABLE => 73,
            Opcode::LOAD_ASSERTION_ERROR => 74,
            Opcode::INPLACE_LSHIFT => 75,
            Opcode::INPLACE_RSHIFT => 76,
            Opcode::INPLACE_AND => 77,
            Opcode::INPLACE_XOR => 78,
            Opcode::INPLACE_OR => 79,
            Opcode::LIST_TO_TUPLE => 82,
            Opcode::RETURN_VALUE => 83,
            Opcode::IMPORT_STAR => 84,
            Opcode::SETUP_ANNOTATIONS => 85,
            Opcode::YIELD_VALUE => 86,
            Opcode::POP_BLOCK => 87,
            Opcode::POP_EXCEPT => 89,
            Opcode::STORE_NAME => 90,
            Opcode::DELETE_NAME => 91,
            Opcode::UNPACK_SEQUENCE => 92,
            Opcode::FOR_ITER => 93,
            Opcode::UNPACK_EX => 94,
            Opcode::STORE_ATTR => 95,
            Opcode::DELETE_ATTR => 96,
            Opcode::STORE_GLOBAL => 97,
            Opcode::DELETE_GLOBAL => 98,
            Opcode::LOAD_CONST => 100,
            Opcode::LOAD_NAME => 101,
            Opcode::BUILD_TUPLE => 102,
            Opcode::BUILD_SET => 104,
            Opcode::BUILD_MAP => 105,
            Opcode::LOAD_ATTR => 106,
            Opcode::COMPARE_OP => 107,
            Opcode::IMPORT_NAME => 108,
            Opcode::IMPORT_FROM => 109,
            Opcode::JUMP_FORWARD => 110,
            Opcode::JUMP_IF_FALSE_OR_POP => 111,
            Opcode::JUMP_IF_TRUE_OR_POP => 112,
            Opcode::JUMP_ABSOLUTE => 113,
            Opcode::POP_JUMP_IF_FALSE => 114,
            Opcode::POP_JUMP_IF_TRUE => 115,
            Opcode::LOAD_GLOBAL => 116,
            Opcode::IS_OP => 117,
            Opcode::CONTAINS_OP => 118,
            Opcode::JUMP_IF_NOT_EXC_MATCH => 121,
            Opcode::SETUP_FINALLY => 122,
            Opcode::LOAD_FAST => 124,
            Opcode::STORE_FAST => 125,
            Opcode::DELETE_FAST => 126,
            Opcode::RAISE_VARARGS => 130,
            Opcode::CALL_FUNCTION => 131,
            Opcode::MAKE_FUNCTION => 132,
            Opcode::BUILD_SLICE => 133,
            Opcode::LOAD_CLOSURE => 135,
            Opcode::LOAD_DEREF => 136,
            Opcode::STORE_DEREF => 138,
            Opcode::CALL_FUNCTION_KW => 141,
            Opcode::CALL_FUNCTION_EX => 142,
            Opcode::SETUP_WITH => 143,
            Opcode::LIST_APPEND => 145,
            Opcode::SET_ADD => 146,
            Opcode::MAP_ADD => 147,
        }
    }

    /// The opcode that each assigned byte encodes.
    pub open spec fn from_byte(b: u8) -> Option<Opcode> {
        match b {
            1 => Some(Opcode::POP_TOP),
            2 => Some(Opcode::ROT_TWO),
            3 => Some(Opcode::ROT_THREE),
            4 => Some(Opcode::DUP_TOP),
            5 => Some(Opcode::DUP_TOP_TWO),
            6 => Some(Opcode::ROT_FOUR),
            9 => Some(Opcode::NOP),
            10 => Some(Opcode::UNARY_POSITIVE),
            11 => Some(Opcode::UNARY_NEGATIVE),
            12 => Some(Opcode::UNARY_NOT),
            15 => Some(Opcode::UNARY_INVERT),
            16 => Some(Opcode::BINARY_MATRIX_MULTIPLY),
            17 => Some(Opcode::INPLACE_MATRIX_MULTIPLY),
            19 => Some(Opcode::BINARY_POWER),
            20 => Some(Opcode::BINARY_MULTIPLY),
            22 => Some(Opcode::BINARY_MODULO),
            23 => Some(Opcode::BINARY_ADD),
            24 => Some(Opcode::BINARY_SUBTRACT),
            25 => Some(Opcode::BINARY_SUBSC),
            26 => Some(Opcode::BINARY_FLOOR_DIVIDE),
            27 => Some(Opcode::BINARY_TRUE_DIVIDE),
            28 => Some(Opcode::INPLACE_FLOOR_DIVIDE),
            29 => Some(Opcode::INPLACE_TRUE_DIVIDE),
            48 => Some(Opcode::RERAISE),
            49 => Some(Opcode::WITH_EXCEPT_START),
            50 => Some(Opcode::GET_AITER),
            51 => Some(Opcode::GET_ANEXT),
            52 => Some(Opcode::BEFORE_ASYNC_WITH),
            54 => Some(Opcode::END_ASYNC_FOR),
            55 => Some(Opcode::INPLACE_ADD),
            56 => Some(Opcode::INPLACE_SUBTRACT),
            57 => Some(Opcode::INPLACE_MULTIPLY),
            59 => Some(Opcode::INPLACE_MODULO),
            60 => Some(Opcode::STORE_SUBSCR),
            61 => Some(Opcode::DELETE_SUBSCR),
            62 => Some(Opcode::BINARY_LSHIFT),
            63 => Some(Opcode::BINARY_RSHIFT),
            64 => Some(Opcode::BINARY_AND),
            65 => Some(Opcode::BINARY_XOR),
            66 => Some(Opcode::BINARY_OR),
            67 => Some(Opcode::INPLACE_POWER),
            68 => Some(Opcode::GET_ITER),
            69 => Some(Opcode::GET_YIELD_FROM_ITER),
            70 => Some(Opcode::PRINT_EXPR),
            71 => Some(Opcode::LOAD_BUILD_CLASS),
            72 => Some(Opcode::YIELD_FROM),
            73 => Some(Opcode::GET_AWAITABLE),
            74 => Some(Opcode::LOAD_ASSERTION_ERROR),
            75 => Some(Opcode::INPLACE_LSHIFT),
            76 => Some(Opcode::INPLACE_RSHIFT),
            77 => Some(Opcode::INPLACE_AND),
            78 => Some(Opcode::INPLACE_XOR),
            79 => Some(Opcode::INPLACE_OR),
            82 => Some(Opcode::LIST_TO_TUPLE),
            83 => Some(Opcode::RETURN_VALUE),
            84 => Some(Opcode::IMPORT_STAR),
            85 => Some(Opcode::SETUP_ANNOTATIONS),
            86 => Some(Opcode::YIELD_VALUE),
            87 => Some(Opcode::POP_BLOCK),
            89 => Some(Opcode::POP_EXCEPT),
            90 => Some(Opcode::STORE_NAME),
            91 => Some(Opcode::DELETE_NAME),
            92 => Some(Opcode::UNPACK_SEQUENCE),
            93 => Some(Opcode::FOR_ITER),
            94 => Some(Opcode::UNPACK_EX),
            95 => Some(Opcode::STORE_ATTR),
            96 => Some(Opcode::DELETE_ATTR),
            97 => Some(Opcode::STORE_GLOBAL),
            98 => Some(Opcode::DELETE_GLOBAL),
            100 => Some(Opcode::LOAD_CONST),
            101 => Some(Opcode::LOAD_NAME),
            102 => Some(Opcode::BUILD_TUPLE),
            104 => Some(Opcode::BUILD_SET),
            105 => Some(Opcode::BUILD_MAP),
            106 => Some(Opcode::LOAD_ATTR),
            107 => Some(Opcode::COMPARE_OP),
            108 => Some(Opcode::IMPORT_NAME),
            109 => Some(Opcode::IMPORT_FROM),
            110 => Some(Opcode::JUMP_FORWARD),
            111 => Some(Opcode::JUMP_IF_FALSE_OR_POP),
            112 => Some(Opcode::JUMP_IF_TRUE_OR_POP),
            113 => Some(Opcode::JUMP_ABSOLUTE),
            114 => Some(Opcode::POP_JUMP_IF_FALSE),
            115 => Some(Opcode::POP_JUMP_IF_TRUE),
            116 => Some(Opcode::LOAD_GLOBAL),
            117 => Some(Opcode::IS_OP),
            118 => Some(Opcode::CONTAINS_OP),
            121 => Some(Opcode::JUMP_IF_NOT_EXC_MATCH),
            122 => Some(Opcode::SETUP_FINALLY),
            124 => Some(Opcode::LOAD_FAST),
            125 => Some(Opcode::STORE_FAST),
            126 => Some(Opcode::DELETE_FAST),
            130 => Some(Opcode::RAISE_VARARGS),
            131 => Some(Opcode::CALL_FUNCTION),
            132 => Some(Opcode::MAKE_FUNCTION),
            133 => Some(Opcode::BUILD_SLICE),
            135 => Some(Opcode::LOAD_CLOSURE),
            136 => Some(Opcode::LOAD_DEREF),
            138 => Some(Opcode::STORE_DEREF),
            141 => Some(Opcode::CALL_FUNCTION_KW),
            142 => Some(Opcode::CALL_FUNCTION_EX),
            143 => Some(Opcode::SETUP_WITH),
            145 => Some(Opcode::LIST_APPEND),
            146 => Some(Opcode::SET_ADD),
            147 => Some(Opcode::MAP_ADD),
            _ => None,
        }
    }

    pub open spec fn spec_has_arg(self) -> bool {
        self.byte() >= 90
    }

    pub open spec fn spec_has_extended_arg(self) -> bool {
        self.byte() >= 144
    }

    pub open spec fn spec_has_const(self) -> bool {
        matches!(self, Opcode::LOAD_CONST)
    }

    pub open spec fn spec_has_comp(self) -> bool {
        matches!(self, Opcode::COMPARE_OP)
    }

    pub open spec fn spec_is_relative_jump(self) -> bool {
        matches!(
            self,
            Opcode::FOR_ITER
            | Opcode::JUMP_FORWARD
            | Opcode::SETUP_FINALLY
            | Opcode::SETUP_WITH
        )
    }

    pub open spec fn spec_is_absolute_jump(self) -> bool {
        matches!(
            self,
            Opcode::JUMP_IF_FALSE_OR_POP
            | Opcode::JUMP_IF_TRUE_OR_POP
            | Opcode::JUMP_ABSOLUTE
            | Opcode::POP_JUMP_IF_FALSE
            | Opcode::POP_JUMP_IF_TRUE
            | Opcode::JUMP_IF_NOT_EXC_MATCH
        )
    }

    pub open spec fn spec_has_name(self) -> bool {
        matches!(
            self,
            Opcode::STORE_NAME
            | Opcode::DELETE_NAME
            | Opcode::STORE_ATTR
            | Opcode::DELETE_ATTR
            | Opcode::STORE_GLOBAL
            | Opcode::DELETE_GLOBAL
            | Opcode::LOAD_NAME
            | Opcode::LOAD_ATTR
            | Opcode::IMPORT_NAME
            | Opcode::IMPORT_FROM
            | Opcode::LOAD_GLOBAL
        )
    }

    pub open spec fn spec_has_local(self) -> bool {
        matches!(self, Opcode::LOAD_FAST | Opcode::STORE_FAST | Opcode::DELETE_FAST)
    }

    pub open spec fn spec_has_free(self) -> bool {
        matches!(self, Opcode::LOAD_CLOSURE | Opcode::LOAD_DEREF | Opcode::STORE_DEREF)
    }

    /// The opcode that a byte encodes in this dialect, if any.
    pub fn from_u8(b: u8) -> (r: Option<Opcode>)
        ensures
            r == Opcode::from_byte(b),
    {
        match b {
            1 => Some(Opcode::POP_TOP),
            2 => Some(Opcode::ROT_TWO),
            3 => Some(Opcode::ROT_THREE),
            4 => Some(Opcode::DUP_TOP),
            5 => Some(Opcode::DUP_TOP_TWO),
            6 => Some(Opcode::ROT_FOUR),
            9 => Some(Opcode::NOP),
            10 => Some(Opcode::UNARY_POSITIVE),
            11 => Some(Opcode::UNARY_NEGATIVE),
            12 => Some(Opcode::UNARY_NOT),
            15 => Some(Opcode::UNARY_INVERT),
            16 => Some(Opcode::BINARY_MATRIX_MULTIPLY),
            17 => Some(Opcode::INPLACE_MATRIX_MULTIPLY),
            19 => Some(Opcode::BINARY_POWER),
            20 => Some(Opcode::BINARY_MULTIPLY),
            22 => Some(Opcode::BINARY_MODULO),
            23 => Some(Opcode::BINARY_ADD),
            24 => Some(Opcode::BINARY_SUBTRACT),
            25 => Some(Opcode::BINARY_SUBSC),
            26 => Some(Opcode::BINARY_FLOOR_DIVIDE),
            27 => Some(Opcode::BINARY_TRUE_DIVIDE),
            28 => Some(Opcode::INPLACE_FLOOR_DIVIDE),
            29 => Some(Opcode::INPLACE_TRUE_DIVIDE),
            48 => Some(Opcode::RERAISE),
            49 => Some(Opcode::WITH_EXCEPT_START),
            50 => Some(Opcode::GET_AITER),
            51 => Some(Opcode::GET_ANEXT),
            52 => Some(Opcode::BEFORE_ASYNC_WITH),
            54 => Some(Opcode::END_ASYNC_FOR),
            55 => Some(Opcode::INPLACE_ADD),
            56 => Some(Opcode::INPLACE_SUBTRACT),
            57 => Some(Opcode::INPLACE_MULTIPLY),
            59 => Some(Opcode::INPLACE_MODULO),
            60 => Some(Opcode::STORE_SUBSCR),
            61 => Some(Opcode::DELETE_SUBSCR),
            62 => Some(Opcode::BINARY_LSHIFT),
            63 => Some(Opcode::BINARY_RSHIFT),
            64 => Some(Opcode::BINARY_AND),
            65 => Some(Opcode::BINARY_XOR),
            66 => Some(Opcode::BINARY_OR),
            67 => Some(Opcode::INPLACE_POWER),
            68 => Some(Opcode::GET_ITER),
            69 => Some(Opcode::GET_YIELD_FROM_ITER),
            70 => Some(Opcode::PRINT_EXPR),
            71 => Some(Opcode::LOAD_BUILD_CLASS),
            72 => Some(Opcode::YIELD_FROM),
            73 => Some(Opcode::GET_AWAITABLE),
            74 => Some(Opcode::LOAD_ASSERTION_ERROR),
            75 => Some(Opcode::INPLACE_LSHIFT),
            76 => Some(Opcode::INPLACE_RSHIFT),
            77 => Some(Opcode::INPLACE_AND),
            78 => Some(Opcode::INPLACE_XOR),
            79 => Some(Opcode::INPLACE_OR),
            82 => Some(Opcode::LIST_TO_TUPLE),
            83 => Some(Opcode::RETURN_VALUE),
            84 => Some(Opcode::IMPORT_STAR),
            85 => Some(Opcode::SETUP_ANNOTATIONS),
            86 => Some(Opcode::YIELD_VALUE),
            87 => Some(Opcode::POP_BLOCK),
            89 => Some(Opcode::POP_EXCEPT),
            90 => Some(Opcode::STORE_NAME),
            91 => Some(Opcode::DELETE_NAME),
            92 => Some(Opcode::UNPACK_SEQUENCE),
            93 => Some(Opcode::FOR_ITER),
            94 => Some(Opcode::UNPACK_EX),
            95 => Some(Opcode::STORE_ATTR),
            96 => Some(Opcode::DELETE_ATTR),
            97 => Some(Opcode::STORE_GLOBAL),
            98 => Some(Opcode::DELETE_GLOBAL),
            100 => Some(Opcode::LOAD_CONST),
            101 => Some(Opcode::LOAD_NAME),
            102 => Some(Opcode::BUILD_TUPLE),
            104 => Some(Opcode::BUILD_SET),
            105 => Some(Opcode::BUILD_MAP),
            106 => Some(Opcode::LOAD_ATTR),
            107 => Some(Opcode::COMPARE_OP),
            108 => Some(Opcode::IMPORT_NAME),
            109 => Some(Opcode::IMPORT_FROM),
            110 => Some(Opcode::JUMP_FORWARD),
            111 => Some(Opcode::JUMP_IF_FALSE_OR_POP),
            112 => Some(Opcode::JUMP_IF_TRUE_OR_POP),
            113 => Some(Opcode::JUMP_ABSOLUTE),
            114 => Some(Opcode::POP_JUMP_IF_FALSE),
            115 => Some(Opcode::POP_JUMP_IF_TRUE),
            116 => Some(Opcode::LOAD_GLOBAL),
            117 => Some(Opcode::IS_OP),
            118 => Some(Opcode::CONTAINS_OP),
            121 => Some(Opcode::JUMP_IF_NOT_EXC_MATCH),
            122 => Some(Opcode::SETUP_FINALLY),
            124 => Some(Opcode::LOAD_FAST),
            125 => Some(Opcode::STORE_FAST),
            126 => Some(Opcode::DELETE_FAST),
            130 => Some(Opcode::RAISE_VARARGS),
            131 => Some(Opcode::CALL_FUNCTION),
            132 => Some(Opcode::MAKE_FUNCTION),
            133 => Some(Opcode::BUILD_SLICE),
            135 => Some(Opcode::LOAD_CLOSURE),
            136 => Some(Opcode::LOAD_DEREF),
            138 => Some(Opcode::STORE_DEREF),
            141 => Some(Opcode::CALL_FUNCTION_KW),
            142 => Some(Opcode::CALL_FUNCTION_EX),
            143 => Some(Opcode::SETUP_WITH),
            145 => Some(Opcode::LIST_APPEND),
            146 => Some(Opcode::SET_ADD),
            147 => Some(Opcode::MAP_ADD),
            _ => None,
        }
    }

    /// The byte that encodes this opcode.
    pub fn to_u8(&self) -> (r: u8)
        ensures
            r == self.byte(),
    {
        match self {
            Opcode::POP_TOP => 1,
            Opcode::ROT_TWO => 2,
            Opcode::ROT_THREE => 3,
            Opcode::DUP_TOP => 4,
            Opcode::DUP_TOP_TWO => 5,
            Opcode::ROT_FOUR => 6,
            Opcode::NOP => 9,
            Opcode::UNARY_POSITIVE => 10,
            Opcode::UNARY_NEGATIVE => 11,
            Opcode::UNARY_NOT => 12,
            Opcode::UNARY_INVERT => 15,
            Opcode::BINARY_MATRIX_MULTIPLY => 16,
            Opcode::INPLACE_MATRIX_MULTIPLY => 17,
            Opcode::BINARY_POWER => 19,
            Opcode::BINARY_MULTIPLY => 20,
            Opcode::BINARY_MODULO => 22,
            Opcode::BINARY_ADD => 23,
            Opcode::BINARY_SUBTRACT => 24,
            Opcode::BINARY_SUBSC => 25,
            Opcode::BINARY_FLOOR_DIVIDE => 26,
            Opcode::BINARY_TRUE_DIVIDE => 27,
            Opcode::INPLACE_FLOOR_DIVIDE => 28,
            Opcode::INPLACE_TRUE_DIVIDE => 29,
            Opcode::RERAISE => 48,
            Opcode::WITH_EXCEPT_START => 49,
            Opcode::GET_AITER => 50,
            Opcode::GET_ANEXT => 51,
            Opcode::BEFORE_ASYNC_WITH => 52,
            Opcode::END_ASYNC_FOR => 54,
            Opcode::INPLACE_ADD => 55,
            Opcode::INPLACE_SUBTRACT => 56,
            Opcode::INPLACE_MULTIPLY => 57,
            Opcode::INPLACE_MODULO => 59,
            Opcode::STORE_SUBSCR => 60,
            Opcode::DELETE_SUBSCR => 61,
            Opcode::BINARY_LSHIFT => 62,
            Opcode::BINARY_RSHIFT => 63,
            Opcode::BINARY_AND => 64,
            Opcode::BINARY_XOR => 65,
            Opcode::BINARY_OR => 66,
            Opcode::INPLACE_POWER => 67,
            Opcode::GET_ITER => 68,
            Opcode::GET_YIELD_FROM_ITER => 69,
            Opcode::PRINT_EXPR => 70,
            Opcode::LOAD_BUILD_CLASS => 71,
            Opcode::YIELD_FROM => 72,
            Opcode::GET_AWAITABLE => 73,
            Opcode::LOAD_ASSERTION_ERROR => 74,
            Opcode::INPLACE_LSHIFT => 75,
            Opcode::INPLACE_RSHIFT => 76,
            Opcode::INPLACE_AND => 77,
            Opcode::INPLACE_XOR => 78,
            Opcode::INPLACE_OR => 79,
            Opcode::LIST_TO_TUPLE => 82,
            Opcode::RETURN_VALUE => 83,
            Opcode::IMPORT_STAR => 84,
            Opcode::SETUP_ANNOTATIONS => 85,
            Opcode::YIELD_VALUE => 86,
            Opcode::POP_BLOCK => 87,
            Opcode::POP_EXCEPT => 89,
            Opcode::STORE_NAME => 90,
            Opcode::DELETE_NAME => 91,
            Opcode::UNPACK_SEQUENCE => 92,
            Opcode::FOR_ITER => 93,
            Opcode::UNPACK_EX => 94,
            Opcode::STORE_ATTR => 95,
            Opcode::DELETE_ATTR => 96,
            Opcode::STORE_GLOBAL => 97,
            Opcode::DELETE_GLOBAL => 98,
            Opcode::LOAD_CONST => 100,
            Opcode::LOAD_NAME => 101,
            Opcode::BUILD_TUPLE => 102,
            Opcode::BUILD_SET => 104,
            Opcode::BUILD_MAP => 105,
            Opcode::LOAD_ATTR => 106,
            Opcode::COMPARE_OP => 107,
            Opcode::IMPORT_NAME => 108,
            Opcode::IMPORT_FROM => 109,
            Opcode::JUMP_FORWARD => 110,
            Opcode::JUMP_IF_FALSE_OR_POP => 111,
            Opcode::JUMP_IF_TRUE_OR_POP => 112,
            Opcode::JUMP_ABSOLUTE => 113,
            Opcode::POP_JUMP_IF_FALSE => 114,
            Opcode::POP_JUMP_IF_TRUE => 115,
            Opcode::LOAD_GLOBAL => 116,
            Opcode::IS_OP => 117,
            Opcode::CONTAINS_OP => 118,
            Opcode::JUMP_IF_NOT_EXC_MATCH => 121,
            Opcode::SETUP_FINALLY => 122,
            Opcode::LOAD_FAST => 124,
            Opcode::STORE_FAST => 125,
            Opcode::DELETE_FAST => 126,
            Opcode::RAISE_VARARGS => 130,
            Opcode::CALL_FUNCTION => 131,
            Opcode::MAKE_FUNCTION => 132,
            Opcode::BUILD_SLICE => 133,
            Opcode::LOAD_CLOSURE => 135,
            Opcode::LOAD_DEREF => 136,
            Opcode::STORE_DEREF => 138,
            Opcode::CALL_FUNCTION_KW => 141,
            Opcode::CALL_FUNCTION_EX => 142,
            Opcode::SETUP_WITH => 143,
            Opcode::LIST_APPEND => 145,
            Opcode::SET_ADD => 146,
            Opcode::MAP_ADD => 147,
        }
    }


    /// Whether or not this opcode has an argument
    pub fn has_arg(&self) -> (r: bool)
        ensures
            r == self.spec_has_arg(),
    {
        self.to_u8() >= 90
    }

    /// Whether or not this opcode has an extended argument
    pub fn has_extended_arg(&self) -> (r: bool)
        ensures
            r == self.spec_has_extended_arg(),
    {
        self.to_u8() >= 144
    }

    /// Whether or not this opcode has a constant parameter
    pub fn has_const(&self) -> (r: bool)
        ensures
            r == self.spec_has_const(),
    {
        matches!(self, Opcode::LOAD_CONST)
    }

    /// Whether or not this opcode is a boolean operation
    pub fn has_comp(&self) -> (r: bool)
        ensures
            r == self.spec_has_comp(),
    {
        matches!(self, Opcode::COMPARE_OP)
    }

    /// Whether or not this opcode has a relative jump target
    pub fn is_relative_jump(&self) -> (r: bool)
        ensures
            r == self.spec_is_relative_jump(),
    {
        matches!(
            self,
            Opcode::FOR_ITER
            | Opcode::JUMP_FORWARD
            | Opcode::SETUP_FINALLY
            | Opcode::SETUP_WITH
        )
    }

    /// Whether or not this opcode has an absolute jump target
    pub fn is_absolute_jump(&self) -> (r: bool)
        ensures
            r == self.spec_is_absolute_jump(),
    {
        matches!(
            self,
            Opcode::JUMP_IF_FALSE_OR_POP
            | Opcode::JUMP_IF_TRUE_OR_POP
            | Opcode::JUMP_ABSOLUTE
            | Opcode::POP_JUMP_IF_FALSE
            | Opcode::POP_JUMP_IF_TRUE
            | Opcode::JUMP_IF_NOT_EXC_MATCH
        )
    }

    /// Whether or not this opcode accesses an attribute by name
    pub fn has_name(&self) -> (r: bool)
        ensures
            r == self.spec_has_name(),
    {
        matches!(
            self,
            Opcode::STORE_NAME
            | Opcode::DELETE_NAME
            | Opcode::STORE_ATTR
            | Opcode::DELETE_ATTR
            | Opcode::STORE_GLOBAL
            | Opcode::DELETE_GLOBAL
            | Opcode::LOAD_NAME
            | Opcode::LOAD_ATTR
            | Opcode::IMPORT_NAME
            | Opcode::IMPORT_FROM
            | Opcode::LOAD_GLOBAL
        )
    }

    /// Whether or not this opcode accesses a local variable
    pub fn has_local(&self) -> (r: bool)
        ensures
            r == self.spec_has_local(),
    {
        matches!(self, Opcode::LOAD_FAST | Opcode::STORE_FAST | Opcode::DELETE_FAST)
    }

    /// Whether or not this opcode accesses a free variable
    pub fn has_free(&self) -> (r: bool)
        ensures
            r == self.spec_has_free(),
    {
        matches!(self, Opcode::LOAD_CLOSURE | Opcode::LOAD_DEREF | Opcode::STORE_DEREF)
    }
}

/// Decoding the byte of an opcode gives that opcode back, and a byte decodes
/// only to an opcode that it encodes.
pub proof fn lemma_byte_round_trip(o: Opcode, b: u8)
    ensures
        Opcode::from_byte(o.byte()) == Some(o),
        Opcode::from_byte(b) matches Some(p) ==> p.byte() == b,
{
}

/// Every jump target is the operand: an opcode that jumps takes one.
pub proof fn lemma_jump_has_arg(o: Opcode)
    ensures
        o.spec_is_relative_jump() || o.spec_is_absolute_jump() ==> o.spec_has_arg(),
{
}

/// No opcode has both a relative and an absolute jump target, and the operand
/// indexes at most one table: names, locals, free variables or constants.
pub proof fn lemma_classification_disjoint(o: Opcode)
    ensures
        !(o.spec_is_relative_jump() && o.spec_is_absolute_jump()),
        o.spec_has_name() ==> !o.spec_has_local() && !o.spec_has_free() && !o.spec_has_const(),
        o.spec_has_local() ==> !o.spec_has_free() && !o.spec_has_const(),
        o.spec_has_free() ==> !o.spec_has_const(),
{
}

} // verus!
