//! WebAssembly binary-format constants: value types, module framing,
//! section ids, and the instruction opcodes the emitter uses.
use vstd::prelude::*;

verus! {

pub const VAL_I32: u8 = 0x7f;

pub const VAL_I64: u8 = 0x7e;

pub const VAL_F32: u8 = 0x7d;

pub const VAL_F64: u8 = 0x7c;

pub const VAL_V128: u8 = 0x7b;

pub const FUNC_TYPE: u8 = 0x60;

pub const RESULT_TYPE: u8 = 0x40;

pub const LIMIT_MIN: u8 = 0x00;

pub const LIMIT_MIN_MAX: u8 = 0x01;

pub const ELEM_FUNCREF: u8 = 0x70;

pub const GLOBAL_CONST: u8 = 0x00;

pub const GLOBAL_VAR: u8 = 0x01;

/// The leading `\0asm` magic bytes of a module.
pub const MODULE_MAGIC: [u8; 4] = [0x00, 0x61, 0x73, 0x6d];

pub const MODULE_VERSION: [u8; 4] = [0x01, 0x00, 0x00, 0x00];

pub const SECTION_CUSTOM: u8 = 0;

pub const SECTION_TYPE: u8 = 1;

pub const SECTION_IMPORT: u8 = 2;

pub const SECTION_FUNCTION: u8 = 3;

pub const SECTION_TABLE: u8 = 4;

pub const SECTION_MEMORY: u8 = 5;

pub const SECTION_GLOBAL: u8 = 6;

pub const SECTION_EXPORT: u8 = 7;

pub const SECTION_START: u8 = 8;

pub const SECTION_ELEMENT: u8 = 9;

pub const SECTION_CODE: u8 = 10;

pub const SECTION_DATA: u8 = 11;

pub const IMPORT_FUNC: u8 = 0x00;

pub const IMPORT_TABLE: u8 = 0x01;

pub const IMPORT_MEM: u8 = 0x02;

pub const IMPORT_GLOBAL: u8 = 0x03;

pub const EXPORT_FUNC: u8 = 0x00;

pub const EXPORT_TABLE: u8 = 0x01;

pub const EXPORT_MEM: u8 = 0x02;

pub const EXPORT_GLOBAL: u8 = 0x03;

pub const BLOCK_VOID: u8 = 0x40;

pub const OP_UNREACHABLE: u8 = 0x00;

pub const OP_NOP: u8 = 0x01;

pub const OP_BLOCK: u8 = 0x02;

pub const OP_LOOP: u8 = 0x03;

pub const OP_IF: u8 = 0x04;

pub const OP_ELSE: u8 = 0x05;

pub const OP_END: u8 = 0x0B;

pub const OP_BR: u8 = 0x0C;

pub const OP_BR_IF: u8 = 0x0D;

pub const OP_BR_TABLE: u8 = 0x0E;

pub const OP_RETURN: u8 = 0x0F;

pub const OP_CALL: u8 = 0x10;

pub const OP_CALL_INDIRECT: u8 = 0x11;

pub const OP_DROP: u8 = 0x1A;

pub const OP_SELECT: u8 = 0x1B;

pub const OP_LOCAL_GET: u8 = 0x20;

pub const OP_LOCAL_SET: u8 = 0x21;

pub const OP_LOCAL_TEE: u8 = 0x22;

pub const OP_GLOBAL_GET: u8 = 0x23;

pub const OP_GLOBAL_SET: u8 = 0x24;

pub const OP_I32_CONST: u8 = 0x41;

pub const OP_I64_CONST: u8 = 0x42;

pub const OP_F32_CONST: u8 = 0x43;

pub const OP_F64_CONST: u8 = 0x44;

pub const OP_F32_ADD: u8 = 0x92;

pub const OP_F32_SUB: u8 = 0x93;

pub const OP_F32_MUL: u8 = 0x94;

pub const OP_F32_DIV: u8 = 0x95;

pub const OP_F64_ADD: u8 = 0xA0;

pub const OP_F64_SUB: u8 = 0xA1;

pub const OP_F64_MUL: u8 = 0xA2;

pub const OP_F64_DIV: u8 = 0xA3;

} // verus!
