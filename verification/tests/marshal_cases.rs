//! Narrow-integer conversions, enum checks and guest-memory behavior, case
//! by case.

use abi_shim::errors::{CallCtx, GuestConvTable};
use abi_shim::handlers::{FixedHandler, TableHandler};
use abi_shim::value::Value;
use abi_shim::ifunc::{InterfaceFunction, Param, RetSlot};
use abi_shim::memory::GuestMemory;
use abi_shim::shape::{ScalarType, TypeShape};
use abi_shim::shim::run_shim;

const SUCCESS: u64 = 0;
const E_RANGE: u64 = 12;

fn ctx() -> CallCtx {
    CallCtx {
        success: SUCCESS,
        guest: GuestConvTable {
            out_of_bounds: 10,
            misaligned: 11,
            out_of_range: E_RANGE,
        },
        user: None,
    }
}

fn one_arg_func(shape: TypeShape) -> InterfaceFunction {
    InterfaceFunction {
        module: "demo".to_string(),
        name: "narrow".to_string(),
        params: vec![Param { name: "x".to_string(), shape }],
        results: vec![RetSlot {
            name: "errno".to_string(),
            shape: TypeShape::EnumOrFlagsOrInt { bound: 0xFFFF, size: 2 },
        }],
        noreturn: false,
    }
}

fn call_one(shape: TypeShape, raw: u64) -> Result<Option<u64>, abi_shim::errors::Trap> {
    let f = one_arg_func(shape);
    let handler = FixedHandler { outcome: Ok(vec![]) };
    let mut mem = GuestMemory::zeroed(8);
    run_shim(&f, &ctx(), &handler, &mut mem, &vec![raw]).abi
}

#[test]
fn u8_in_range_round_trips() {
    assert_eq!(call_one(TypeShape::Scalar(ScalarType::U8), 0xFF), Ok(Some(SUCCESS)));
    assert_eq!(call_one(TypeShape::Scalar(ScalarType::U8), 0), Ok(Some(SUCCESS)));
}

#[test]
fn u8_out_of_range_is_validation_error() {
    assert_eq!(call_one(TypeShape::Scalar(ScalarType::U8), 0x100), Ok(Some(E_RANGE)));
}

#[test]
fn u16_boundary() {
    assert_eq!(call_one(TypeShape::Scalar(ScalarType::U16), 0xFFFF), Ok(Some(SUCCESS)));
    assert_eq!(call_one(TypeShape::Scalar(ScalarType::U16), 0x10000), Ok(Some(E_RANGE)));
}

#[test]
fn s8_sign_extended_range() {
    // low 32 bits encode -128: in range
    assert_eq!(
        call_one(TypeShape::Scalar(ScalarType::S8), 0xFFFF_FF80),
        Ok(Some(SUCCESS))
    );
    // low 32 bits encode -129: out of range
    assert_eq!(
        call_one(TypeShape::Scalar(ScalarType::S8), 0xFFFF_FF7F),
        Ok(Some(E_RANGE))
    );
    assert_eq!(call_one(TypeShape::Scalar(ScalarType::S8), 127), Ok(Some(SUCCESS)));
    assert_eq!(call_one(TypeShape::Scalar(ScalarType::S8), 128), Ok(Some(E_RANGE)));
}

#[test]
fn s16_sign_extended_range() {
    assert_eq!(
        call_one(TypeShape::Scalar(ScalarType::S16), 0xFFFF_8000),
        Ok(Some(SUCCESS))
    );
    assert_eq!(
        call_one(TypeShape::Scalar(ScalarType::S16), 0xFFFF_0000),
        Ok(Some(E_RANGE))
    );
}

#[test]
fn wide_scalars_never_fail() {
    assert_eq!(
        call_one(TypeShape::Scalar(ScalarType::U64), u64::MAX),
        Ok(Some(SUCCESS))
    );
    assert_eq!(
        call_one(TypeShape::Scalar(ScalarType::S64), u64::MAX),
        Ok(Some(SUCCESS))
    );
    assert_eq!(
        call_one(TypeShape::Scalar(ScalarType::U32), u64::MAX),
        Ok(Some(SUCCESS))
    );
}

#[test]
fn enum_discriminant_bound_is_checked() {
    let shape = TypeShape::EnumOrFlagsOrInt { bound: 3, size: 1 };
    assert_eq!(call_one(shape, 3), Ok(Some(SUCCESS)));
    assert_eq!(call_one(shape, 4), Ok(Some(E_RANGE)));
}

#[test]
fn handle_is_converted_from_its_word() {
    assert_eq!(call_one(TypeShape::Handle, 42), Ok(Some(SUCCESS)));
}

#[test]
fn guest_memory_reads_back_its_bytes() {
    let mem = GuestMemory::from_bytes(vec![1, 2, 3]);
    assert_eq!(mem.size(), 3);
    assert_eq!(mem.byte_at(0), 1);
    assert_eq!(mem.byte_at(2), 3);
}

#[test]
fn struct_argument_is_read_eagerly() {
    // a 4-byte struct at offset 4; the handler sees its bytes — here we only
    // check that marshaling succeeds and the call completes
    let f = one_arg_func(TypeShape::StructByRef { size: 4, align: 4 });
    let handler = FixedHandler { outcome: Ok(vec![]) };
    let mut mem = GuestMemory::from_bytes(vec![0, 0, 0, 0, 9, 9, 9, 9]);
    let out = run_shim(&f, &ctx(), &handler, &mut mem, &vec![4]);
    assert_eq!(out.abi, Ok(Some(SUCCESS)));
}

#[test]
fn table_handler_miss_is_a_domain_error() {
    let f = InterfaceFunction {
        module: "demo".to_string(),
        name: "get".to_string(),
        params: vec![Param {
            name: "idx".to_string(),
            shape: TypeShape::Scalar(ScalarType::U32),
        }],
        results: vec![
            RetSlot {
                name: "errno".to_string(),
                shape: TypeShape::EnumOrFlagsOrInt { bound: 0xFFFF, size: 2 },
            },
            RetSlot {
                name: "value".to_string(),
                shape: TypeShape::Scalar(ScalarType::U8),
            },
        ],
        noreturn: false,
    };
    let handler = TableHandler { data: vec![7], miss: 5 };
    let mut mem = GuestMemory::zeroed(8);
    // index 3 is past the one-byte table; no user conversion, so the miss
    // code passes through unchanged
    let out = run_shim(&f, &ctx(), &handler, &mut mem, &vec![3, 4]);
    assert_eq!(out.abi, Ok(Some(5)));
    // the output pointer was never written
    assert_eq!(mem.byte_at(4), 0);
}

#[test]
fn float_bits_pass_through_unchecked() {
    assert_eq!(
        call_one(TypeShape::Scalar(ScalarType::F64), u64::MAX),
        Ok(Some(SUCCESS))
    );
    assert_eq!(
        call_one(TypeShape::Scalar(ScalarType::F32), u64::MAX),
        Ok(Some(SUCCESS))
    );
}

#[test]
fn struct_result_writes_its_bytes_back() {
    let f = InterfaceFunction {
        module: "demo".to_string(),
        name: "fill".to_string(),
        params: vec![],
        results: vec![
            RetSlot {
                name: "errno".to_string(),
                shape: TypeShape::EnumOrFlagsOrInt { bound: 0xFFFF, size: 2 },
            },
            RetSlot {
                name: "rec".to_string(),
                shape: TypeShape::StructByRef { size: 4, align: 1 },
            },
        ],
        noreturn: false,
    };
    let handler = FixedHandler { outcome: Ok(vec![Value::StructBytes(vec![9, 8, 7, 6])]) };
    let mut mem = GuestMemory::zeroed(8);
    let out = run_shim(&f, &ctx(), &handler, &mut mem, &vec![3]);
    assert_eq!(out.abi, Ok(Some(SUCCESS)));
    assert_eq!(
        (mem.byte_at(3), mem.byte_at(4), mem.byte_at(5), mem.byte_at(6)),
        (9, 8, 7, 6)
    );
}

#[test]
fn signed_result_writes_twos_complement() {
    let f = InterfaceFunction {
        module: "demo".to_string(),
        name: "neg".to_string(),
        params: vec![],
        results: vec![
            RetSlot {
                name: "errno".to_string(),
                shape: TypeShape::EnumOrFlagsOrInt { bound: 0xFFFF, size: 2 },
            },
            RetSlot {
                name: "v".to_string(),
                shape: TypeShape::Scalar(ScalarType::S16),
            },
        ],
        noreturn: false,
    };
    let handler = FixedHandler { outcome: Ok(vec![Value::SInt(-2)]) };
    let mut mem = GuestMemory::zeroed(8);
    let out = run_shim(&f, &ctx(), &handler, &mut mem, &vec![0]);
    assert_eq!(out.abi, Ok(Some(SUCCESS)));
    assert_eq!((mem.byte_at(0), mem.byte_at(1)), (0xFE, 0xFF));
}
