//! End-to-end calls through the shim: success paths, validation failures,
//! result write-back and traps.

use abi_shim::errors::{CallCtx, Cause, GuestConvTable, Location, Trap};
use abi_shim::handlers::{ArrayReadHandler, FixedHandler, TableHandler};
use abi_shim::ifunc::{InterfaceFunction, Param, RetSlot};
use abi_shim::memory::GuestMemory;
use abi_shim::shape::{ScalarType, TypeShape};
use abi_shim::shim::{run_shim, Event};
use abi_shim::value::Value;

const SUCCESS: u64 = 0;
const E_OOB: u64 = 10;
const E_MISALIGNED: u64 = 11;
const E_RANGE: u64 = 12;

fn ctx() -> CallCtx {
    CallCtx {
        success: SUCCESS,
        guest: GuestConvTable {
            out_of_bounds: E_OOB,
            misaligned: E_MISALIGNED,
            out_of_range: E_RANGE,
        },
        user: None,
    }
}

fn param(name: &str, shape: TypeShape) -> Param {
    Param { name: name.to_string(), shape }
}

fn ret(name: &str, shape: TypeShape) -> RetSlot {
    RetSlot { name: name.to_string(), shape }
}

fn errno_slot() -> RetSlot {
    ret("errno", TypeShape::EnumOrFlagsOrInt { bound: 0xFFFF, size: 2 })
}

fn func(
    name: &str,
    params: Vec<Param>,
    results: Vec<RetSlot>,
    noreturn: bool,
) -> InterfaceFunction {
    InterfaceFunction {
        module: "demo".to_string(),
        name: name.to_string(),
        params,
        results,
        noreturn,
    }
}

#[test]
fn get_valid_index_returns_stored_byte_and_success() {
    let f = func(
        "get",
        vec![param("idx", TypeShape::Scalar(ScalarType::U32))],
        vec![errno_slot(), ret("value", TypeShape::Scalar(ScalarType::U8))],
        false,
    );
    let handler = TableHandler { data: vec![7, 8, 9], miss: 5 };
    let mut mem = GuestMemory::zeroed(16);
    // one slot for idx, one output-pointer slot for the extra result
    let raws = vec![1, 4];
    let out = run_shim(&f, &ctx(), &handler, &mut mem, &raws);
    assert_eq!(out.abi, Ok(Some(SUCCESS)));
    assert_eq!(mem.byte_at(4), 8);
    assert_eq!(
        out.events,
        vec![
            Event::SpanOpen,
            Event::RetPtrMade(0),
            Event::ArgsTraced,
            Event::HandlerInvoked,
            Event::RetsTraced,
            Event::RetWritten(0),
            Event::SuccessTraced,
            Event::SpanClose,
        ]
    );
}

#[test]
fn get_bad_struct_offset_is_validation_error_without_invoking_handler() {
    let f = func(
        "get",
        vec![param("rec", TypeShape::StructByRef { size: 4, align: 4 })],
        vec![errno_slot(), ret("value", TypeShape::Scalar(ScalarType::U8))],
        false,
    );
    let handler = TableHandler { data: vec![7, 8, 9], miss: 5 };
    let mut mem = GuestMemory::zeroed(16);
    // struct offset 100 is far out of the 16-byte region
    let raws = vec![100, 4];
    let out = run_shim(&f, &ctx(), &handler, &mut mem, &raws);
    assert_eq!(out.abi, Ok(Some(E_OOB)));
    assert!(!out.events.contains(&Event::HandlerInvoked));
    assert!(!out.events.contains(&Event::ArgsTraced));
    // nothing was written
    for i in 0..16 {
        assert_eq!(mem.byte_at(i), 0);
    }
}

#[test]
fn read_overlong_buffer_marshals_but_fails_in_handler() {
    let f = func(
        "read",
        vec![param("buf", TypeShape::ArrayRef { elem_size: 1 })],
        vec![errno_slot()],
        false,
    );
    let handler = ArrayReadHandler { err_code: 21 };
    let mut mem = GuestMemory::zeroed(8);
    // buf_ptr + buf_len exceeds the 8-byte region; the reference is still
    // constructed lazily and marshaling succeeds
    let raws = vec![4, 8];
    let out = run_shim(&f, &ctx(), &handler, &mut mem, &raws);
    assert_eq!(out.abi, Ok(Some(21)));
    assert!(out.events.contains(&Event::ArgsTraced));
    assert!(out.events.contains(&Event::HandlerInvoked));
    assert!(out.events.contains(&Event::ErrTraced));
}

#[test]
fn read_in_bounds_buffer_succeeds() {
    let f = func(
        "read",
        vec![param("buf", TypeShape::ArrayRef { elem_size: 1 })],
        vec![errno_slot()],
        false,
    );
    let handler = ArrayReadHandler { err_code: 21 };
    let mut mem = GuestMemory::zeroed(8);
    let raws = vec![4, 4];
    let out = run_shim(&f, &ctx(), &handler, &mut mem, &raws);
    assert_eq!(out.abi, Ok(Some(SUCCESS)));
}

#[test]
fn two_results_written_in_declaration_order() {
    let f = func(
        "pair",
        vec![],
        vec![
            errno_slot(),
            ret("a", TypeShape::Scalar(ScalarType::U32)),
            ret("b", TypeShape::Scalar(ScalarType::U32)),
        ],
        false,
    );
    let handler = FixedHandler {
        outcome: Ok(vec![Value::UInt(0x1122_3344), Value::UInt(0x5566_7788)]),
    };
    let mut mem = GuestMemory::zeroed(16);
    let raws = vec![0, 8];
    let out = run_shim(&f, &ctx(), &handler, &mut mem, &raws);
    assert_eq!(out.abi, Ok(Some(SUCCESS)));
    // little-endian write-back of a at 0 and b at 8
    assert_eq!(
        (mem.byte_at(0), mem.byte_at(1), mem.byte_at(2), mem.byte_at(3)),
        (0x44, 0x33, 0x22, 0x11)
    );
    assert_eq!(
        (mem.byte_at(8), mem.byte_at(9), mem.byte_at(10), mem.byte_at(11)),
        (0x88, 0x77, 0x66, 0x55)
    );
    assert_eq!(
        out.events,
        vec![
            Event::SpanOpen,
            Event::RetPtrMade(0),
            Event::RetPtrMade(1),
            Event::ArgsTraced,
            Event::HandlerInvoked,
            Event::RetsTraced,
            Event::RetWritten(0),
            Event::RetWritten(1),
            Event::SuccessTraced,
            Event::SpanClose,
        ]
    );
}

#[test]
fn second_result_write_failure_keeps_first_write() {
    let f = func(
        "pair",
        vec![],
        vec![
            errno_slot(),
            ret("a", TypeShape::Scalar(ScalarType::U32)),
            ret("b", TypeShape::Scalar(ScalarType::U32)),
        ],
        false,
    );
    let handler = FixedHandler {
        outcome: Ok(vec![Value::UInt(0x1122_3344), Value::UInt(0x5566_7788)]),
    };
    let mut mem = GuestMemory::zeroed(16);
    // a's pointer is valid, b's is far out of bounds
    let raws = vec![0, 100];
    let out = run_shim(&f, &ctx(), &handler, &mut mem, &raws);
    assert_eq!(out.abi, Ok(Some(E_OOB)));
    // a's memory was mutated even though the call reports failure
    assert_eq!(
        (mem.byte_at(0), mem.byte_at(1), mem.byte_at(2), mem.byte_at(3)),
        (0x44, 0x33, 0x22, 0x11)
    );
    assert_eq!(
        out.events,
        vec![
            Event::SpanOpen,
            Event::RetPtrMade(0),
            Event::RetPtrMade(1),
            Event::ArgsTraced,
            Event::HandlerInvoked,
            Event::RetsTraced,
            Event::RetWritten(0),
            Event::RetWriteFailed(1),
            Event::SpanClose,
        ]
    );
}

#[test]
fn misaligned_result_pointer_reports_misalignment() {
    let f = func(
        "one",
        vec![],
        vec![errno_slot(), ret("a", TypeShape::Scalar(ScalarType::U32))],
        false,
    );
    let handler = FixedHandler { outcome: Ok(vec![Value::UInt(9)]) };
    let mut mem = GuestMemory::zeroed(16);
    let raws = vec![2];
    let out = run_shim(&f, &ctx(), &handler, &mut mem, &raws);
    assert_eq!(out.abi, Ok(Some(E_MISALIGNED)));
}

#[test]
fn noreturn_function_always_traps() {
    let f = func("halt", vec![], vec![], true);
    let handler = FixedHandler { outcome: Ok(vec![]) };
    let mut mem = GuestMemory::zeroed(4);
    let raws = vec![];
    let out = run_shim(&f, &ctx(), &handler, &mut mem, &raws);
    assert!(matches!(out.abi, Err(Trap::NoReturn)));
    assert_eq!(
        out.events,
        vec![
            Event::SpanOpen,
            Event::ArgsTraced,
            Event::HandlerInvoked,
            Event::SpanClose,
        ]
    );
}

#[test]
fn marshal_failure_without_error_type_is_unrecoverable() {
    let f = func(
        "poke",
        vec![param("x", TypeShape::Scalar(ScalarType::U8))],
        vec![],
        false,
    );
    let handler = FixedHandler { outcome: Ok(vec![]) };
    let mut mem = GuestMemory::zeroed(4);
    let raws = vec![0x100];
    let out = run_shim(&f, &ctx(), &handler, &mut mem, &raws);
    match out.abi {
        Err(Trap::Unrecoverable(ge)) => {
            assert_eq!(ge.funcname, "poke");
            assert_eq!(ge.cause, Cause::OutOfRange);
            match ge.location {
                Location::Arg(name) => assert_eq!(name, "x"),
                Location::RetPtr(_) => panic!("expected an argument location"),
            }
        }
        other => panic!("expected an unrecoverable trap, got {:?}", other),
    }
}

#[test]
fn registered_user_error_table_maps_domain_error() {
    let f = func("fail", vec![], vec![errno_slot()], false);
    let handler = FixedHandler { outcome: Err(7) };
    let mut mem = GuestMemory::zeroed(4);
    let mut c = ctx();
    c.user = Some(vec![(7, 70), (8, 80)]);
    let out = run_shim(&f, &c, &handler, &mut mem, &vec![]);
    assert_eq!(out.abi, Ok(Some(70)));
}

#[test]
fn unregistered_domain_error_in_table_traps() {
    let f = func("fail", vec![], vec![errno_slot()], false);
    let handler = FixedHandler { outcome: Err(9) };
    let mut mem = GuestMemory::zeroed(4);
    let mut c = ctx();
    c.user = Some(vec![(7, 70)]);
    let out = run_shim(&f, &c, &handler, &mut mem, &vec![]);
    assert!(matches!(out.abi, Err(Trap::UnmappedUserError(9))));
}

#[test]
fn absent_user_conversion_is_identity() {
    let f = func("fail", vec![], vec![errno_slot()], false);
    let handler = FixedHandler { outcome: Err(33) };
    let mut mem = GuestMemory::zeroed(4);
    let out = run_shim(&f, &ctx(), &handler, &mut mem, &vec![]);
    assert_eq!(out.abi, Ok(Some(33)));
}

#[test]
fn no_results_function_returns_no_word() {
    let f = func(
        "ping",
        vec![param("x", TypeShape::Scalar(ScalarType::U32))],
        vec![],
        false,
    );
    let handler = FixedHandler { outcome: Ok(vec![]) };
    let mut mem = GuestMemory::zeroed(4);
    let out = run_shim(&f, &ctx(), &handler, &mut mem, &vec![3]);
    assert_eq!(out.abi, Ok(None));
}

#[test]
fn pointer_and_string_arguments_are_lazily_referenced() {
    // both reference far past the region; marshaling still succeeds
    let f = func(
        "lazy",
        vec![
            param("p", TypeShape::PointerRef),
            param("s", TypeShape::StringRef),
        ],
        vec![errno_slot()],
        false,
    );
    let handler = FixedHandler { outcome: Ok(vec![]) };
    let mut mem = GuestMemory::zeroed(4);
    let raws = vec![1000, 2000, 3000];
    let out = run_shim(&f, &ctx(), &handler, &mut mem, &raws);
    assert_eq!(out.abi, Ok(Some(SUCCESS)));
    assert!(out.events.contains(&Event::HandlerInvoked));
}

#[test]
fn misaligned_struct_argument_reports_misalignment() {
    let f = func(
        "rec",
        vec![param("r", TypeShape::StructByRef { size: 4, align: 4 })],
        vec![errno_slot()],
        false,
    );
    let handler = FixedHandler { outcome: Ok(vec![]) };
    let mut mem = GuestMemory::zeroed(16);
    let raws = vec![2];
    let out = run_shim(&f, &ctx(), &handler, &mut mem, &raws);
    assert_eq!(out.abi, Ok(Some(E_MISALIGNED)));
}
