//! Laws of the shim, proved over its specification functions.

use vstd::prelude::*;
use crate::shape::{ScalarType, TypeShape};
use crate::value::ValueV;
use crate::errors::{Cause, CallCtx, guest_code, user_code};
use crate::ifunc::InterfaceFunction;
use crate::marshal::{marshal_one, marshal_first_bad, marshaled_args, s32_of};
use crate::writeback::wb_first_bad;
use crate::shim::{Event, AbiSpec, Handler, shim_abi, shim_events};

verus! {

/// Whether an abstract ABI outcome is a fatal trap.
pub open spec fn is_trap(a: AbiSpec) -> bool {
    match a {
        AbiSpec::TrapUnrecoverable => true,
        AbiSpec::TrapNoReturn => true,
        AbiSpec::TrapUnmappedUser(_) => true,
        AbiSpec::Code(_) => false,
        AbiSpec::NoCode => false,
    }
}

/// Whether a call of `func` took the full success path: every argument
/// marshaled, the handler returned success, and every result write-back
/// succeeded.
pub open spec fn success_path<H: Handler>(
    func: InterfaceFunction,
    h: H,
    mem: Seq<u8>,
    raws: Seq<u64>,
) -> bool {
    &&& marshal_first_bad(func, raws, mem) == func.params@.len()
    &&& !func.noreturn
    &&& h.outcome_spec(func, marshaled_args(func, raws, mem), mem) is Ok
    &&& wb_first_bad(
        func,
        raws,
        h.mem_after_spec(func, marshaled_args(func, raws, mem), mem),
    ) == func.n_extra()
}

/// For a function with a declared error type, the ABI return is the type's
/// canonical success value exactly when the handler returned success and
/// every result write-back succeeded — provided the context's failure codes
/// are distinct from the success value, without which a failure code could
/// coincide with it.
pub proof fn lemma_success_code_iff<H: Handler>(
    func: InterfaceFunction,
    ctx: CallCtx,
    h: H,
    mem: Seq<u8>,
    raws: Seq<u64>,
)
    requires
        func.wf(),
        func.has_err(),
        forall|c: Cause| #[trigger] guest_code(ctx.guest, c) != ctx.success,
        forall|e: u64| #[trigger] user_code(ctx, e) != Some(ctx.success),
    ensures
        (shim_abi(func, ctx, h, mem, raws) == AbiSpec::Code(ctx.success)) <==> success_path(
            func,
            h,
            mem,
            raws,
        ),
{
    crate::marshal::lemma_first_bad_range(func, raws, mem, 0);
    let fb = marshal_first_bad(func, raws, mem);
    if fb == func.params@.len() && !func.noreturn {
        let argsv = marshaled_args(func, raws, mem);
        match h.outcome_spec(func, argsv, mem) {
            Err(e) => {
                assert(user_code(ctx, e) != Some(ctx.success));
            },
            Ok(_) => {
                let m1 = h.mem_after_spec(func, argsv, mem);
                crate::writeback::lemma_wb_first_bad_range(func, raws, m1, 0);
            },
        }
    }
}

/// A `noreturn` function resolves to a trap on every call, whatever its
/// arguments: a marshal failure has no error type to carry it, and the
/// handler's return is unconditionally surfaced as a trap.
pub proof fn lemma_noreturn_always_traps<H: Handler>(
    func: InterfaceFunction,
    ctx: CallCtx,
    h: H,
    mem: Seq<u8>,
    raws: Seq<u64>,
)
    requires
        func.wf(),
        func.noreturn,
    ensures
        is_trap(shim_abi(func, ctx, h, mem, raws)),
{
}

/// Narrow conversions never truncate: a raw word outside the representable
/// range yields a validation error, and an in-range word marshals to
/// exactly its own value (signed widths to the signed value of the word's
/// low 32 bits).
pub proof fn lemma_narrow_exact(s: TypeShape, w0: u64, w1: u64, mem: Seq<u8>)
    ensures
        ({
            match s {
                TypeShape::Scalar(t) => match t {
                    ScalarType::U8 | ScalarType::Char8 => marshal_one(s, w0, w1, mem) == if w0
                        <= 0xFF {
                        Ok::<ValueV, Cause>(ValueV::UInt(w0))
                    } else {
                        Err::<ValueV, Cause>(Cause::OutOfRange)
                    },
                    ScalarType::U16 => marshal_one(s, w0, w1, mem) == if w0 <= 0xFFFF {
                        Ok::<ValueV, Cause>(ValueV::UInt(w0))
                    } else {
                        Err::<ValueV, Cause>(Cause::OutOfRange)
                    },
                    ScalarType::S8 => marshal_one(s, w0, w1, mem) == if -128 <= s32_of(w0)
                        <= 127 {
                        Ok::<ValueV, Cause>(ValueV::SInt(s32_of(w0) as i64))
                    } else {
                        Err::<ValueV, Cause>(Cause::OutOfRange)
                    },
                    ScalarType::S16 => marshal_one(s, w0, w1, mem) == if -32768 <= s32_of(w0)
                        <= 32767 {
                        Ok::<ValueV, Cause>(ValueV::SInt(s32_of(w0) as i64))
                    } else {
                        Err::<ValueV, Cause>(Cause::OutOfRange)
                    },
                    _ => true,
                },
                TypeShape::EnumOrFlagsOrInt { bound, size: _ } => marshal_one(s, w0, w1, mem)
                    == if w0 <= bound {
                    Ok::<ValueV, Cause>(ValueV::EnumVal(w0))
                } else {
                    Err::<ValueV, Cause>(Cause::OutOfRange)
                },
                _ => true,
            }
        }),
{
}

/// The argument-trace event is emitted exactly once per call whose
/// arguments all marshal — after every argument is bound and immediately
/// before the handler is invoked — and never when a marshal step fails.
pub proof fn lemma_args_trace_once<H: Handler>(
    func: InterfaceFunction,
    ctx: CallCtx,
    h: H,
    mem: Seq<u8>,
    raws: Seq<u64>,
)
    requires
        func.wf(),
    ensures
        ({
            let evs = shim_events(func, ctx, h, mem, raws);
            if marshal_first_bad(func, raws, mem) < func.params@.len() {
                forall|i: int| 0 <= i < evs.len() ==> evs[i] != Event::ArgsTraced
            } else {
                let t: int = if func.noreturn {
                    1
                } else {
                    1 + func.n_extra() as int
                };
                &&& evs[t] == Event::ArgsTraced
                &&& evs[t + 1] == Event::HandlerInvoked
                &&& forall|i: int|
                    0 <= i < evs.len() && i != t ==> evs[i] != Event::ArgsTraced
            }
        }),
{
    let evs = shim_events(func, ctx, h, mem, raws);
    if marshal_first_bad(func, raws, mem) < func.params@.len() {
        assert(forall|i: int| 0 <= i < evs.len() ==> evs[i] != Event::ArgsTraced);
    } else if func.noreturn {
        assert(forall|i: int| 0 <= i < evs.len() && i != 1 ==> evs[i] != Event::ArgsTraced);
    } else {
        let n = func.n_extra() as int;
        let t = 1 + n;
        assert forall|i: int| 0 <= i < evs.len() && i != t implies evs[i]
            != Event::ArgsTraced by {
            if 1 <= i < 1 + n {
                assert(evs[i] == Event::RetPtrMade((i - 1) as usize));
            }
        }
    }
}

/// The instrumentation span brackets every call: the first event of every
/// trace opens it and the last closes it, on success and on every failure
/// path alike.
pub proof fn lemma_span_brackets<H: Handler>(
    func: InterfaceFunction,
    ctx: CallCtx,
    h: H,
    mem: Seq<u8>,
    raws: Seq<u64>,
)
    requires
        func.wf(),
    ensures
        ({
            let evs = shim_events(func, ctx, h, mem, raws);
            &&& evs.len() >= 2
            &&& evs[0] == Event::SpanOpen
            &&& evs[evs.len() - 1] == Event::SpanClose
        }),
{
}

/// Result write-back ordering: every output pointer is constructed before
/// the handler is invoked; the write-back events appear only when the
/// handler succeeded, in declaration order (extra result `j`'s write is the
/// `j`-th, and the failing one, if any, ends the sequence).
pub proof fn lemma_writeback_ordering<H: Handler>(
    func: InterfaceFunction,
    ctx: CallCtx,
    h: H,
    mem: Seq<u8>,
    raws: Seq<u64>,
)
    requires
        func.wf(),
        marshal_first_bad(func, raws, mem) == func.params@.len(),
        !func.noreturn,
    ensures
        ({
            let evs = shim_events(func, ctx, h, mem, raws);
            let n = func.n_extra() as int;
            let hidx = 2 + n;
            let argsv = marshaled_args(func, raws, mem);
            let traced_len = if n > 0 {
                hidx + 2
            } else {
                hidx + 1
            };
            &&& evs[hidx] == Event::HandlerInvoked
            &&& forall|j: int| 0 <= j < n ==> #[trigger] evs[1 + j] == Event::RetPtrMade(j as usize)
            &&& (h.outcome_spec(func, argsv, mem) is Err ==> forall|i: int|
                0 <= i < evs.len() ==> !((#[trigger] evs[i]) matches Event::RetWritten(_)))
            &&& (h.outcome_spec(func, argsv, mem) is Ok ==> {
                let m1 = h.mem_after_spec(func, argsv, mem);
                let wfb = wb_first_bad(func, raws, m1);
                let k = if wfb < n {
                    wfb
                } else {
                    n
                };
                forall|j: int|
                    0 <= j < k ==> #[trigger] evs[traced_len + j] == Event::RetWritten(j as usize)
            })
        }),
{
    let evs = shim_events(func, ctx, h, mem, raws);
    let n = func.n_extra() as int;
    let argsv = marshaled_args(func, raws, mem);
    if h.outcome_spec(func, argsv, mem) is Err {
        assert forall|i: int| 0 <= i < evs.len() implies !((#[trigger] evs[i]) matches
        Event::RetWritten(_)) by {
            if 1 <= i < 1 + n {
                assert(evs[i] == Event::RetPtrMade((i - 1) as usize));
            }
        }
    }
}

} // verus!
