//! The shim: one call across the ABI boundary, assembled in a fixed order.
//!
//! Per call: open the instrumentation span; marshal arguments in order;
//! construct the extra results' output pointers; emit the argument-trace
//! event; invoke the handler; on success trace and write back the extra
//! results in order and encode the canonical success value; on handler
//! failure convert through the user-error path. Every failure with no
//! declared error type to carry it, and every return of a `noreturn`
//! function, is a fatal trap. The span closes on every exit.

use vstd::prelude::*;
use crate::shape::{write_layout, shape_write_layout};
use crate::value::{Value, ValueV, views_of, well_typed};
use crate::memory::GuestMemory;
use crate::errors::{Location, GuestError, Trap, CallCtx, guest_code, user_code, convert_guest, convert_user};
use crate::ifunc::InterfaceFunction;
use crate::marshal::{marshal_at, marshal_first_bad, marshaled_args, marshal_args};
use crate::writeback::{ret_ptr, wb_ok, wb_cause, wb_first_bad, lemma_wb_first_bad_skip, wb_mem_upto, encode_value_exec};

verus! {

/// One observable step of a call, in the order it happened.
#[derive(Clone, Copy, PartialEq, Eq, Structural, Debug)]
pub enum Event {
    /// The instrumentation span opened.
    SpanOpen,
    /// The output pointer of extra result `j` was constructed (pre-call).
    RetPtrMade(usize),
    /// The single argument-trace event, after all arguments marshaled.
    ArgsTraced,
    /// The handler was invoked.
    HandlerInvoked,
    /// The extra return values were traced, on handler success.
    RetsTraced,
    /// Extra result `j` was written through its output pointer.
    RetWritten(usize),
    /// The write of extra result `j` failed validation.
    RetWriteFailed(usize),
    /// The converted handler error was traced.
    ErrTraced,
    /// The canonical success value was traced.
    SuccessTraced,
    /// The instrumentation span closed.
    SpanClose,
}

/// The ABI-visible outcome of a call, abstractly: an encoded error-slot
/// word, no word (for a function with no results), or a fatal trap.
pub enum AbiSpec {
    /// The call returned the declared error type's word.
    Code(u64),
    /// The call returned with no error slot declared.
    NoCode,
    /// A validation failure with no declared error type to carry it.
    TrapUnrecoverable,
    /// A `noreturn` function's handler came back.
    TrapNoReturn,
    /// A handler error with no registered conversion entry.
    TrapUnmappedUser(u64),
}

/// The host-side handler of interface functions, implemented by the user of
/// the generated shims. Its outcome and its effect on guest memory are
/// functions of the marshaled arguments and the memory it was handed.
pub trait Handler {
    /// Which function descriptors this handler implements.
    spec fn serves(&self, func: InterfaceFunction) -> bool;

    /// The outcome of an invocation: the extra result values, or a domain
    /// error.
    spec fn outcome_spec(&self, func: InterfaceFunction, args: Seq<ValueV>, mem: Seq<u8>) -> Result<
        Seq<ValueV>,
        u64,
    >;

    /// The guest memory after an invocation.
    spec fn mem_after_spec(
        &self,
        func: InterfaceFunction,
        args: Seq<ValueV>,
        mem: Seq<u8>,
    ) -> Seq<u8>;

    /// Invokes the handler on marshaled, well-typed arguments. It may read
    /// and write guest memory but never resizes it; on success it returns
    /// one well-typed value per extra result, and it reports a domain error
    /// only where the function declares an error type.
    fn invoke(&self, func: &InterfaceFunction, mem: &mut GuestMemory, args: &Vec<Value>) -> (r:
        Result<Vec<Value>, u64>)
        requires
            func.wf(),
            self.serves(*func),
            args@.len() == func.params@.len(),
            forall|k: int|
                0 <= k < args@.len() ==> well_typed(
                    #[trigger] args@[k]@,
                    func.params@[k].shape,
                ),
        ensures
            final(mem)@.len() == old(mem)@.len(),
            final(mem)@ == self.mem_after_spec(*func, views_of(args@), old(mem)@),
            match r {
                Ok(vals) => {
                    &&& self.outcome_spec(*func, views_of(args@), old(mem)@) matches Ok(vs) && vs
                        == views_of(vals@)
                    &&& vals@.len() == func.n_extra()
                    &&& forall|j: int|
                        0 <= j < vals@.len() ==> well_typed(
                            #[trigger] vals@[j]@,
                            func.extra(j).shape,
                        )
                },
                Err(e) => {
                    &&& self.outcome_spec(*func, views_of(args@), old(mem)@) == Err::<
                        Seq<ValueV>,
                        u64,
                    >(e)
                    &&& func.has_err()
                },
            },
    ;
}

/// What one call returns, and every observable step it took.
pub struct CallOutcome {
    /// The ABI return: the error-slot word (or nothing, for a function with
    /// no results), or a fatal trap.
    pub abi: Result<Option<u64>, Trap>,
    /// The call's observable steps, in order.
    pub events: Vec<Event>,
}

/// The pre-call pointer-construction events, one per extra result.
pub open spec fn ret_ptr_events(n: nat) -> Seq<Event> {
    Seq::new(n, |k: int| Event::RetPtrMade(k as usize))
}

/// The write-back events of the first `n` extra results.
pub open spec fn written_events(n: nat) -> Seq<Event> {
    Seq::new(n, |k: int| Event::RetWritten(k as usize))
}

/// The abstract ABI outcome of one call.
pub open spec fn shim_abi<H: Handler>(
    func: InterfaceFunction,
    ctx: CallCtx,
    h: H,
    mem: Seq<u8>,
    raws: Seq<u64>,
) -> AbiSpec {
    let fb = marshal_first_bad(func, raws, mem);
    if fb < func.params@.len() {
        let cause = marshal_at(func, raws, mem, fb)->Err_0;
        if func.has_err() {
            AbiSpec::Code(guest_code(ctx.guest, cause))
        } else {
            AbiSpec::TrapUnrecoverable
        }
    } else if func.noreturn {
        AbiSpec::TrapNoReturn
    } else {
        let argsv = marshaled_args(func, raws, mem);
        match h.outcome_spec(func, argsv, mem) {
            Err(e) => match user_code(ctx, e) {
                Some(c) => AbiSpec::Code(c),
                None => AbiSpec::TrapUnmappedUser(e),
            },
            Ok(_) => {
                let m1 = h.mem_after_spec(func, argsv, mem);
                let wfb = wb_first_bad(func, raws, m1);
                if wfb < func.n_extra() {
                    AbiSpec::Code(guest_code(ctx.guest, wb_cause(func, raws, m1, wfb)))
                } else if func.has_err() {
                    AbiSpec::Code(ctx.success)
                } else {
                    AbiSpec::NoCode
                }
            },
        }
    }
}

/// The guest memory after one call: untouched if marshaling failed, the
/// handler's effect, then the write-backs that ran.
pub open spec fn shim_mem<H: Handler>(
    func: InterfaceFunction,
    ctx: CallCtx,
    h: H,
    mem: Seq<u8>,
    raws: Seq<u64>,
) -> Seq<u8> {
    let fb = marshal_first_bad(func, raws, mem);
    if fb < func.params@.len() {
        mem
    } else {
        let argsv = marshaled_args(func, raws, mem);
        let m1 = h.mem_after_spec(func, argsv, mem);
        if func.noreturn {
            m1
        } else {
            match h.outcome_spec(func, argsv, mem) {
                Err(_) => m1,
                Ok(rvals) => {
                    let wfb = wb_first_bad(func, raws, m1);
                    if wfb < func.n_extra() {
                        wb_mem_upto(func, raws, rvals, m1, wfb)
                    } else {
                        wb_mem_upto(func, raws, rvals, m1, func.n_extra() as int)
                    }
                },
            }
        }
    }
}

/// The full event trace of one call.
pub open spec fn shim_events<H: Handler>(
    func: InterfaceFunction,
    ctx: CallCtx,
    h: H,
    mem: Seq<u8>,
    raws: Seq<u64>,
) -> Seq<Event> {
    let fb = marshal_first_bad(func, raws, mem);
    if fb < func.params@.len() {
        seq![Event::SpanOpen, Event::SpanClose]
    } else if func.noreturn {
        seq![Event::SpanOpen, Event::ArgsTraced, Event::HandlerInvoked, Event::SpanClose]
    } else {
        let argsv = marshaled_args(func, raws, mem);
        let n = func.n_extra();
        let prefix = seq![Event::SpanOpen] + ret_ptr_events(n) + seq![
            Event::ArgsTraced,
            Event::HandlerInvoked,
        ];
        match h.outcome_spec(func, argsv, mem) {
            Err(_) => prefix + seq![Event::ErrTraced, Event::SpanClose],
            Ok(_) => {
                let m1 = h.mem_after_spec(func, argsv, mem);
                let wfb = wb_first_bad(func, raws, m1);
                let traced = if n > 0 {
                    prefix + seq![Event::RetsTraced]
                } else {
                    prefix
                };
                if wfb < n {
                    traced + written_events(wfb as nat) + seq![
                        Event::RetWriteFailed(wfb as usize),
                        Event::SpanClose,
                    ]
                } else if func.has_err() {
                    traced + written_events(n) + seq![Event::SuccessTraced, Event::SpanClose]
                } else {
                    traced + written_events(n) + seq![Event::SpanClose]
                }
            },
        }
    }
}

/// Runs one call of `func` through the shim.
///
/// The outcome, the final guest memory and the event trace are exactly
/// [`shim_abi`], [`shim_mem`] and [`shim_events`]; a trap's diagnostic
/// carries the function name and the failing argument's name; a `noreturn`
/// function never returns without a trap.
#[verifier::loop_isolation(false)]
#[verifier::rlimit(100)]
pub fn run_shim<H: Handler>(
    func: &InterfaceFunction,
    ctx: &CallCtx,
    handler: &H,
    mem: &mut GuestMemory,
    raws: &Vec<u64>,
) -> (out: CallOutcome)
    requires
        func.wf(),
        handler.serves(*func),
        raws@.len() == func.total_slots(),
        func.results_supported(),
    ensures
        final(mem)@ == shim_mem(*func, *ctx, *handler, old(mem)@, raws@),
        final(mem)@.len() == old(mem)@.len(),
        out.events@ == shim_events(*func, *ctx, *handler, old(mem)@, raws@),
        ({
            let fb = marshal_first_bad(*func, raws@, old(mem)@);
            match shim_abi(*func, *ctx, *handler, old(mem)@, raws@) {
                AbiSpec::Code(c) => out.abi matches Ok(x) && x matches Some(c2) && c2 == c,
                AbiSpec::NoCode => out.abi matches Ok(x) && x is None,
                AbiSpec::TrapNoReturn => out.abi matches Err(t) && t is NoReturn,
                AbiSpec::TrapUnmappedUser(e) => out.abi matches Err(t) && (t matches
                    Trap::UnmappedUserError(e2) && e2 == e),
                AbiSpec::TrapUnrecoverable => out.abi matches Err(t) && (t matches
                    Trap::Unrecoverable(ge) && ge.cause == marshal_at(
                    *func,
                    raws@,
                    old(mem)@,
                    fb,
                )->Err_0 && ge.funcname@ == func.name@ && (ge.location matches Location::Arg(nm)
                    && nm@ == func.params@[fb].name@)),
            }
        }),
        func.noreturn ==> out.abi is Err,
{
    let ghost m0 = mem@;
    let mut events: Vec<Event> = Vec::new();
    events.push(Event::SpanOpen);
    let args = match marshal_args(func, mem, raws) {
        Ok(a) => a,
        Err((i, c)) => {
            events.push(Event::SpanClose);
            assert(events@ =~= seq![Event::SpanOpen, Event::SpanClose]);
            let ge = GuestError {
                funcname: func.name.clone(),
                location: Location::Arg(func.params[i].name.clone()),
                cause: c,
            };
            if func.results.len() > 0 {
                let code = convert_guest(ctx, &ge);
                return CallOutcome { abi: Ok(Some(code)), events };
            } else {
                return CallOutcome { abi: Err(Trap::Unrecoverable(ge)), events };
            }
        },
    };
    proof {
        assert(views_of(args@) =~= marshaled_args(*func, raws@, m0));
    }
    let n_extra: usize = if func.results.len() > 0 {
        func.results.len() - 1
    } else {
        0
    };
    let base: usize = raws.len() - n_extra;
    let mut ptrs: Vec<u64> = Vec::new();
    let mut j: usize = 0;
    while j < n_extra
        invariant
            j <= n_extra,
            n_extra == func.n_extra(),
            base == func.param_slots(),
            base + n_extra == raws@.len(),
            raws@.len() <= usize::MAX,
            ptrs@.len() == j,
            forall|k: int| 0 <= k < j ==> ptrs@[k] == ret_ptr(*func, raws@, k),
            events@ == seq![Event::SpanOpen] + ret_ptr_events(j as nat),
        decreases n_extra - j,
    {
        ptrs.push(raws[base + j] % 0x1_0000_0000);
        events.push(Event::RetPtrMade(j));
        j = j + 1;
        proof {
            assert(events@ =~= seq![Event::SpanOpen] + ret_ptr_events(j as nat));
        }
    }
    events.push(Event::ArgsTraced);
    events.push(Event::HandlerInvoked);
    let ghost prefix = seq![Event::SpanOpen] + ret_ptr_events(func.n_extra()) + seq![
        Event::ArgsTraced,
        Event::HandlerInvoked,
    ];
    proof {
        assert(events@ =~= prefix);
    }
    let outcome = handler.invoke(func, mem, &args);
    let ghost m1 = mem@;
    if func.noreturn {
        events.push(Event::SpanClose);
        proof {
            assert(ret_ptr_events(0) =~= Seq::<Event>::empty());
            assert(events@ =~= seq![
                Event::SpanOpen,
                Event::ArgsTraced,
                Event::HandlerInvoked,
                Event::SpanClose,
            ]);
        }
        return CallOutcome { abi: Err(Trap::NoReturn), events };
    }
    match outcome {
        Err(e) => {
            let r = convert_user(ctx, e);
            events.push(Event::ErrTraced);
            events.push(Event::SpanClose);
            proof {
                assert(events@ =~= prefix + seq![Event::ErrTraced, Event::SpanClose]);
            }
            match r {
                Ok(code) => CallOutcome { abi: Ok(Some(code)), events },
                Err(t) => CallOutcome { abi: Err(t), events },
            }
        },
        Ok(rvals) => {
            let ghost rv = views_of(rvals@);
            if n_extra > 0 {
                events.push(Event::RetsTraced);
            }
            let ghost traced = if func.n_extra() > 0 {
                prefix + seq![Event::RetsTraced]
            } else {
                prefix
            };
            proof {
                assert(events@ =~= traced);
            }
            let mut j: usize = 0;
            while j < n_extra
                invariant
                    func.wf(),
                    func.results_supported(),
                    !func.noreturn,
                    j <= n_extra,
                    n_extra == func.n_extra(),
                    raws@.len() == func.total_slots(),
                    ptrs@.len() == n_extra,
                    forall|k: int| 0 <= k < n_extra ==> ptrs@[k] == ret_ptr(*func, raws@, k),
                    rvals@.len() == n_extra,
                    rv == views_of(rvals@),
                    forall|k: int|
                        0 <= k < n_extra ==> well_typed(
                            #[trigger] rvals@[k]@,
                            func.extra(k).shape,
                        ),
                    m1.len() == mem@.len(),
                    forall|k: int| 0 <= k < j ==> wb_ok(*func, raws@, m1, k),
                    mem@ == wb_mem_upto(*func, raws@, rv, m1, j as int),
                    events@ == traced + written_events(j as nat),
                decreases n_extra - j,
            {
                let shape = func.results[j + 1].shape;
                let (sz, al) = match shape_write_layout(shape) {
                    Some(l) => l,
                    None => {
                        proof {
                            assert(write_layout(func.extra(j as int).shape) is Some);
                            assert(false);
                        }
                        (0u64, 1u64)
                    },
                };
                let bytes = encode_value_exec(&rvals[j], shape);
                match mem.checked_write(ptrs[j], &bytes, al) {
                    Ok(()) => {
                        events.push(Event::RetWritten(j));
                        j = j + 1;
                        proof {
                            assert(wb_ok(*func, raws@, m1, j - 1));
                            assert(mem@ == wb_mem_upto(*func, raws@, rv, m1, j as int));
                            assert(events@ =~= traced + written_events(j as nat));
                        }
                    },
                    Err(c) => {
                        events.push(Event::RetWriteFailed(j));
                        events.push(Event::SpanClose);
                        proof {
                            assert(!wb_ok(*func, raws@, m1, j as int));
                            lemma_wb_first_bad_skip(*func, raws@, m1, j as int);
                            assert(wb_first_bad(*func, raws@, m1) == j);
                            assert(c == wb_cause(*func, raws@, m1, j as int));
                            assert(events@ =~= traced + written_events(j as nat) + seq![
                                Event::RetWriteFailed(j),
                                Event::SpanClose,
                            ]);
                        }
                        let ge = GuestError {
                            funcname: func.name.clone(),
                            location: Location::RetPtr(func.results[j + 1].name.clone()),
                            cause: c,
                        };
                        let code = convert_guest(ctx, &ge);
                        return CallOutcome { abi: Ok(Some(code)), events };
                    },
                }
            }
            proof {
                lemma_wb_first_bad_skip(*func, raws@, m1, n_extra as int);
                assert(wb_first_bad(*func, raws@, m1) == func.n_extra());
            }
            if func.results.len() > 0 {
                events.push(Event::SuccessTraced);
                events.push(Event::SpanClose);
                proof {
                    assert(events@ =~= traced + written_events(func.n_extra()) + seq![
                        Event::SuccessTraced,
                        Event::SpanClose,
                    ]);
                }
                CallOutcome { abi: Ok(Some(ctx.success)), events }
            } else {
                events.push(Event::SpanClose);
                proof {
                    assert(events@ =~= traced + written_events(func.n_extra()) + seq![
                        Event::SpanClose,
                    ]);
                }
                CallOutcome { abi: Ok(None), events }
            }
        },
    }
}

} // verus!
