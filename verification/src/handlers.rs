//! Verified handlers for common host-side patterns.
//!
//! Each implements [`crate::shim::Handler`] for a family of function
//! descriptors; they double as reference implementations of the trait's
//! contract.

use vstd::prelude::*;
use crate::shape::{ScalarType, TypeShape};
use crate::value::{Value, ValueV, views_of, dup_values};
use crate::memory::GuestMemory;
use crate::ifunc::InterfaceFunction;
use crate::shim::Handler;

verus! {

/// A handler that replies with a fixed outcome, ignoring its arguments and
/// never touching guest memory.
pub struct FixedHandler {
    /// The outcome of every invocation.
    pub outcome: Result<Vec<Value>, u64>,
}

impl Handler for FixedHandler {
    /// Serves any function whose extra results the fixed values inhabit; a
    /// fixed error serves any function with a declared error type.
    open spec fn serves(&self, func: InterfaceFunction) -> bool {
        match self.outcome {
            Ok(vals) => {
                &&& vals@.len() == func.n_extra()
                &&& forall|j: int|
                    0 <= j < vals@.len() ==> crate::value::well_typed(
                        #[trigger] vals@[j]@,
                        func.extra(j).shape,
                    )
            },
            Err(_) => func.has_err(),
        }
    }

    open spec fn outcome_spec(
        &self,
        func: InterfaceFunction,
        args: Seq<ValueV>,
        mem: Seq<u8>,
    ) -> Result<Seq<ValueV>, u64> {
        match self.outcome {
            Ok(vals) => Ok(views_of(vals@)),
            Err(e) => Err(e),
        }
    }

    open spec fn mem_after_spec(
        &self,
        func: InterfaceFunction,
        args: Seq<ValueV>,
        mem: Seq<u8>,
    ) -> Seq<u8> {
        mem
    }

    fn invoke(&self, func: &InterfaceFunction, mem: &mut GuestMemory, args: &Vec<Value>) -> (r:
        Result<Vec<Value>, u64>) {
        match &self.outcome {
            Ok(vals) => Ok(dup_values(vals)),
            Err(e) => Err(*e),
        }
    }
}

/// A handler holding a byte table: it looks its single `u32` argument up and
/// returns the stored byte as the one extra result, or a fixed miss error.
pub struct TableHandler {
    /// The stored bytes.
    pub data: Vec<u8>,
    /// The domain error an out-of-table index reports.
    pub miss: u64,
}

impl Handler for TableHandler {
    /// Serves a function `(u32) -> (err, u8)`.
    open spec fn serves(&self, func: InterfaceFunction) -> bool {
        &&& func.params@.len() == 1
        &&& func.params@[0].shape == TypeShape::Scalar(ScalarType::U32)
        &&& func.results@.len() == 2
        &&& func.extra(0).shape == TypeShape::Scalar(ScalarType::U8)
    }

    open spec fn outcome_spec(
        &self,
        func: InterfaceFunction,
        args: Seq<ValueV>,
        mem: Seq<u8>,
    ) -> Result<Seq<ValueV>, u64> {
        if args.len() == 1 {
            match args[0] {
                ValueV::UInt(i) => if i < self.data@.len() {
                    Ok(seq![ValueV::UInt(self.data@[i as int] as u64)])
                } else {
                    Err(self.miss)
                },
                _ => Err(self.miss),
            }
        } else {
            Err(self.miss)
        }
    }

    open spec fn mem_after_spec(
        &self,
        func: InterfaceFunction,
        args: Seq<ValueV>,
        mem: Seq<u8>,
    ) -> Seq<u8> {
        mem
    }

    fn invoke(&self, func: &InterfaceFunction, mem: &mut GuestMemory, args: &Vec<Value>) -> (r:
        Result<Vec<Value>, u64>) {
        match &args[0] {
            Value::UInt(i) => {
                if *i < self.data.len() as u64 {
                    let b = self.data[*i as usize];
                    let out = vec![Value::UInt(b as u64)];
                    proof {
                        assert(views_of(out@) =~= seq![ValueV::UInt(self.data@[*i as int] as u64)]);
                    }
                    Ok(out)
                } else {
                    Err(self.miss)
                }
            },
            _ => Err(self.miss),
        }
    }
}

/// A handler that probes its single array-shaped argument: it succeeds with
/// no extra results where the referenced run lies inside guest memory, and
/// reports a domain error where any part of it is out of bounds — the
/// lazily constructed reference fails at first use, on the handler's own
/// error path.
pub struct ArrayReadHandler {
    /// The domain error an out-of-bounds read reports.
    pub err_code: u64,
}

impl Handler for ArrayReadHandler {
    /// Serves a function `(array) -> (err)` with no extra results.
    open spec fn serves(&self, func: InterfaceFunction) -> bool {
        &&& func.params@.len() == 1
        &&& func.params@[0].shape matches TypeShape::ArrayRef { .. }
        &&& func.results@.len() == 1
    }

    open spec fn outcome_spec(
        &self,
        func: InterfaceFunction,
        args: Seq<ValueV>,
        mem: Seq<u8>,
    ) -> Result<Seq<ValueV>, u64> {
        if args.len() == 1 {
            match (args[0], func.params@[0].shape) {
                (
                    ValueV::ArrRef { offset, len },
                    TypeShape::ArrayRef { elem_size },
                ) => if offset + len * elem_size <= mem.len() {
                    Ok(Seq::empty())
                } else {
                    Err(self.err_code)
                },
                _ => Err(self.err_code),
            }
        } else {
            Err(self.err_code)
        }
    }

    open spec fn mem_after_spec(
        &self,
        func: InterfaceFunction,
        args: Seq<ValueV>,
        mem: Seq<u8>,
    ) -> Seq<u8> {
        mem
    }

    fn invoke(&self, func: &InterfaceFunction, mem: &mut GuestMemory, args: &Vec<Value>) -> (r:
        Result<Vec<Value>, u64>) {
        match &args[0] {
            Value::ArrRef { offset, len } => {
                let elem_size: u64 = match func.params[0].shape {
                    TypeShape::ArrayRef { elem_size } => elem_size,
                    _ => {
                        proof {
                            assert(false);
                        }
                        1
                    },
                };
                proof {
                    assert(crate::value::well_typed(args@[0]@, func.params@[0].shape));
                    assert(crate::shape::shape_wf(func.params@[0].shape));
                    assert((*len as int) * (elem_size as int) <= 0xFFFF_FFFF * 0x1_0000_0000)
                        by (nonlinear_arith)
                        requires
                            *len <= 0xFFFF_FFFFu64,
                            elem_size <= 0x1_0000_0000u64,
                    ;
                }
                let need: u128 = (*offset as u128) + (*len as u128) * (elem_size as u128);
                if need <= mem.size() as u128 {
                    let out: Vec<Value> = Vec::new();
                    proof {
                        assert(views_of(out@) =~= Seq::<ValueV>::empty());
                    }
                    Ok(out)
                } else {
                    Err(self.err_code)
                }
            },
            _ => Err(self.err_code),
        }
    }
}

} // verus!
