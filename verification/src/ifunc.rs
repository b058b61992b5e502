//! The resolved descriptor of one interface function.

use vstd::prelude::*;
use crate::shape::{TypeShape, shape_wf, slots_of, writeback_supported};

verus! {

/// A declared parameter: its name and marshaling shape.
pub struct Param {
    pub name: String,
    pub shape: TypeShape,
}

/// A declared result slot: its name and marshaling shape.
pub struct RetSlot {
    pub name: String,
    pub shape: TypeShape,
}

/// One interface function, fully resolved.
///
/// The first result, if present, is the function's declared error slot; every
/// further result is an "extra" output value returned through an output
/// pointer. A `noreturn` function never returns normally: every invocation is
/// a fatal trap, and it declares no results.
pub struct InterfaceFunction {
    /// The interface (module) this function belongs to.
    pub module: String,
    /// The function's name.
    pub name: String,
    /// Ordered declared parameters.
    pub params: Vec<Param>,
    /// Ordered declared results; index 0 is the error slot.
    pub results: Vec<RetSlot>,
    /// Set on a function that never returns normally.
    pub noreturn: bool,
}

impl InterfaceFunction {
    /// Whether the function declares an error type (its first result).
    pub open spec fn has_err(self) -> bool {
        self.results@.len() > 0
    }

    /// The number of extra results (beyond the error slot).
    pub open spec fn n_extra(self) -> nat {
        if self.results@.len() > 0 {
            (self.results@.len() - 1) as nat
        } else {
            0
        }
    }

    /// The `j`-th extra result.
    pub open spec fn extra(self, j: int) -> RetSlot {
        self.results@[j + 1]
    }

    /// Well-formedness: every shape is well-formed, a `noreturn` function
    /// declares no results, and the error slot is a value-passed checked
    /// type.
    pub open spec fn wf(self) -> bool {
        &&& forall|i: int|
            0 <= i < self.params@.len() ==> shape_wf(#[trigger] self.params@[i].shape)
        &&& forall|j: int|
            0 <= j < self.results@.len() ==> shape_wf(#[trigger] self.results@[j].shape)
        &&& (self.noreturn ==> self.results@.len() == 0)
        &&& (self.has_err() ==> self.results@[0].shape matches TypeShape::EnumOrFlagsOrInt { .. })
    }

    /// Whether every extra result has a shape the output-pointer write-back
    /// protocol supports (a fixed, statically known write size).
    pub open spec fn results_supported(self) -> bool {
        forall|j: int|
            0 <= j < self.n_extra() ==> writeback_supported(#[trigger] self.extra(j).shape)
    }

    /// The index of the first ABI slot carrying parameter `i`: the sum of
    /// the slot counts of the parameters before it.
    pub open spec fn param_slot_base(self, i: int) -> nat
        decreases i,
    {
        if i <= 0 {
            0
        } else {
            self.param_slot_base(i - 1) + slots_of(self.params@[i - 1].shape)
        }
    }

    /// The total number of ABI slots the parameters occupy.
    pub open spec fn param_slots(self) -> nat {
        self.param_slot_base(self.params@.len() as int)
    }

    /// The total number of ABI slots of one call: parameter slots, then one
    /// output-pointer slot per extra result.
    pub open spec fn total_slots(self) -> nat {
        self.param_slots() + self.n_extra()
    }
}

/// Slot bases are monotone: a later parameter never starts earlier.
pub proof fn lemma_slot_base_mono(f: InterfaceFunction, i: int, j: int)
    requires
        0 <= i <= j,
    ensures
        f.param_slot_base(i) <= f.param_slot_base(j),
    decreases j - i,
{
    if i < j {
        lemma_slot_base_mono(f, i, j - 1);
    }
}

} // verus!
