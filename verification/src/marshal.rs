//! Argument marshaling: from raw ABI words to interface-typed values.
//!
//! Marshaling runs in declaration order and stops at the first failure; a
//! failure reports which argument and which cause, and later arguments are
//! never marshaled.

use vstd::prelude::*;
use crate::shape::{ScalarType, TypeShape, shape_wf, slots_of, shape_slots};
use crate::value::{Value, ValueV, well_typed};
use crate::memory::{GuestMemory, access_ok, access_cause, bytes_at};
use crate::errors::Cause;
use crate::ifunc::{InterfaceFunction, lemma_slot_base_mono};

verus! {

/// The low 32 bits of a raw word: how a 32-bit slot reads a full word.
pub open spec fn low32(w: u64) -> u64 {
    w % 0x1_0000_0000
}

/// The signed value of the low 32 bits of a raw word.
pub open spec fn s32_of(w: u64) -> int {
    if low32(w) < 0x8000_0000 {
        low32(w) as int
    } else {
        low32(w) - 0x1_0000_0000
    }
}

/// The signed value of a full raw word.
pub open spec fn s64_of(w: u64) -> int {
    if w < 0x8000_0000_0000_0000 {
        w as int
    } else {
        w - 0x1_0000_0000_0000_0000
    }
}

/// What marshaling one value of shape `s` from raw words `w0`, `w1` (the
/// second word only used by length-delimited shapes) against memory `mem`
/// produces.
///
/// Narrow unsigned widths and checked enum/flags/int conversions admit only
/// raw words in range; narrow signed widths first reduce the word to its
/// 32-bit signed value. Strings, arrays and pointers are referenced lazily
/// with no validation; structs and unions are read eagerly with alignment
/// and bounds checks.
pub open spec fn marshal_one(s: TypeShape, w0: u64, w1: u64, mem: Seq<u8>) -> Result<
    ValueV,
    Cause,
> {
    match s {
        TypeShape::Scalar(t) => match t {
            ScalarType::U8 | ScalarType::Char8 => if w0 <= 0xFF {
                Ok(ValueV::UInt(w0))
            } else {
                Err(Cause::OutOfRange)
            },
            ScalarType::U16 => if w0 <= 0xFFFF {
                Ok(ValueV::UInt(w0))
            } else {
                Err(Cause::OutOfRange)
            },
            ScalarType::U32 | ScalarType::Size => Ok(ValueV::UInt(low32(w0))),
            ScalarType::U64 => Ok(ValueV::UInt(w0)),
            ScalarType::S8 => if -128 <= s32_of(w0) <= 127 {
                Ok(ValueV::SInt(s32_of(w0) as i64))
            } else {
                Err(Cause::OutOfRange)
            },
            ScalarType::S16 => if -32768 <= s32_of(w0) <= 32767 {
                Ok(ValueV::SInt(s32_of(w0) as i64))
            } else {
                Err(Cause::OutOfRange)
            },
            ScalarType::S32 => Ok(ValueV::SInt(s32_of(w0) as i64)),
            ScalarType::S64 => Ok(ValueV::SInt(s64_of(w0) as i64)),
            ScalarType::F32 => Ok(ValueV::FloatBits(low32(w0))),
            ScalarType::F64 => Ok(ValueV::FloatBits(w0)),
        },
        TypeShape::EnumOrFlagsOrInt { bound, size: _ } => if w0 <= bound {
            Ok(ValueV::EnumVal(w0))
        } else {
            Err(Cause::OutOfRange)
        },
        TypeShape::StringRef => Ok(ValueV::StrRef { offset: low32(w0), len: low32(w1) }),
        TypeShape::ArrayRef { .. } => Ok(ValueV::ArrRef { offset: low32(w0), len: low32(w1) }),
        TypeShape::StructByRef { size, align } => if access_ok(mem, low32(w0), size, align) {
            Ok(ValueV::StructBytes(bytes_at(mem, low32(w0), size)))
        } else {
            Err(access_cause(mem, low32(w0), size, align))
        },
        TypeShape::UnionByRef { size, align } => if access_ok(mem, low32(w0), size, align) {
            Ok(ValueV::UnionBytes(bytes_at(mem, low32(w0), size)))
        } else {
            Err(access_cause(mem, low32(w0), size, align))
        },
        TypeShape::PointerRef => Ok(ValueV::Ptr(low32(w0))),
        TypeShape::ConstPointerRef => Ok(ValueV::ConstPtr(low32(w0))),
        TypeShape::Handle => Ok(ValueV::Handle(low32(w0))),
    }
}

/// What marshaling parameter `k` of `func` produces, reading its slot(s)
/// out of `raws`.
pub open spec fn marshal_at(
    func: InterfaceFunction,
    raws: Seq<u64>,
    mem: Seq<u8>,
    k: int,
) -> Result<ValueV, Cause> {
    let base = func.param_slot_base(k) as int;
    let w0 = raws[base];
    let w1 = if slots_of(func.params@[k].shape) == 2 {
        raws[base + 1]
    } else {
        0u64
    };
    marshal_one(func.params@[k].shape, w0, w1, mem)
}

/// The first parameter index whose marshaling fails, searching from `i`;
/// the parameter count where all remaining marshal steps succeed.
pub open spec fn marshal_first_bad_from(
    func: InterfaceFunction,
    raws: Seq<u64>,
    mem: Seq<u8>,
    i: int,
) -> int
    decreases func.params@.len() - i,
{
    if i < 0 || i >= func.params@.len() {
        func.params@.len() as int
    } else if marshal_at(func, raws, mem, i) is Err {
        i
    } else {
        marshal_first_bad_from(func, raws, mem, i + 1)
    }
}

/// The first parameter index whose marshaling fails; the parameter count
/// where every parameter marshals.
pub open spec fn marshal_first_bad(func: InterfaceFunction, raws: Seq<u64>, mem: Seq<u8>) -> int {
    marshal_first_bad_from(func, raws, mem, 0)
}

/// The marshaled value of parameter `k`, on the success path.
pub open spec fn marshaled_arg(
    func: InterfaceFunction,
    raws: Seq<u64>,
    mem: Seq<u8>,
    k: int,
) -> ValueV {
    marshal_at(func, raws, mem, k)->Ok_0
}

/// The marshaled values of all parameters, on the success path.
pub open spec fn marshaled_args(func: InterfaceFunction, raws: Seq<u64>, mem: Seq<u8>) -> Seq<
    ValueV,
> {
    Seq::new(func.params@.len(), |k: int| marshaled_arg(func, raws, mem, k))
}

/// The first failing index lies between `i` and the parameter count.
pub proof fn lemma_first_bad_range(func: InterfaceFunction, raws: Seq<u64>, mem: Seq<u8>, i: int)
    requires
        0 <= i <= func.params@.len(),
    ensures
        i <= marshal_first_bad_from(func, raws, mem, i) <= func.params@.len(),
    decreases func.params@.len() - i,
{
    if i < func.params@.len() && !(marshal_at(func, raws, mem, i) is Err) {
        lemma_first_bad_range(func, raws, mem, i + 1);
    }
}

/// Searching for the first failure from `i` equals searching from the start
/// when every earlier step succeeds.
pub proof fn lemma_first_bad_skip(func: InterfaceFunction, raws: Seq<u64>, mem: Seq<u8>, i: int)
    requires
        0 <= i <= func.params@.len(),
        forall|k: int| 0 <= k < i ==> marshal_at(func, raws, mem, k) is Ok,
    ensures
        marshal_first_bad(func, raws, mem) == marshal_first_bad_from(func, raws, mem, i),
    decreases i,
{
    if i > 0 {
        lemma_first_bad_skip(func, raws, mem, i - 1);
    }
}

/// A successful marshal step yields a value of the parameter's shape.
pub proof fn lemma_marshal_well_typed(s: TypeShape, w0: u64, w1: u64, mem: Seq<u8>)
    requires
        shape_wf(s),
    ensures
        marshal_one(s, w0, w1, mem) matches Ok(v) ==> well_typed(v, s),
{
}

/// Marshals one value; the result agrees with [`marshal_one`].
pub fn marshal_one_exec(s: TypeShape, w0: u64, w1: u64, mem: &GuestMemory) -> (r: Result<
    Value,
    Cause,
>)
    requires
        shape_wf(s),
    ensures
        match r {
            Ok(v) => marshal_one(s, w0, w1, mem@) matches Ok(vv) && vv == v@,
            Err(c) => marshal_one(s, w0, w1, mem@) == Err::<ValueV, Cause>(c),
        },
{
    match s {
        TypeShape::Scalar(t) => match t {
            ScalarType::U8 | ScalarType::Char8 => if w0 <= 0xFF {
                Ok(Value::UInt(w0))
            } else {
                Err(Cause::OutOfRange)
            },
            ScalarType::U16 => if w0 <= 0xFFFF {
                Ok(Value::UInt(w0))
            } else {
                Err(Cause::OutOfRange)
            },
            ScalarType::U32 | ScalarType::Size => Ok(Value::UInt(w0 % 0x1_0000_0000)),
            ScalarType::U64 => Ok(Value::UInt(w0)),
            ScalarType::S8 => {
                let sv = reduce_s32(w0);
                if -128 <= sv && sv <= 127 {
                    Ok(Value::SInt(sv))
                } else {
                    Err(Cause::OutOfRange)
                }
            },
            ScalarType::S16 => {
                let sv = reduce_s32(w0);
                if -32768 <= sv && sv <= 32767 {
                    Ok(Value::SInt(sv))
                } else {
                    Err(Cause::OutOfRange)
                }
            },
            ScalarType::S32 => Ok(Value::SInt(reduce_s32(w0))),
            ScalarType::S64 => Ok(Value::SInt(reduce_s64(w0))),
            ScalarType::F32 => Ok(Value::FloatBits(w0 % 0x1_0000_0000)),
            ScalarType::F64 => Ok(Value::FloatBits(w0)),
        },
        TypeShape::EnumOrFlagsOrInt { bound, size: _ } => if w0 <= bound {
            Ok(Value::EnumVal(w0))
        } else {
            Err(Cause::OutOfRange)
        },
        TypeShape::StringRef => Ok(
            Value::StrRef { offset: w0 % 0x1_0000_0000, len: w1 % 0x1_0000_0000 },
        ),
        TypeShape::ArrayRef { .. } => Ok(
            Value::ArrRef { offset: w0 % 0x1_0000_0000, len: w1 % 0x1_0000_0000 },
        ),
        TypeShape::StructByRef { size, align } => match mem.checked_read(
            w0 % 0x1_0000_0000,
            size,
            align,
        ) {
            Ok(b) => Ok(Value::StructBytes(b)),
            Err(c) => Err(c),
        },
        TypeShape::UnionByRef { size, align } => match mem.checked_read(
            w0 % 0x1_0000_0000,
            size,
            align,
        ) {
            Ok(b) => Ok(Value::UnionBytes(b)),
            Err(c) => Err(c),
        },
        TypeShape::PointerRef => Ok(Value::Ptr(w0 % 0x1_0000_0000)),
        TypeShape::ConstPointerRef => Ok(Value::ConstPtr(w0 % 0x1_0000_0000)),
        TypeShape::Handle => Ok(Value::Handle(w0 % 0x1_0000_0000)),
    }
}

/// The signed value of a raw word's low 32 bits.
fn reduce_s32(w: u64) -> (s: i64)
    ensures
        s == s32_of(w),
{
    let low: u64 = w % 0x1_0000_0000;
    if low >= 0x8000_0000 {
        (low as i64) - 0x1_0000_0000
    } else {
        low as i64
    }
}

/// The signed value of a full raw word.
fn reduce_s64(w: u64) -> (s: i64)
    ensures
        s == s64_of(w),
{
    if w >= 0x8000_0000_0000_0000 {
        let m: u64 = w - 0x8000_0000_0000_0000;
        (m as i64) + i64::MIN
    } else {
        w as i64
    }
}

/// Marshals every parameter in declaration order, stopping at the first
/// failure.
///
/// On success the values agree with [`marshaled_args`] and are well-typed;
/// on failure the returned index is the first failing parameter and its
/// cause, and nothing was marshaled past it.
pub fn marshal_args(func: &InterfaceFunction, mem: &GuestMemory, raws: &Vec<u64>) -> (r: Result<
    Vec<Value>,
    (usize, Cause),
>)
    requires
        func.wf(),
        raws@.len() == func.total_slots(),
    ensures
        match r {
            Ok(args) => {
                &&& marshal_first_bad(*func, raws@, mem@) == func.params@.len()
                &&& args@.len() == func.params@.len()
                &&& forall|k: int|
                    0 <= k < args@.len() ==> #[trigger] args@[k]@ == marshaled_arg(
                        *func,
                        raws@,
                        mem@,
                        k,
                    )
                &&& forall|k: int|
                    0 <= k < args@.len() ==> well_typed(
                        #[trigger] args@[k]@,
                        func.params@[k].shape,
                    )
            },
            Err((i, c)) => {
                &&& marshal_first_bad(*func, raws@, mem@) == i < func.params@.len()
                &&& marshal_at(*func, raws@, mem@, i as int) == Err::<ValueV, Cause>(c)
            },
        },
{
    let mut args: Vec<Value> = Vec::new();
    let mut cursor: usize = 0;
    let mut i: usize = 0;
    let n = func.params.len();
    let nraws = raws.len();
    proof {
        assert(raws@.len() <= usize::MAX) by {
            assert(nraws == raws@.len());
        }
    }
    while i < n
        invariant
            func.wf(),
            raws@.len() == func.total_slots(),
            n == func.params@.len(),
            raws@.len() <= usize::MAX,
            i <= n,
            cursor == func.param_slot_base(i as int),
            args@.len() == i,
            forall|k: int| 0 <= k < i ==> marshal_at(*func, raws@, mem@, k) is Ok,
            forall|k: int|
                0 <= k < i ==> #[trigger] args@[k]@ == marshaled_arg(*func, raws@, mem@, k),
            forall|k: int|
                0 <= k < i ==> well_typed(#[trigger] args@[k]@, func.params@[k].shape),
        decreases n - i,
    {
        let shape = func.params[i].shape;
        proof {
            lemma_slot_base_mono(*func, i + 1, n as int);
            assert(func.param_slot_base(i + 1) == func.param_slot_base(i as int) + slots_of(
                func.params@[i as int].shape,
            ));
            assert(cursor + slots_of(func.params@[i as int].shape) <= raws@.len());
        }
        let nslots = shape_slots(shape);
        let w0 = raws[cursor];
        let w1 = if nslots == 2 {
            raws[cursor + 1]
        } else {
            0u64
        };
        match marshal_one_exec(shape, w0, w1, mem) {
            Ok(v) => {
                proof {
                    lemma_marshal_well_typed(shape, w0, w1, mem@);
                }
                args.push(v);
            },
            Err(c) => {
                proof {
                    lemma_first_bad_skip(*func, raws@, mem@, i as int);
                }
                return Err((i, c));
            },
        }
        cursor = cursor + nslots;
        i = i + 1;
    }
    proof {
        lemma_first_bad_skip(*func, raws@, mem@, n as int);
    }
    Ok(args)
}

} // verus!
