//! Interface-typed values as the shim and the handler exchange them.

use vstd::prelude::*;
use crate::shape::{ScalarType, TypeShape};

verus! {

/// A typed value crossing the handler boundary.
///
/// References into guest memory (strings, arrays, pointers) are plain offsets
/// and lengths: they perform no access until read or written through.
#[derive(Debug)]
pub enum Value {
    /// An unsigned scalar, zero-extended to the full word.
    UInt(u64),
    /// A signed scalar, sign-extended to the full word.
    SInt(i64),
    /// A float, carried as its raw bit pattern.
    FloatBits(u64),
    /// A checked enum, flags or bounded-int value.
    EnumVal(u64),
    /// A lazily referenced UTF-8 byte range.
    StrRef { offset: u64, len: u64 },
    /// A lazily referenced element run.
    ArrRef { offset: u64, len: u64 },
    /// A struct read eagerly out of guest memory.
    StructBytes(Vec<u8>),
    /// A union read eagerly out of guest memory.
    UnionBytes(Vec<u8>),
    /// An addressable reference, not dereferenced by the shim.
    Ptr(u64),
    /// An addressable read-only reference.
    ConstPtr(u64),
    /// An opaque host-resource identifier.
    Handle(u64),
}

/// The mathematical model of a [`Value`].
pub enum ValueV {
    UInt(u64),
    SInt(i64),
    FloatBits(u64),
    EnumVal(u64),
    StrRef { offset: u64, len: u64 },
    ArrRef { offset: u64, len: u64 },
    StructBytes(Seq<u8>),
    UnionBytes(Seq<u8>),
    Ptr(u64),
    ConstPtr(u64),
    Handle(u64),
}

impl View for Value {
    type V = ValueV;

    open spec fn view(&self) -> ValueV {
        match self {
            Value::UInt(w) => ValueV::UInt(*w),
            Value::SInt(s) => ValueV::SInt(*s),
            Value::FloatBits(w) => ValueV::FloatBits(*w),
            Value::EnumVal(w) => ValueV::EnumVal(*w),
            Value::StrRef { offset, len } => ValueV::StrRef { offset: *offset, len: *len },
            Value::ArrRef { offset, len } => ValueV::ArrRef { offset: *offset, len: *len },
            Value::StructBytes(b) => ValueV::StructBytes(b@),
            Value::UnionBytes(b) => ValueV::UnionBytes(b@),
            Value::Ptr(o) => ValueV::Ptr(*o),
            Value::ConstPtr(o) => ValueV::ConstPtr(*o),
            Value::Handle(h) => ValueV::Handle(*h),
        }
    }
}

/// The models of a sequence of values.
pub open spec fn views_of(s: Seq<Value>) -> Seq<ValueV> {
    s.map_values(|v: Value| v@)
}

/// Whether a value inhabits a shape: the constructor matches and the payload
/// is within the shape's representable range.
pub open spec fn well_typed(v: ValueV, s: TypeShape) -> bool {
    match (v, s) {
        (ValueV::UInt(w), TypeShape::Scalar(t)) => match t {
            ScalarType::U8 => w <= 0xFF,
            ScalarType::Char8 => w <= 0xFF,
            ScalarType::U16 => w <= 0xFFFF,
            ScalarType::U32 => w <= 0xFFFF_FFFF,
            ScalarType::Size => w <= 0xFFFF_FFFF,
            ScalarType::U64 => true,
            _ => false,
        },
        (ValueV::SInt(x), TypeShape::Scalar(t)) => match t {
            ScalarType::S8 => -128 <= x <= 127,
            ScalarType::S16 => -32768 <= x <= 32767,
            ScalarType::S32 => -0x8000_0000 <= x <= 0x7FFF_FFFF,
            ScalarType::S64 => true,
            _ => false,
        },
        (ValueV::FloatBits(w), TypeShape::Scalar(t)) => match t {
            ScalarType::F32 => w <= 0xFFFF_FFFF,
            ScalarType::F64 => true,
            _ => false,
        },
        (ValueV::EnumVal(w), TypeShape::EnumOrFlagsOrInt { bound, size: _ }) => w <= bound,
        (ValueV::StrRef { offset, len }, TypeShape::StringRef) => {
            offset <= 0xFFFF_FFFF && len <= 0xFFFF_FFFF
        },
        (ValueV::ArrRef { offset, len }, TypeShape::ArrayRef { .. }) => {
            offset <= 0xFFFF_FFFF && len <= 0xFFFF_FFFF
        },
        (ValueV::StructBytes(b), TypeShape::StructByRef { size, align: _ }) => b.len() == size,
        (ValueV::UnionBytes(b), TypeShape::UnionByRef { size, align: _ }) => b.len() == size,
        (ValueV::Ptr(o), TypeShape::PointerRef) => o <= 0xFFFF_FFFF,
        (ValueV::ConstPtr(o), TypeShape::ConstPointerRef) => o <= 0xFFFF_FFFF,
        (ValueV::Handle(h), TypeShape::Handle) => h <= 0xFFFF_FFFF,
        _ => false,
    }
}

/// Copies a byte vector.
pub fn copy_bytes(b: &Vec<u8>) -> (r: Vec<u8>)
    ensures
        r@ == b@,
{
    let mut r: Vec<u8> = Vec::new();
    let mut i: usize = 0;
    while i < b.len()
        invariant
            i <= b@.len(),
            r@ == b@.subrange(0, i as int),
        decreases b@.len() - i,
    {
        r.push(b[i]);
        i = i + 1;
        assert(r@ =~= b@.subrange(0, i as int));
    }
    assert(r@ =~= b@);
    r
}

/// Duplicates a value; the copy has the same model.
pub fn dup_value(v: &Value) -> (r: Value)
    ensures
        r@ == v@,
{
    match v {
        Value::UInt(w) => Value::UInt(*w),
        Value::SInt(s) => Value::SInt(*s),
        Value::FloatBits(w) => Value::FloatBits(*w),
        Value::EnumVal(w) => Value::EnumVal(*w),
        Value::StrRef { offset, len } => Value::StrRef { offset: *offset, len: *len },
        Value::ArrRef { offset, len } => Value::ArrRef { offset: *offset, len: *len },
        Value::StructBytes(b) => Value::StructBytes(copy_bytes(b)),
        Value::UnionBytes(b) => Value::UnionBytes(copy_bytes(b)),
        Value::Ptr(o) => Value::Ptr(*o),
        Value::ConstPtr(o) => Value::ConstPtr(*o),
        Value::Handle(h) => Value::Handle(*h),
    }
}

/// Duplicates a value vector; the copy has the same models.
pub fn dup_values(vs: &Vec<Value>) -> (r: Vec<Value>)
    ensures
        views_of(r@) == views_of(vs@),
        r@.len() == vs@.len(),
        forall|k: int| 0 <= k < vs@.len() ==> r@[k]@ == vs@[k]@,
{
    let mut r: Vec<Value> = Vec::new();
    let mut i: usize = 0;
    while i < vs.len()
        invariant
            i <= vs@.len(),
            r@.len() == i,
            forall|k: int| 0 <= k < i ==> r@[k]@ == vs@[k]@,
        decreases vs@.len() - i,
    {
        r.push(dup_value(&vs[i]));
        i = i + 1;
    }
    assert(views_of(r@) =~= views_of(vs@));
    r
}

} // verus!
