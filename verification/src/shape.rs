//! The closed set of marshaling shapes an interface type can take.
//!
//! A shape determines how many core ABI slots a value occupies (one word, or
//! two for length-delimited shapes), whether the raw word needs a checked
//! narrowing conversion, and whether a guest-memory access is required before
//! the value is usable.

use vstd::prelude::*;

verus! {

/// A scalar passed by value in a single ABI slot.
///
/// Widths of 8 and 16 bits travel zero- or sign-extended in a full word and
/// are narrowed by a checked conversion; 32/64-bit widths, the size type and
/// both float widths are reinterpreted directly.
#[derive(Clone, Copy, PartialEq, Eq, Structural, Debug)]
pub enum ScalarType {
    U8,
    U16,
    U32,
    U64,
    S8,
    S16,
    S32,
    S64,
    /// The guest's size type; 32 bits wide on the wire.
    Size,
    /// A single-byte character; narrowed like `U8`.
    Char8,
    /// A 32-bit float carried as its raw bit pattern.
    F32,
    /// A 64-bit float carried as its raw bit pattern.
    F64,
}

/// The closed classification of an interface type.
#[derive(Clone, Copy, PartialEq, Eq, Structural, Debug)]
pub enum TypeShape {
    /// A scalar passed by value.
    Scalar(ScalarType),
    /// An enum, flags set or bounded-int newtype: narrower than the ABI word,
    /// converted by a checked narrowing that admits raw words up to `bound`
    /// and is written back in `size` bytes.
    EnumOrFlagsOrInt { bound: u64, size: u64 },
    /// Two slots (offset, length) denoting a UTF-8 byte range; referenced
    /// lazily, never read at marshal time.
    StringRef,
    /// Two slots (offset, length) denoting a contiguous run of elements of
    /// `elem_size` bytes each; referenced lazily.
    ArrayRef { elem_size: u64 },
    /// One offset slot; the full `size`-byte value is read eagerly from guest
    /// memory at `align`-aligned offsets.
    StructByRef { size: u64, align: u64 },
    /// One offset slot; read eagerly, like a struct.
    UnionByRef { size: u64, align: u64 },
    /// One offset slot; an addressable reference, never dereferenced here.
    PointerRef,
    /// One offset slot; an addressable read-only reference.
    ConstPointerRef,
    /// One slot holding an opaque host-resource identifier.
    Handle,
}

/// Size in bytes of a scalar when written to guest memory.
pub open spec fn scalar_size(t: ScalarType) -> u64 {
    match t {
        ScalarType::U8 => 1,
        ScalarType::U16 => 2,
        ScalarType::U32 => 4,
        ScalarType::U64 => 8,
        ScalarType::S8 => 1,
        ScalarType::S16 => 2,
        ScalarType::S32 => 4,
        ScalarType::S64 => 8,
        ScalarType::Size => 4,
        ScalarType::Char8 => 1,
        ScalarType::F32 => 4,
        ScalarType::F64 => 8,
    }
}

/// The largest value representable in `size` bytes, for the sizes a narrow
/// conversion can target.
pub open spec fn unsigned_max(size: u64) -> u64 {
    if size == 1 {
        0xFF
    } else if size == 2 {
        0xFFFF
    } else if size == 4 {
        0xFFFF_FFFF
    } else {
        0xFFFF_FFFF_FFFF_FFFF
    }
}

/// Well-formedness of a shape: sizes are positive and fit the 32-bit guest
/// address space, alignments are powers of two up to eight, and a checked
/// narrowing bound is representable in its write-back size.
pub open spec fn shape_wf(s: TypeShape) -> bool {
    match s {
        TypeShape::Scalar(_) => true,
        TypeShape::EnumOrFlagsOrInt { bound, size } => {
            (size == 1 || size == 2 || size == 4 || size == 8) && bound <= unsigned_max(size)
        },
        TypeShape::StringRef => true,
        TypeShape::ArrayRef { elem_size } => 1 <= elem_size <= 0x1_0000_0000,
        TypeShape::StructByRef { size, align } => {
            1 <= size <= 0x1_0000_0000 && (align == 1 || align == 2 || align == 4 || align == 8)
        },
        TypeShape::UnionByRef { size, align } => {
            1 <= size <= 0x1_0000_0000 && (align == 1 || align == 2 || align == 4 || align == 8)
        },
        TypeShape::PointerRef => true,
        TypeShape::ConstPointerRef => true,
        TypeShape::Handle => true,
    }
}

/// How many core ABI slots a value of this shape occupies.
pub open spec fn slots_of(s: TypeShape) -> nat {
    match s {
        TypeShape::StringRef => 2,
        TypeShape::ArrayRef { .. } => 2,
        _ => 1,
    }
}

/// Executable slot count.
pub fn shape_slots(s: TypeShape) -> (n: usize)
    ensures
        n == slots_of(s),
{
    match s {
        TypeShape::StringRef => 2,
        TypeShape::ArrayRef { .. } => 2,
        _ => 1,
    }
}

/// The fixed write size and alignment of a shape that the output-pointer
/// write-back protocol supports, or `None` where the size is not statically
/// known (strings, arrays, pointers).
pub open spec fn write_layout(s: TypeShape) -> Option<(u64, u64)> {
    match s {
        TypeShape::Scalar(t) => Some((scalar_size(t), scalar_size(t))),
        TypeShape::EnumOrFlagsOrInt { bound: _, size } => Some((size, size)),
        TypeShape::StructByRef { size, align } => Some((size, align)),
        TypeShape::UnionByRef { size, align } => Some((size, align)),
        TypeShape::Handle => Some((4, 4)),
        _ => None,
    }
}

/// Whether a result of this shape can be returned through an output pointer.
pub open spec fn writeback_supported(s: TypeShape) -> bool {
    write_layout(s) is Some
}

/// Executable write layout.
pub fn shape_write_layout(s: TypeShape) -> (r: Option<(u64, u64)>)
    ensures
        r == write_layout(s),
{
    match s {
        TypeShape::Scalar(t) => {
            let sz = scalar_size_exec(t);
            Some((sz, sz))
        },
        TypeShape::EnumOrFlagsOrInt { bound: _, size } => Some((size, size)),
        TypeShape::StructByRef { size, align } => Some((size, align)),
        TypeShape::UnionByRef { size, align } => Some((size, align)),
        TypeShape::Handle => Some((4, 4)),
        _ => None,
    }
}

/// Executable scalar size.
pub fn scalar_size_exec(t: ScalarType) -> (n: u64)
    ensures
        n == scalar_size(t),
{
    match t {
        ScalarType::U8 => 1,
        ScalarType::U16 => 2,
        ScalarType::U32 => 4,
        ScalarType::U64 => 8,
        ScalarType::S8 => 1,
        ScalarType::S16 => 2,
        ScalarType::S32 => 4,
        ScalarType::S64 => 8,
        ScalarType::Size => 4,
        ScalarType::Char8 => 1,
        ScalarType::F32 => 4,
        ScalarType::F64 => 8,
    }
}

} // verus!
