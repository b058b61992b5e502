//! Result write-back: encoding handler-produced values and writing them
//! through guest output pointers.
//!
//! Only shapes with a fixed, statically known write size are supported;
//! values are laid down little-endian, signed values in two's complement.

use vstd::prelude::*;
use crate::shape::{TypeShape, shape_wf, write_layout};
use crate::value::{Value, ValueV, well_typed, copy_bytes};
use crate::memory::{access_ok, access_cause, splice};
use crate::errors::Cause;
use crate::ifunc::InterfaceFunction;
use crate::marshal::low32;

verus! {

/// The little-endian bytes of the `n`-byte encoding of `v`.
pub open spec fn le_bytes(v: int, n: nat) -> Seq<u8>
    decreases n,
{
    if n == 0 {
        Seq::empty()
    } else {
        seq![(v % 256) as u8] + le_bytes(v / 256, (n - 1) as nat)
    }
}

/// An encoding has exactly its declared width.
pub proof fn lemma_le_bytes_len(v: int, n: nat)
    ensures
        le_bytes(v, n).len() == n,
    decreases n,
{
    if n > 0 {
        lemma_le_bytes_len(v / 256, (n - 1) as nat);
    }
}

/// One power of 256 per supported write size.
pub open spec fn size_shift(size: u64) -> int {
    if size == 1 {
        0x100
    } else if size == 2 {
        0x1_0000
    } else if size == 4 {
        0x1_0000_0000
    } else {
        0x1_0000_0000_0000_0000
    }
}

/// The two's-complement word of a signed value in `size` bytes.
pub open spec fn sint_word(x: int, size: u64) -> int {
    if x >= 0 {
        x
    } else {
        x + size_shift(size)
    }
}

/// The bytes a well-typed value writes through an output pointer.
pub open spec fn encode_value(v: ValueV, s: TypeShape) -> Seq<u8> {
    match v {
        ValueV::UInt(w) => le_bytes(w as int, size_of_shape(s)),
        ValueV::EnumVal(w) => le_bytes(w as int, size_of_shape(s)),
        ValueV::FloatBits(w) => le_bytes(w as int, size_of_shape(s)),
        ValueV::Handle(h) => le_bytes(h as int, size_of_shape(s)),
        ValueV::SInt(x) => le_bytes(sint_word(x as int, size_of_shape(s) as u64), size_of_shape(s)),
        ValueV::StructBytes(b) => b,
        ValueV::UnionBytes(b) => b,
        _ => Seq::empty(),
    }
}

/// The write size of a supported shape.
pub open spec fn size_of_shape(s: TypeShape) -> nat {
    match write_layout(s) {
        Some((sz, _)) => sz as nat,
        None => 0,
    }
}

/// The write alignment of a supported shape.
pub open spec fn align_of_shape(s: TypeShape) -> u64 {
    match write_layout(s) {
        Some((_, al)) => al,
        None => 1,
    }
}

/// A well-typed value of a supported shape encodes to exactly the shape's
/// write size.
pub proof fn lemma_encode_len(v: ValueV, s: TypeShape)
    requires
        shape_wf(s),
        well_typed(v, s),
        write_layout(s) is Some,
    ensures
        encode_value(v, s).len() == size_of_shape(s),
        size_of_shape(s) <= 0x1_0000_0000,
{
    match v {
        ValueV::UInt(w) => lemma_le_bytes_len(w as int, size_of_shape(s)),
        ValueV::EnumVal(w) => lemma_le_bytes_len(w as int, size_of_shape(s)),
        ValueV::FloatBits(w) => lemma_le_bytes_len(w as int, size_of_shape(s)),
        ValueV::Handle(h) => lemma_le_bytes_len(h as int, size_of_shape(s)),
        ValueV::SInt(x) => lemma_le_bytes_len(
            sint_word(x as int, size_of_shape(s) as u64),
            size_of_shape(s),
        ),
        _ => {},
    }
}

/// Encodes a scalar word little-endian in `size` bytes.
pub fn encode_le(word: u64, size: u64) -> (b: Vec<u8>)
    requires
        size <= 8,
    ensures
        b@ == le_bytes(word as int, size as nat),
        b@.len() == size,
{
    let mut b: Vec<u8> = Vec::new();
    let mut cur: u64 = word;
    let mut j: u64 = 0;
    while j < size
        invariant
            j <= size,
            b@.len() == j,
            le_bytes(word as int, size as nat) == b@ + le_bytes(
                cur as int,
                (size - j) as nat,
            ),
        decreases size - j,
    {
        let ghost m = (size - j) as nat;
        let ghost oldb = b@;
        let ghost oldcur = cur as int;
        b.push((cur % 256) as u8);
        cur = cur / 256;
        j = j + 1;
        proof {
            assert(le_bytes(oldcur, m) == seq![(oldcur % 256) as u8] + le_bytes(
                oldcur / 256,
                (m - 1) as nat,
            ));
            assert(b@ + le_bytes(cur as int, (size - j) as nat) =~= oldb + le_bytes(oldcur, m));
        }
    }
    proof {
        assert(b@ =~= le_bytes(word as int, size as nat));
        lemma_le_bytes_len(word as int, size as nat);
    }
    b
}

/// Encodes a well-typed value for write-back.
pub fn encode_value_exec(v: &Value, s: TypeShape) -> (b: Vec<u8>)
    requires
        shape_wf(s),
        well_typed(v@, s),
        write_layout(s) is Some,
    ensures
        b@ == encode_value(v@, s),
        b@.len() == size_of_shape(s),
        b@.len() <= 0x1_0000_0000,
{
    proof {
        lemma_encode_len(v@, s);
    }
    let (sz, _al) = match crate::shape::shape_write_layout(s) {
        Some(l) => l,
        None => {
            proof {
                assert(false);
            }
            (0u64, 1u64)
        },
    };
    match v {
        Value::UInt(w) => encode_le(*w, sz),
        Value::EnumVal(w) => encode_le(*w, sz),
        Value::FloatBits(w) => encode_le(*w, sz),
        Value::Handle(h) => encode_le(*h, sz),
        Value::SInt(x) => {
            let word: u64 = signed_word(*x, sz);
            encode_le(word, sz)
        },
        Value::StructBytes(bytes) => copy_bytes(bytes),
        Value::UnionBytes(bytes) => copy_bytes(bytes),
        _ => {
            proof {
                assert(false);
            }
            Vec::new()
        },
    }
}

/// The two's-complement word of an in-range signed value.
fn signed_word(x: i64, size: u64) -> (w: u64)
    requires
        size == 1 || size == 2 || size == 4 || size == 8,
        size == 1 ==> -128 <= x <= 127,
        size == 2 ==> -32768 <= x <= 32767,
        size == 4 ==> -0x8000_0000 <= x <= 0x7FFF_FFFF,
    ensures
        w == sint_word(x as int, size),
{
    if x >= 0 {
        x as u64
    } else if size == 8 {
        let m: u64 = (-(x + 1)) as u64;
        u64::MAX - m
    } else if size == 4 {
        (x + 0x1_0000_0000) as u64
    } else if size == 2 {
        (x + 0x1_0000) as u64
    } else {
        (x + 0x100) as u64
    }
}

/// The output pointer of extra result `j`: its ABI slot follows all
/// parameter slots, read as a 32-bit offset.
pub open spec fn ret_ptr(func: InterfaceFunction, raws: Seq<u64>, j: int) -> u64 {
    low32(raws[func.param_slots() + j])
}

/// Whether the write of extra result `j` is valid against a region like
/// `mem` (only its size matters: write-back never resizes the region).
pub open spec fn wb_ok(func: InterfaceFunction, raws: Seq<u64>, mem: Seq<u8>, j: int) -> bool {
    match write_layout(func.extra(j).shape) {
        Some((sz, al)) => access_ok(mem, ret_ptr(func, raws, j), sz, al),
        None => false,
    }
}

/// The cause an invalid write of extra result `j` reports.
pub open spec fn wb_cause(func: InterfaceFunction, raws: Seq<u64>, mem: Seq<u8>, j: int) -> Cause {
    match write_layout(func.extra(j).shape) {
        Some((sz, al)) => access_cause(mem, ret_ptr(func, raws, j), sz, al),
        None => Cause::OutOfBounds,
    }
}

/// The first extra result whose write fails, searching from `j`; the extra
/// count where all remaining writes succeed.
pub open spec fn wb_first_bad_from(
    func: InterfaceFunction,
    raws: Seq<u64>,
    mem: Seq<u8>,
    j: int,
) -> int
    decreases func.n_extra() - j,
{
    if j < 0 || j >= func.n_extra() {
        func.n_extra() as int
    } else if !wb_ok(func, raws, mem, j) {
        j
    } else {
        wb_first_bad_from(func, raws, mem, j + 1)
    }
}

/// The first extra result whose write fails; the extra count where every
/// write succeeds.
pub open spec fn wb_first_bad(func: InterfaceFunction, raws: Seq<u64>, mem: Seq<u8>) -> int {
    wb_first_bad_from(func, raws, mem, 0)
}

/// The first failing write index lies between `j` and the extra count.
pub proof fn lemma_wb_first_bad_range(
    func: InterfaceFunction,
    raws: Seq<u64>,
    mem: Seq<u8>,
    j: int,
)
    requires
        0 <= j <= func.n_extra(),
    ensures
        j <= wb_first_bad_from(func, raws, mem, j) <= func.n_extra(),
    decreases func.n_extra() - j,
{
    if j < func.n_extra() && wb_ok(func, raws, mem, j) {
        lemma_wb_first_bad_range(func, raws, mem, j + 1);
    }
}

/// Searching for the first failing write from `j` equals searching from the
/// start when every earlier write succeeds.
pub proof fn lemma_wb_first_bad_skip(
    func: InterfaceFunction,
    raws: Seq<u64>,
    mem: Seq<u8>,
    j: int,
)
    requires
        0 <= j <= func.n_extra(),
        forall|k: int| 0 <= k < j ==> wb_ok(func, raws, mem, k),
    ensures
        wb_first_bad(func, raws, mem) == wb_first_bad_from(func, raws, mem, j),
    decreases j,
{
    if j > 0 {
        lemma_wb_first_bad_skip(func, raws, mem, j - 1);
    }
}

/// The region after the first `j` writes, in declaration order.
pub open spec fn wb_mem_upto(
    func: InterfaceFunction,
    raws: Seq<u64>,
    vals: Seq<ValueV>,
    mem: Seq<u8>,
    j: int,
) -> Seq<u8>
    decreases j,
{
    if j <= 0 {
        mem
    } else {
        splice(
            wb_mem_upto(func, raws, vals, mem, j - 1),
            ret_ptr(func, raws, j - 1),
            encode_value(vals[j - 1], func.extra(j - 1).shape),
        )
    }
}

} // verus!
