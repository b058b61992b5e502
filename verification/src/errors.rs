//! The two-tier error translation chain.
//!
//! A validation failure (malformed or out-of-bounds guest data) is converted
//! to the function's declared error type by a guest-error table; a
//! handler-declared domain error goes through an optional registered
//! user-error table, or unchanged where none is registered. A failure with no
//! declared error type to carry it is a fatal trap.

use vstd::prelude::*;

verus! {

/// Why a validation step failed.
#[derive(Clone, Copy, PartialEq, Eq, Structural, Debug)]
pub enum Cause {
    /// An access reached past the end of the guest memory region.
    OutOfBounds,
    /// An access offset broke the required alignment.
    Misaligned,
    /// A raw word did not fit the representable range of a narrow type.
    OutOfRange,
}

/// The failing site inside one call: an argument or a result's output
/// pointer, by name.
#[derive(Debug, PartialEq, Eq)]
pub enum Location {
    /// Marshaling of the named argument failed.
    Arg(String),
    /// The write through the named result's output pointer failed.
    RetPtr(String),
}

/// A validation failure, tagged with the function name and the failing site.
#[derive(Debug, PartialEq, Eq)]
pub struct GuestError {
    pub funcname: String,
    pub location: Location,
    pub cause: Cause,
}

/// An unrecoverable failure: it aborts the call and the guest observes no
/// error code.
#[derive(Debug, PartialEq, Eq)]
pub enum Trap {
    /// A validation failure in a function with no declared error type.
    Unrecoverable(GuestError),
    /// A function marked `noreturn` came back from its handler.
    NoReturn,
    /// A handler-declared error with no entry in the registered user-error
    /// table.
    UnmappedUserError(u64),
}

/// The guest-error conversion table for one declared error type: the error
/// code each validation cause encodes to.
#[derive(Clone, Copy, PartialEq, Eq, Structural, Debug)]
pub struct GuestConvTable {
    pub out_of_bounds: u64,
    pub misaligned: u64,
    pub out_of_range: u64,
}

/// The call context's capabilities for one function's declared error type:
/// its canonical success value, the guest-error conversion, and zero or one
/// registered user-error conversion.
pub struct CallCtx {
    /// The canonical success value of the declared error type.
    pub success: u64,
    /// Converts a validation failure to the declared error type.
    pub guest: GuestConvTable,
    /// Converts a handler-declared domain error to the declared error type;
    /// `None` means no conversion is registered and the domain error is
    /// already the declared type.
    pub user: Option<Vec<(u64, u64)>>,
}

/// The code a validation cause converts to.
pub open spec fn guest_code(t: GuestConvTable, c: Cause) -> u64 {
    match c {
        Cause::OutOfBounds => t.out_of_bounds,
        Cause::Misaligned => t.misaligned,
        Cause::OutOfRange => t.out_of_range,
    }
}

/// First-match lookup in a user-error table, from index `i`.
pub open spec fn user_lookup_from(t: Seq<(u64, u64)>, e: u64, i: int) -> Option<u64>
    decreases t.len() - i,
{
    if i < 0 || i >= t.len() {
        None
    } else if t[i].0 == e {
        Some(t[i].1)
    } else {
        user_lookup_from(t, e, i + 1)
    }
}

/// First-match lookup in a user-error table.
pub open spec fn user_lookup(t: Seq<(u64, u64)>, e: u64) -> Option<u64> {
    user_lookup_from(t, e, 0)
}

/// What a handler-declared domain error converts to: the registered table's
/// entry, the identity where no table is registered, or `None` — a fatal
/// trap — where the table has no entry for it.
pub open spec fn user_code(ctx: CallCtx, e: u64) -> Option<u64> {
    match ctx.user {
        None => Some(e),
        Some(t) => user_lookup(t@, e),
    }
}

/// Converts a validation failure through the guest-error table.
pub fn convert_guest(ctx: &CallCtx, e: &GuestError) -> (r: u64)
    ensures
        r == guest_code(ctx.guest, e.cause),
{
    match e.cause {
        Cause::OutOfBounds => ctx.guest.out_of_bounds,
        Cause::Misaligned => ctx.guest.misaligned,
        Cause::OutOfRange => ctx.guest.out_of_range,
    }
}

/// Converts a handler-declared domain error; an unregistered error is a
/// fatal trap.
pub fn convert_user(ctx: &CallCtx, e: u64) -> (r: Result<u64, Trap>)
    ensures
        match user_code(*ctx, e) {
            Some(c) => r matches Ok(c2) && c2 == c,
            None => r matches Err(t) && t matches Trap::UnmappedUserError(e2) && e2 == e,
        },
{
    match &ctx.user {
        None => Ok(e),
        Some(t) => {
            assert(user_code(*ctx, e) == user_lookup(t@, e));
            let mut i: usize = 0;
            while i < t.len()
                invariant
                    i <= t@.len(),
                    user_code(*ctx, e) == user_lookup_from(t@, e, i as int),
                decreases t@.len() - i,
            {
                if t[i].0 == e {
                    assert(user_lookup_from(t@, e, i as int) == Some(t@[i as int].1));
                    return Ok(t[i].1);
                }
                assert(user_lookup_from(t@, e, i as int) == user_lookup_from(t@, e, i + 1));
                i = i + 1;
            }
            Err(Trap::UnmappedUserError(e))
        },
    }
}

} // verus!
