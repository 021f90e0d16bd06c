//! Checked narrowing conversions used when register field values are built.

use vstd::prelude::*;

verus! {

/// Relies on `cast::u8` for `u32`: returns `Ok(x as u8)` exactly when the
/// value fits in eight bits and `Err(cast::Error::Overflow)` otherwise.
#[verifier::external_body]
fn cast_u8(x: u32) -> (r: Option<u8>)
    ensures
        r == if x <= 255 {
            Some(x as u8)
        } else {
            None::<u8>
        },
{
    cast::u8(x).ok()
}

/// Relies on `cast::u16` for `u32`: returns `Ok(x as u16)` exactly when the
/// value fits in sixteen bits and `Err(cast::Error::Overflow)` otherwise.
#[verifier::external_body]
fn cast_u16(x: u32) -> (r: Option<u16>)
    ensures
        r == if x <= 65535 {
            Some(x as u16)
        } else {
            None::<u16>
        },
{
    cast::u16(x).ok()
}

/// Narrows a value already known to fit in eight bits.
pub(crate) fn narrow_u8(x: u32) -> (r: u8)
    requires
        x <= 255,
    ensures
        r == x,
{
    match cast_u8(x) {
        Some(v) => v,
        None => {
            proof {
                assert(false);
            }
            0
        },
    }
}

/// Narrows a value already known to fit in sixteen bits.
pub(crate) fn narrow_u16(x: u32) -> (r: u16)
    requires
        x <= 65535,
    ensures
        r == x,
{
    match cast_u16(x) {
        Some(v) => v,
        None => {
            proof {
                assert(false);
            }
            0
        },
    }
}

} // verus!
