//! The one conversion between the counters of the operating system and the
//! value types of the instruments.

use vstd::prelude::*;
use crate::error::ObserverError;

verus! {

/// The signed 64-bit value that stands for an unsigned counter, where there is
/// one.
pub open spec fn signed_of(raw: u64) -> Option<i64> {
    if raw <= i64::MAX {
        Some(raw as i64)
    } else {
        None
    }
}

/// Narrows an unsigned counter to the signed 64-bit type of the memory and
/// disk gauges.
///
/// A counter above `i64::MAX` has no signed counterpart and is refused with
/// [`ObserverError::NumericConversionFailure`]; every other counter keeps its
/// value.
pub fn narrow_signed(raw: u64) -> (narrowed: Result<i64, ObserverError>)
    ensures
        narrowed == match signed_of(raw) {
            Some(value) => Ok::<i64, ObserverError>(value),
            None => Err::<i64, ObserverError>(ObserverError::NumericConversionFailure),
        },
        narrowed is Ok <==> raw <= i64::MAX,
        narrowed matches Ok(value) ==> value == raw,
{
    if raw <= i64::MAX as u64 {
        Ok(raw as i64)
    } else {
        Err(ObserverError::NumericConversionFailure)
    }
}

} // verus!
