//! The clock that keystrokes are stamped from. Nothing is known of a reading:
//! it is whatever the machine's clock says.

use std::time::{Duration, Instant};
use vstd::prelude::*;

verus! {

/// A reading of the machine's monotonic clock, `std::time::Instant`.
#[verifier::external_type_specification]
#[verifier::external_body]
pub struct ExInstant(Instant);

/// `Instant::now` reads the clock; nothing is claimed of the reading.
pub assume_specification[ Instant::now ]() -> (now: Instant)
;

/// `Instant::elapsed` is the time since a reading; nothing is claimed of it.
pub assume_specification[ Instant::elapsed ](start: &Instant) -> (elapsed: Duration)
;

/// `Duration::as_millis` counts whole milliseconds; nothing is claimed of the
/// count, as nothing is known of the duration.
pub assume_specification[ Duration::as_millis ](duration: &Duration) -> (millis: u128)
;

} // verus!
