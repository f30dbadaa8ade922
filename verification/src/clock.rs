use vstd::prelude::*;
use std::time::{Duration, Instant};

verus! {

#[verifier::external_type_specification]
#[verifier::external_body]
pub struct ExInstant(Instant);

/// `Instant::now` reads the machine's monotonic clock: nothing is promised of
/// the reading.
pub assume_specification[ Instant::now ]() -> (now: Instant);

/// `Instant::elapsed` is the time gone by since the instant was taken: it is a
/// second reading of the clock, of which nothing is promised.
pub assume_specification[ Instant::elapsed ](start: &Instant) -> (gone: Duration);

/// `Duration::as_millis` is the whole milliseconds in a duration. A duration is
/// opaque here, so nothing is stated of the count.
pub assume_specification[ Duration::as_millis ](span: &Duration) -> (millis: u128);

} // verus!
