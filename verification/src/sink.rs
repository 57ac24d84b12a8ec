//! Bindings to the external telemetry backend.  Everything the core needs
//! from it goes through the trusted items here: starting and stopping the
//! engine, creating a tracer for a path, and appending records to a tracer.

use vstd::prelude::*;

verus! {

/// rillrate's tail-of-log tracer: the external sink an endpoint writes to.
#[verifier::external_type_specification]
#[verifier::external_body]
pub struct ExLiveTail(rillrate::prime::LiveTail);

/// rillrate's engine handle; dropping it terminates the engine.
#[verifier::external_type_specification]
#[verifier::external_body]
pub struct ExRillRate(rillrate::RillRate);

/// Relies on rillrate's LiveTail::new: creates a tracer bound to the given
/// path (the segments joined into rillrate's dotted path form) in real-time
/// mode.  Creation never fails; without a running engine the tracer is
/// simply never observed.
#[verifier::external_body]
pub(crate) fn new_live_tail(segments: &Vec<String>) -> rillrate::prime::LiveTail {
    rillrate::prime::LiveTail::new(
        segments.join("."),
        Default::default(),
        rillrate::prime::LiveTailOpts::default(),
    )
}

/// Relies on Clone for LiveTail: another handle to the same underlying
/// tracer.
#[verifier::external_body]
pub(crate) fn clone_live_tail(tracer: &rillrate::prime::LiveTail) -> rillrate::prime::LiveTail {
    tracer.clone()
}

/// Relies on rillrate's LiveTail::log: appends one record, with the given
/// label columns and timestamp, to the tail.
#[verifier::external_body]
pub(crate) fn live_tail_log(
    tracer: &rillrate::prime::LiveTail,
    module: &str,
    level: &str,
    timestamp: &str,
    content: &str,
) {
    tracer.log(module, level, timestamp, content);
}

/// Relies on rillrate's RillRate::start: spawns the engine in a background
/// thread and returns the handle that terminates it on drop.  Whether it
/// succeeds depends on the machine, so nothing more is promised.
#[verifier::external_body]
pub(crate) fn start_engine(name: &str) -> Result<rillrate::RillRate, String> {
    rillrate::RillRate::start(name).map_err(|e| e.to_string())
}

} // verus!
