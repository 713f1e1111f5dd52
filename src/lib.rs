//! Device-side synchronization of a twin document: connection handling,
//! first-contact location adoption, reported-property queueing, transmission
//! bookkeeping and the wind telemetry model.

mod rng;
pub mod location;
mod clock;
pub mod telemetry;
pub mod twin;
