//! Verified core of a desktop temperature monitor.
//!
//! The library models the sensor polling pipeline: a reader that turns one
//! probe of the hardware monitoring chips into an immutable snapshot,
//! tolerating per-sensor read failures; a single-producer/single-consumer
//! channel that hands snapshots to a UI consumer in FIFO order; a poller
//! step that drives one cycle and stops only when the consumer is gone; and
//! the flattening of a snapshot into display rows.
//!
//! Temperatures are carried as integer millidegrees Celsius, exactly as the
//! kernel's hwmon interface reports them, so every stored reading is a
//! finite value by construction.

pub mod channel;
pub mod poller;
pub mod reader;
pub mod rows;
pub mod snapshot;
