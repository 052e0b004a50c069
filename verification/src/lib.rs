//! Keyboard lighting engine and hardware attribute shim for Razer laptops.
//!
//! The crate composites layered lighting effects into one frame per tick,
//! keeps the layer stack as JSON, prepares the typed reads and writes of the
//! kernel driver's attribute files, and reads the replies of the lighting
//! service.  It touches no file and no socket: a write is handed out for
//! the caller to carry out, and a read takes what the caller found.
//!
//! The code is verified with Verus against the contracts it states.  What
//! is believed without proof is marked as such where it stands: the calls
//! into `serde_json` in [`kbd::save`] and the reading of the system clock
//! in [`kbd`].

pub mod comms;
pub mod decimal;
pub mod driver_sysfs;
pub mod kbd;
pub mod settings;
