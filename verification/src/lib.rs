//! Verified core of a binding to the Linux device manager.
//!
//! The device database and the kernel event socket are a foreign service. This
//! crate never talks to it. It holds every decision that surrounds a foreign
//! call: it validates the strings that go in, turns the answers that come back
//! (a handle that may be null, a status that may be nonzero) into structured
//! results, accumulates filters, walks the result list of a scan and drives the
//! monitor from building to listening. The caller makes the foreign call between
//! the two halves of an operation and hands the answer in as plain values.

pub mod error;
pub mod util;
pub mod context;
pub mod device;
pub mod device_id;
pub mod enumerator;
pub mod monitor;
