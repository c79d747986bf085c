//! Connectivity bring-up and periodic fetch logic for a small networked
//! device.
//!
//! The crate holds the decision logic of a device that joins a wireless
//! network and then fetches a remote resource over HTTP or HTTPS on a fixed
//! period: the bring-up state machine (join, address, link, stack readiness),
//! the per-cycle fetch classification with its fail-fast policy, and the
//! fixed-capacity buffer sizing shared by both transports. The radio driver,
//! the network stack and the HTTP transport themselves are outside
//! collaborators; a thin shell drives them and feeds their outcomes to the
//! functions here.

pub mod bringup;
pub mod buffer;
pub mod config;
pub mod fetch;
