//! Lifecycle events of the operating system's USB connection monitor.

use vstd::prelude::*;

use super::error::DiscoveryError;

verus! {

/// A lifecycle event from the operating system's USB monitor.
#[derive(Clone, Debug, PartialEq, Eq)]
pub enum DeviceWatchEvent {
    /// The monitor is running.
    Started,
    /// Some USB device connected or disconnected.
    DevicesChanged,
    /// The monitor could not be started.
    Failed(DiscoveryError),
}

} // verus!
