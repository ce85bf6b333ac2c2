//! USB failures as plain values, and what to tell the user about them.

use vstd::prelude::*;

verus! {

/// The class of a USB failure, as the USB stack reports it.
#[derive(Clone, Copy, Debug, PartialEq, Eq, Structural)]
pub enum UsbErrorKind {
    /// The device is disconnected.
    Disconnected,
    /// The device or interface is in use by another holder.
    Busy,
    /// The user may not perform the operation.
    PermissionDenied,
    /// The configuration, interface, or setting was not found.
    NotFound,
    /// The platform or its driver does not support the operation.
    Unsupported,
    /// Anything else.
    Other,
}

/// A USB failure: its class and the USB stack's own description.
#[derive(Clone, Debug, PartialEq, Eq)]
pub struct UsbError {
    pub kind: UsbErrorKind,
    pub message: String,
}

/// Which discovery step failed.
#[derive(Clone, Copy, Debug, PartialEq, Eq, Structural)]
pub enum DiscoveryOperation {
    /// Listing the USB devices.
    Enumerate,
    /// Watching for USB connection changes.
    Watch,
}

/// Failure to enumerate or monitor USB devices.
#[derive(Clone, Debug, PartialEq, Eq)]
pub struct DiscoveryError {
    pub operation: DiscoveryOperation,
    pub source: UsbError,
}

impl DiscoveryError {
    /// A failure to list USB devices.
    pub fn enumerate(source: UsbError) -> (error: Self)
        ensures
            error == (DiscoveryError { operation: DiscoveryOperation::Enumerate, source }),
    {
        DiscoveryError { operation: DiscoveryOperation::Enumerate, source }
    }

    /// A failure to watch USB connection changes.
    pub fn watch(source: UsbError) -> (error: Self)
        ensures
            error == (DiscoveryError { operation: DiscoveryOperation::Watch, source }),
    {
        DiscoveryError { operation: DiscoveryOperation::Watch, source }
    }

    /// The next step suggested for a discovery failure of class `kind`.
    pub open spec fn spec_recovery_hint(kind: UsbErrorKind) -> Seq<char> {
        match kind {
            UsbErrorKind::PermissionDenied => "Check the Selah udev rule, then reconnect the interface and try again."@,
            UsbErrorKind::Unsupported => "USB discovery is not supported on this system. Selah currently targets Linux."@,
            _ => "Reconnect the interface and try the scan again."@,
        }
    }

    /// Gives the user a useful next step for this class of error.
    pub fn recovery_hint(&self) -> (hint: &'static str)
        ensures
            hint@ == Self::spec_recovery_hint(self.source.kind),
    {
        match self.source.kind {
            UsbErrorKind::PermissionDenied => "Check the Selah udev rule, then reconnect the interface and try again.",
            UsbErrorKind::Unsupported => "USB discovery is not supported on this system. Selah currently targets Linux.",
            _ => "Reconnect the interface and try the scan again.",
        }
    }

    /// The user-facing description of a discovery failure.
    pub open spec fn spec_message(self) -> Seq<char> {
        "USB device "@ + match self.operation {
            DiscoveryOperation::Enumerate => "scan"@,
            DiscoveryOperation::Watch => "monitor"@,
        } + " failed: "@ + self.source.message@
    }

    /// User-facing description of this failure.
    pub fn message(&self) -> (text: String)
        ensures
            text@ == self.spec_message(),
    {
        let mut text = "USB device ".to_owned();
        text.append(
            match self.operation {
                DiscoveryOperation::Enumerate => "scan",
                DiscoveryOperation::Watch => "monitor",
            },
        );
        text.append(" failed: ");
        text.append(self.source.message.as_str());
        text
    }
}

} // verus!
