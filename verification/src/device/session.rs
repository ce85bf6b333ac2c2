//! Choosing a safe, non-audio USB interface for control requests.

use vstd::prelude::*;

use super::catalog::AUDIENT_VENDOR_ID;
use super::discovery::{DetectedDevice, DeviceIdentity};
use super::error::{UsbError, UsbErrorKind};
use crate::text::{hex4_digits, push_decimal, decimal_digits, push_hex4};

verus! {

/// USB interface class for application-specific (DFU) interfaces.
pub const USB_CLASS_APPLICATION_SPECIFIC: u8 = 0xfe;

/// USB interface class for vendor-specific interfaces.
pub const USB_CLASS_VENDOR_SPECIFIC: u8 = 0xff;

/// A non-audio USB interface suitable for Audient mixer control requests.
#[derive(Clone, Copy, Debug, PartialEq, Eq, Structural)]
pub struct ControlInterface {
    pub number: u8,
    pub kind: ControlInterfaceKind,
}

/// The USB class used by a selected control interface.
#[derive(Clone, Copy, Debug, PartialEq, Eq, Structural)]
pub enum ControlInterfaceKind {
    ApplicationSpecific,
    VendorSpecific,
}

impl ControlInterfaceKind {
    /// The short name shown to users for this interface class.
    pub open spec fn spec_label(self) -> Seq<char> {
        match self {
            ControlInterfaceKind::ApplicationSpecific => "application/DFU"@,
            ControlInterfaceKind::VendorSpecific => "vendor-specific"@,
        }
    }

    /// Short name shown to users for this interface class.
    pub fn label(self) -> (text: &'static str)
        ensures
            text@ == self.spec_label(),
    {
        match self {
            ControlInterfaceKind::ApplicationSpecific => "application/DFU",
            ControlInterfaceKind::VendorSpecific => "vendor-specific",
        }
    }
}

/// The interface chosen among `(number, class)` pairs: the first
/// application-specific one, else the first vendor-specific one, else none.
/// Audio-class interfaces are never chosen.
pub open spec fn choose_control_interface(interfaces: Seq<(u8, u8)>) -> Option<ControlInterface> {
    match first_of_class(interfaces, USB_CLASS_APPLICATION_SPECIFIC) {
        Some(number) => Some(
            ControlInterface { number, kind: ControlInterfaceKind::ApplicationSpecific },
        ),
        None => match first_of_class(interfaces, USB_CLASS_VENDOR_SPECIFIC) {
            Some(number) => Some(
                ControlInterface { number, kind: ControlInterfaceKind::VendorSpecific },
            ),
            None => None,
        },
    }
}

/// The number of the first interface in `interfaces` with the given class.
pub open spec fn first_of_class(interfaces: Seq<(u8, u8)>, class: u8) -> Option<u8>
    decreases interfaces.len(),
{
    if interfaces.len() == 0 {
        None
    } else if interfaces[0].1 == class {
        Some(interfaces[0].0)
    } else {
        first_of_class(interfaces.drop_first(), class)
    }
}

/// Picks a safe control interface from `(interface number, class)` pairs.
pub fn select_control_interface(interfaces: &[(u8, u8)]) -> (selected: Option<ControlInterface>)
    ensures
        selected == choose_control_interface(interfaces@),
{
    let mut vendor_specific: Option<u8> = None;
    let mut i: usize = 0;
    assert(interfaces@.skip(0) =~= interfaces@);
    while i < interfaces.len()
        invariant
            i <= interfaces@.len(),
            first_of_class(interfaces@, USB_CLASS_APPLICATION_SPECIFIC) == first_of_class(
                interfaces@.skip(i as int),
                USB_CLASS_APPLICATION_SPECIFIC,
            ),
            first_of_class(interfaces@, USB_CLASS_VENDOR_SPECIFIC) == match vendor_specific {
                Some(n) => Some(n),
                None => first_of_class(interfaces@.skip(i as int), USB_CLASS_VENDOR_SPECIFIC),
            },
        decreases interfaces@.len() - i,
    {
        let (number, class) = interfaces[i];
        assert(interfaces@.skip(i as int)[0] == interfaces@[i as int]);
        assert(interfaces@.skip(i as int).drop_first() =~= interfaces@.skip(i + 1));
        if class == USB_CLASS_APPLICATION_SPECIFIC {
            return Some(
                ControlInterface { number, kind: ControlInterfaceKind::ApplicationSpecific },
            );
        } else if class == USB_CLASS_VENDOR_SPECIFIC && vendor_specific.is_none() {
            vendor_specific = Some(number);
        }
        i += 1;
    }
    assert(interfaces@.skip(i as int) =~= Seq::<(u8, u8)>::empty());
    match vendor_specific {
        Some(number) => Some(ControlInterface { number, kind: ControlInterfaceKind::VendorSpecific }),
        None => None,
    }
}

/// Failure to establish, use, or close a safe device session.
#[derive(Clone, Debug, PartialEq, Eq)]
pub enum SessionError {
    /// Listing USB devices failed.
    Enumerate(UsbError),
    /// The device is no longer attached.
    NotFound { product_id: u16 },
    /// The device offers no application- or vendor-specific interface.
    NoSafeControlInterface { product_id: u16 },
    /// Opening the device failed.
    Open(UsbError),
    /// Claiming the control interface failed.
    Claim { interface: u8, source: UsbError },
    /// A control transfer on the claimed interface failed.
    Transfer { interface: u8, source: UsbError },
    /// Releasing the control interface failed.
    Release { interface: u8, source: UsbError },
}

impl SessionError {
    /// The next step suggested for a session failure.
    pub open spec fn spec_recovery_hint(self) -> Seq<char> {
        match self {
            SessionError::NotFound { .. } => "Reconnect the interface and scan again."@,
            SessionError::NoSafeControlInterface { .. } => "Selah will not claim an audio interface. This model needs hardware investigation."@,
            SessionError::Open(source) if source.kind == UsbErrorKind::PermissionDenied => "Install the Selah udev rule, reconnect the interface, and try again."@,
            SessionError::Enumerate(source) if source.kind == UsbErrorKind::PermissionDenied => "Install the Selah udev rule, reconnect the interface, and try again."@,
            SessionError::Claim { source, .. } if source.kind == UsbErrorKind::Busy => "Another process owns the control interface. Close it and try again."@,
            _ => "Reconnect the interface and try again."@,
        }
    }

    /// Gives the user a useful next step for this class of error.
    pub fn recovery_hint(&self) -> (hint: &'static str)
        ensures
            hint@ == self.spec_recovery_hint(),
    {
        match self {
            SessionError::NotFound { .. } => "Reconnect the interface and scan again.",
            SessionError::NoSafeControlInterface { .. } => "Selah will not claim an audio interface. This model needs hardware investigation.",
            SessionError::Open(source) if source.kind == UsbErrorKind::PermissionDenied => "Install the Selah udev rule, reconnect the interface, and try again.",
            SessionError::Enumerate(source) if source.kind == UsbErrorKind::PermissionDenied => "Install the Selah udev rule, reconnect the interface, and try again.",
            SessionError::Claim { source, .. } if source.kind == UsbErrorKind::Busy => "Another process owns the control interface. Close it and try again.",
            _ => "Reconnect the interface and try again.",
        }
    }

    /// The user-facing description of a session failure.
    pub open spec fn spec_message(self) -> Seq<char> {
        match self {
            SessionError::Enumerate(source) => "USB device scan failed: "@ + source.message@,
            SessionError::NotFound { product_id } => "Audient device "@ + hex4_digits(product_id)
                + " is no longer present"@,
            SessionError::NoSafeControlInterface { product_id } => "Audient device "@
                + hex4_digits(product_id) + " has no safe control interface"@,
            SessionError::Open(source) => "could not open the Audient device: "@ + source.message@,
            SessionError::Claim { interface, source } => "could not claim control interface "@
                + decimal_digits(interface as nat) + ": "@ + source.message@,
            SessionError::Transfer { interface, source } => "control transfer on interface "@
                + decimal_digits(interface as nat) + " failed: "@ + source.message@,
            SessionError::Release { interface, source } => "could not release control interface "@
                + decimal_digits(interface as nat) + ": "@ + source.message@,
        }
    }

    /// User-facing description of this failure.
    pub fn message(&self) -> (text: String)
        ensures
            text@ == self.spec_message(),
    {
        match self {
            SessionError::Enumerate(source) => {
                let mut text = "USB device scan failed: ".to_owned();
                text.append(source.message.as_str());
                text
            },
            SessionError::NotFound { product_id } => {
                let mut text = "Audient device ".to_owned();
                push_hex4(&mut text, *product_id);
                text.append(" is no longer present");
                text
            },
            SessionError::NoSafeControlInterface { product_id } => {
                let mut text = "Audient device ".to_owned();
                push_hex4(&mut text, *product_id);
                text.append(" has no safe control interface");
                text
            },
            SessionError::Open(source) => {
                let mut text = "could not open the Audient device: ".to_owned();
                text.append(source.message.as_str());
                text
            },
            SessionError::Claim { interface, source } => {
                let mut text = "could not claim control interface ".to_owned();
                push_decimal(&mut text, *interface as u64);
                text.append(": ");
                text.append(source.message.as_str());
                text
            },
            SessionError::Transfer { interface, source } => {
                let mut text = "control transfer on interface ".to_owned();
                push_decimal(&mut text, *interface as u64);
                text.append(" failed: ");
                text.append(source.message.as_str());
                text
            },
            SessionError::Release { interface, source } => {
                let mut text = "could not release control interface ".to_owned();
                push_decimal(&mut text, *interface as u64);
                text.append(": ");
                text.append(source.message.as_str());
                text
            },
        }
    }

    /// The description followed by the recovery hint, as shown to users.
    pub open spec fn spec_report(self) -> Seq<char> {
        self.spec_message() + " — "@ + self.spec_recovery_hint()
    }

    /// Formats this failure with its recovery hint for the status line.
    pub fn report(&self) -> (text: String)
        ensures
            text@ == self.spec_report(),
    {
        let mut text = self.message();
        text.append(" — ");
        text.append(self.recovery_hint());
        text
    }
}

/// Whether scanned identity `id` is the attachment `device`: same vendor,
/// product, and bus position.
pub open spec fn is_attachment(id: DeviceIdentity, device: DetectedDevice) -> bool {
    &&& id.vendor_id == AUDIENT_VENDOR_ID
    &&& id.product_id == device.model.product_id
    &&& id.location.spec_key() == device.location.spec_key()
}

/// Where a session for `device` goes among the scanned `ids`: the first
/// identity that is the attachment, and its safe control interface.
pub open spec fn session_target(ids: Seq<DeviceIdentity>, device: DetectedDevice) -> Result<
    (int, ControlInterface),
    SessionError,
> {
    if exists|i: int| 0 <= i < ids.len() && is_attachment(#[trigger] ids[i], device) {
        let i = choose|i: int|
            0 <= i < ids.len() && is_attachment(#[trigger] ids[i], device) && forall|j: int|
                0 <= j < i ==> !is_attachment(#[trigger] ids[j], device);
        match choose_control_interface(ids[i].interfaces@) {
            Some(control) => Ok((i, control)),
            None => Err(SessionError::NoSafeControlInterface { product_id: device.model.product_id }),
        }
    } else {
        Err(SessionError::NotFound { product_id: device.model.product_id })
    }
}

/// Plans a session for `device` over freshly scanned identities: which
/// identity to open and which interface to claim. An audio-class
/// interface is never chosen and no kernel driver is ever detached.
pub fn plan_session(ids: &[DeviceIdentity], device: &DetectedDevice) -> (plan: Result<
    (usize, ControlInterface),
    SessionError,
>)
    ensures
        match plan {
            Ok((i, control)) => session_target(ids@, *device) == Ok::<
                (int, ControlInterface),
                SessionError,
            >((i as int, control)),
            Err(error) => session_target(ids@, *device) == Err::<(int, ControlInterface), SessionError>(
                error,
            ),
        },
{
    let mut i: usize = 0;
    while i < ids.len()
        invariant
            i <= ids@.len(),
            forall|j: int| 0 <= j < i ==> !is_attachment(#[trigger] ids@[j], *device),
        decreases ids@.len() - i,
    {
        let id = &ids[i];
        if id.vendor_id == AUDIENT_VENDOR_ID && id.product_id == device.model.product_id
            && id.location.same_as(&device.location) {
            proof {
                let k = choose|k: int|
                    0 <= k < ids@.len() && is_attachment(#[trigger] ids@[k], *device) && forall|j: int|
                        0 <= j < k ==> !is_attachment(#[trigger] ids@[j], *device);
                if k < i {
                } else if k > i {
                    assert(!is_attachment(ids@[i as int], *device));
                }
                assert(k == i);
            }
            return match select_control_interface(id.interfaces.as_slice()) {
                Some(control) => Ok((i, control)),
                None => Err(SessionError::NoSafeControlInterface { product_id: device.model.product_id }),
            };
        }
        i += 1;
    }
    Err(SessionError::NotFound { product_id: device.model.product_id })
}

} // verus!
