//! Turning a read-only USB descriptor scan into Audient device reports.

use vstd::prelude::*;

use super::catalog::{AUDIENT_VENDOR_ID, DeviceModel, catalog, find_model, supported_device};
use super::session::{ControlInterface, choose_control_interface, select_control_interface};

verus! {

/// Where a device sits on the USB bus; two identical models stay
/// distinguishable through it.
#[derive(Clone, Debug, PartialEq, Eq)]
pub struct DeviceLocation {
    pub bus: String,
    pub address: u8,
}

/// A recognized Audient interface found during discovery.
#[derive(Clone, Debug, PartialEq, Eq)]
pub struct DetectedDevice {
    pub location: DeviceLocation,
    pub model: DeviceModel,
    pub reported_name: Option<String>,
    pub control_interface: Option<ControlInterface>,
}

/// An Audient interface whose product ID is not in the catalog.
#[derive(Clone, Debug, PartialEq, Eq)]
pub struct UnknownAudientDevice {
    pub product_id: u16,
    pub reported_name: Option<String>,
}

/// The Audient interfaces visible during a read-only USB scan.
#[derive(Clone, Debug, Default, PartialEq, Eq)]
pub struct DiscoveryReport {
    pub supported: Vec<DetectedDevice>,
    pub unsupported: Vec<UnknownAudientDevice>,
}

impl DeviceLocation {
    /// This location as a mathematical value.
    pub open spec fn spec_key(&self) -> (Seq<char>, u8) {
        (self.bus@, self.address)
    }

    /// Whether two locations name the same bus position.
    pub fn same_as(&self, other: &DeviceLocation) -> (same: bool)
        ensures
            same == (self.spec_key() == other.spec_key()),
    {
        self.address == other.address && self.bus == other.bus
    }

    /// An identical copy of this location.
    pub fn duplicate(&self) -> (copy: DeviceLocation)
        ensures
            copy == *self,
    {
        DeviceLocation { bus: self.bus.clone(), address: self.address }
    }
}

/// An identical copy of an optional string.
pub fn duplicate_name(name: &Option<String>) -> (copy: Option<String>)
    ensures
        copy == *name,
{
    match name {
        Some(text) => Some(text.clone()),
        None => None,
    }
}

impl DetectedDevice {
    /// An identical copy of this detected device.
    pub fn duplicate(&self) -> (copy: DetectedDevice)
        ensures
            copy == *self,
    {
        DetectedDevice {
            location: self.location.duplicate(),
            model: self.model,
            reported_name: duplicate_name(&self.reported_name),
            control_interface: self.control_interface,
        }
    }
}

/// What one USB device reports about itself without being opened: its IDs,
/// product string, bus position, and `(interface number, class)` pairs.
#[derive(Clone, Debug, PartialEq, Eq)]
pub struct DeviceIdentity {
    pub vendor_id: u16,
    pub product_id: u16,
    pub reported_name: Option<String>,
    pub location: DeviceLocation,
    pub interfaces: Vec<(u8, u8)>,
}

/// Whether an identity belongs to a cataloged Audient model.
pub open spec fn is_supported_identity(id: DeviceIdentity) -> bool {
    id.vendor_id == AUDIENT_VENDOR_ID && find_model(catalog(), id.product_id) is Some
}

/// Whether an identity is an Audient device missing from the catalog.
pub open spec fn is_unknown_audient_identity(id: DeviceIdentity) -> bool {
    id.vendor_id == AUDIENT_VENDOR_ID && find_model(catalog(), id.product_id) is None
}

/// The detected device an identity of a cataloged model becomes.
pub open spec fn detected_from(id: DeviceIdentity) -> DetectedDevice {
    DetectedDevice {
        location: id.location,
        model: find_model(catalog(), id.product_id).unwrap(),
        reported_name: id.reported_name,
        control_interface: choose_control_interface(id.interfaces@),
    }
}

/// The cataloged Audient devices among `ids`, in scan order.
pub open spec fn supported_in(ids: Seq<DeviceIdentity>) -> Seq<DetectedDevice>
    decreases ids.len(),
{
    if ids.len() == 0 {
        Seq::empty()
    } else if is_supported_identity(ids.last()) {
        supported_in(ids.drop_last()).push(detected_from(ids.last()))
    } else {
        supported_in(ids.drop_last())
    }
}

/// The uncataloged Audient devices among `ids`, in scan order.
pub open spec fn unknown_in(ids: Seq<DeviceIdentity>) -> Seq<UnknownAudientDevice>
    decreases ids.len(),
{
    if ids.len() == 0 {
        Seq::empty()
    } else if is_unknown_audient_identity(ids.last()) {
        unknown_in(ids.drop_last()).push(
            UnknownAudientDevice {
                product_id: ids.last().product_id,
                reported_name: ids.last().reported_name,
            },
        )
    } else {
        unknown_in(ids.drop_last())
    }
}

impl DiscoveryReport {
    /// A report with no devices.
    pub fn empty() -> (report: DiscoveryReport)
        ensures
            report.supported@.len() == 0,
            report.unsupported@.len() == 0,
    {
        DiscoveryReport { supported: Vec::new(), unsupported: Vec::new() }
    }

    /// Sorts scanned identities into cataloged and unknown Audient devices;
    /// devices of other vendors are dropped.
    pub fn from_identities(devices: Vec<DeviceIdentity>) -> (report: DiscoveryReport)
        ensures
            report.supported@ == supported_in(devices@),
            report.unsupported@ == unknown_in(devices@),
    {
        let mut report = DiscoveryReport::empty();
        let mut i: usize = 0;
        while i < devices.len()
            invariant
                i <= devices@.len(),
                report.supported@ == supported_in(devices@.take(i as int)),
                report.unsupported@ == unknown_in(devices@.take(i as int)),
            decreases devices@.len() - i,
        {
            let device = &devices[i];
            assert(devices@.take(i + 1).drop_last() =~= devices@.take(i as int));
            assert(devices@.take(i + 1).last() == devices@[i as int]);
            if device.vendor_id == AUDIENT_VENDOR_ID {
                match supported_device(device.product_id) {
                    Some(model) => {
                        report.supported.push(
                            DetectedDevice {
                                location: device.location.duplicate(),
                                model,
                                reported_name: duplicate_name(&device.reported_name),
                                control_interface: select_control_interface(
                                    device.interfaces.as_slice(),
                                ),
                            },
                        );
                    },
                    None => {
                        report.unsupported.push(
                            UnknownAudientDevice {
                                product_id: device.product_id,
                                reported_name: duplicate_name(&device.reported_name),
                            },
                        );
                    },
                }
            }
            i += 1;
        }
        assert(devices@.take(devices@.len() as int) =~= devices@);
        report
    }
}

} // verus!
