//! Audient device identification and the pure control protocol.

pub mod catalog;
pub mod session;

pub use catalog::{AUDIENT_VENDOR_ID, DeviceModel, supported_device, supported_devices};
pub use session::{ControlInterface, ControlInterfaceKind, SessionError, plan_session, select_control_interface};
pub mod discovery;
pub use discovery::{DetectedDevice, DeviceIdentity, DeviceLocation, DiscoveryReport, UnknownAudientDevice};
pub mod protocol;
pub mod support;
pub use support::{SupportLevel, support_label, support_level};
pub mod error;
pub use error::{DiscoveryError, DiscoveryOperation, UsbError, UsbErrorKind};
pub mod control;
pub use control::{ControlOperation, FeedbackPlan, FeedbackSnapshot, MonitorSnapshot, validated_channel};
pub use protocol::{DecodeError, MonitorToggle};
pub mod diagnostics;
pub use diagnostics::diagnostics_text;
pub mod watch;
pub use watch::DeviceWatchEvent;
