//! Copy-paste diagnostics without serials, captures, or paths.

use vstd::prelude::*;

use super::discovery::{DetectedDevice, DiscoveryReport, UnknownAudientDevice};
use super::support::{support_label, support_label_text, support_level, support_level_of};
use crate::text::{decimal_digits, hex4_digits, push_decimal, push_hex4};

verus! {

/// The diagnostics header line.
pub open spec fn diagnostics_header() -> Seq<char> {
    "Selah diagnostics (copy-safe)\n"@
}

/// How a detected device's control interface is described.
pub open spec fn control_description(device: DetectedDevice) -> Seq<char> {
    match device.control_interface {
        Some(control) => "control "@ + decimal_digits(control.number as nat) + " ("@
            + control.kind.spec_label() + ")"@,
        None => "no safe control interface"@,
    }
}

/// The diagnostics line of a detected device: model, `vid:pid`, bus and
/// address, control interface, and support honesty. The product string is
/// deliberately left out: it can carry machine-specific text.
pub open spec fn detected_line(device: DetectedDevice) -> Seq<char> {
    "- "@ + device.model.name@ + " 2708:"@ + hex4_digits(device.model.product_id) + " @ "@
        + device.location.bus@ + ":"@ + decimal_digits(device.location.address as nat) + " · "@
        + control_description(device) + " · "@ + support_label_text(
        support_level_of(device.model.product_id),
    ) + "\n"@
}

/// The diagnostics line of an unknown Audient device.
pub open spec fn unknown_line(device: UnknownAudientDevice) -> Seq<char> {
    "- unknown Audient 2708:"@ + hex4_digits(device.product_id) + " · unsupported\n"@
}

/// The lines of all detected devices, in report order.
pub open spec fn detected_lines(devices: Seq<DetectedDevice>) -> Seq<char>
    decreases devices.len(),
{
    if devices.len() == 0 {
        Seq::empty()
    } else {
        detected_lines(devices.drop_last()) + detected_line(devices.last())
    }
}

/// The lines of all unknown devices, in report order.
pub open spec fn unknown_lines(devices: Seq<UnknownAudientDevice>) -> Seq<char>
    decreases devices.len(),
{
    if devices.len() == 0 {
        Seq::empty()
    } else {
        unknown_lines(devices.drop_last()) + unknown_line(devices.last())
    }
}

/// The whole diagnostics block of a report.
pub open spec fn diagnostics_block(report: DiscoveryReport) -> Seq<char> {
    diagnostics_header() + detected_lines(report.supported@) + unknown_lines(report.unsupported@)
        + if report.supported@.len() == 0 && report.unsupported@.len() == 0 {
        "- no Audient interfaces detected\n"@
    } else {
        Seq::empty()
    }
}

fn push_detected_line(out: &mut String, device: &DetectedDevice)
    ensures
        final(out)@ == old(out)@ + detected_line(*device),
{
    let ghost start = out@;
    out.append("- ");
    out.append(device.model.name);
    out.append(" 2708:");
    push_hex4(out, device.model.product_id);
    out.append(" @ ");
    out.append(device.location.bus.as_str());
    out.append(":");
    push_decimal(out, device.location.address as u64);
    out.append(" · ");
    match device.control_interface {
        Some(control) => {
            out.append("control ");
            push_decimal(out, control.number as u64);
            out.append(" (");
            out.append(control.kind.label());
            out.append(")");
        },
        None => {
            out.append("no safe control interface");
        },
    }
    out.append(" · ");
    out.append(support_label(support_level(&device.model)));
    out.append("\n");
    assert(out@ =~= start + detected_line(*device));
}

/// One paste-safe block describing what Selah sees.
///
/// Includes only: model name, `vid:pid`, bus and address, control-interface
/// number and kind, and the support label.
pub fn diagnostics_text(report: &DiscoveryReport) -> (text: String)
    ensures
        text@ == diagnostics_block(*report),
{
    let mut out = "Selah diagnostics (copy-safe)\n".to_owned();
    let mut i: usize = 0;
    while i < report.supported.len()
        invariant
            i <= report.supported@.len(),
            out@ == diagnostics_header() + detected_lines(report.supported@.take(i as int)),
        decreases report.supported@.len() - i,
    {
        push_detected_line(&mut out, &report.supported[i]);
        assert(report.supported@.take(i + 1).drop_last() =~= report.supported@.take(i as int));
        i += 1;
    }
    assert(report.supported@.take(i as int) =~= report.supported@);
    let mut j: usize = 0;
    while j < report.unsupported.len()
        invariant
            j <= report.unsupported@.len(),
            out@ == diagnostics_header() + detected_lines(report.supported@) + unknown_lines(
                report.unsupported@.take(j as int),
            ),
        decreases report.unsupported@.len() - j,
    {
        let ghost before = out@;
        out.append("- unknown Audient 2708:");
        push_hex4(&mut out, report.unsupported[j].product_id);
        out.append(" · unsupported\n");
        assert(report.unsupported@.take(j + 1).drop_last() =~= report.unsupported@.take(j as int));
        assert(out@ =~= before + unknown_line(report.unsupported@[j as int]));
        j += 1;
    }
    assert(report.unsupported@.take(j as int) =~= report.unsupported@);
    if report.supported.len() == 0 && report.unsupported.len() == 0 {
        out.append("- no Audient interfaces detected\n");
    } else {
        assert(out@ =~= out@ + Seq::<char>::empty());
    }
    out
}

} // verus!
