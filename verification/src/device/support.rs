//! Per-model support honesty: cataloged vs evidenced vs maintainer-verified.

use vstd::prelude::*;

use super::catalog::DeviceModel;

verus! {

/// How strongly Selah can claim this model works.
#[derive(Clone, Copy, Debug, PartialEq, Eq, Structural)]
pub enum SupportLevel {
    /// Maintainer hardware on file.
    VerifiedPrimary,
    /// Externally evidenced mapping, no maintainer audible proof.
    ReferenceDerived,
    /// Known USB ID only; unavailable controls stay hidden.
    Cataloged,
}

/// The support level of a product ID: only the iD14 MKII (`0x0008`) is
/// maintainer-verified, the iD24 (`0x000d`) has an evidenced routing map,
/// and everything else is catalog-only.
pub open spec fn support_level_of(product_id: u16) -> SupportLevel {
    if product_id == 0x0008 {
        SupportLevel::VerifiedPrimary
    } else if product_id == 0x000d {
        SupportLevel::ReferenceDerived
    } else {
        SupportLevel::Cataloged
    }
}

/// Maps a catalog model to its support level.
pub fn support_level(model: &DeviceModel) -> (level: SupportLevel)
    ensures
        level == support_level_of(model.product_id),
{
    match model.product_id {
        0x0008 => SupportLevel::VerifiedPrimary,
        0x000d => SupportLevel::ReferenceDerived,
        _ => SupportLevel::Cataloged,
    }
}

/// The UI label of a support level.
pub open spec fn support_label_text(level: SupportLevel) -> Seq<char> {
    match level {
        SupportLevel::VerifiedPrimary => "Verified on iD14 MKII"@,
        SupportLevel::ReferenceDerived => "Reference-derived"@,
        SupportLevel::Cataloged => "Cataloged — unverified"@,
    }
}

/// Short UI-safe label; never claims verification it does not have.
pub fn support_label(level: SupportLevel) -> (text: &'static str)
    ensures
        text@ == support_label_text(level),
{
    match level {
        SupportLevel::VerifiedPrimary => "Verified on iD14 MKII",
        SupportLevel::ReferenceDerived => "Reference-derived",
        SupportLevel::Cataloged => "Cataloged — unverified",
    }
}

} // verus!
