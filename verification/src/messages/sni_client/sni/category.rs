//! Category of an SNI item.
use vstd::prelude::*;
use vstd::string::StringSliceAdditionalSpecFns;

verus! {

/// SNI item category.
#[derive(Debug, Clone, Copy, PartialEq, Eq, Structural)]
pub enum StatusNotifierItemCategory {
    /// Generic application status.
    ApplicationStatus,
    /// Communications application status.
    Communications,
    /// System service status.
    SystemServices,
    /// Hardware status.
    Hardware,
}

/// The name of a category on the bus.
pub open spec fn category_name(c: StatusNotifierItemCategory) -> Seq<u8> {
    match c {
        StatusNotifierItemCategory::ApplicationStatus => "ApplicationStatus".spec_bytes(),
        StatusNotifierItemCategory::Communications => "Communications".spec_bytes(),
        StatusNotifierItemCategory::SystemServices => "SystemServices".spec_bytes(),
        StatusNotifierItemCategory::Hardware => "Hardware".spec_bytes(),
    }
}

impl StatusNotifierItemCategory {
    /// The category's name on the bus.
    pub fn as_str(self) -> (r: &'static str)
        ensures
            r.spec_bytes() == category_name(self),
    {
        match self {
            Self::ApplicationStatus => "ApplicationStatus",
            Self::Communications => "Communications",
            Self::SystemServices => "SystemServices",
            Self::Hardware => "Hardware",
        }
    }
}

} // verus!
