//! Status of an SNI item.
use vstd::prelude::*;
use vstd::string::StringSliceAdditionalSpecFns;

verus! {

/// SNI item status.
#[derive(Debug, Clone, Copy, PartialEq, Eq, Structural)]
pub enum StatusNotifierItemStatus {
    /// The item should not be shown.
    Passive,
    /// The item is active and may be shown.
    Active,
    /// The item requires user attention.
    NeedsAttention,
}

/// The name of a status on the bus.
pub open spec fn status_name(s: StatusNotifierItemStatus) -> Seq<u8> {
    match s {
        StatusNotifierItemStatus::Passive => "Passive".spec_bytes(),
        StatusNotifierItemStatus::Active => "Active".spec_bytes(),
        StatusNotifierItemStatus::NeedsAttention => "NeedsAttention".spec_bytes(),
    }
}

impl StatusNotifierItemStatus {
    /// The status's name on the bus.
    pub fn as_str(self) -> (r: &'static str)
        ensures
            r.spec_bytes() == status_name(self),
    {
        match self {
            Self::Passive => "Passive",
            Self::Active => "Active",
            Self::NeedsAttention => "NeedsAttention",
        }
    }
}

} // verus!
