use vstd::prelude::*;

verus! {

/// The error kinds that a host snapshot build can surface.
///
/// The first three arise at the foreign boundaries (bus, verbs and
/// device-database handles) and are reported by the unverified glue that
/// drives those scans.  The library's own verified logic only ever produces
/// `UnrecognizedCode`, `MissingProperty` and `MissingAttribute`.
#[derive(Clone, Copy, PartialEq, Eq, Structural, Debug)]
pub enum HcaError {
    /// A bus, verbs or database context could not be created.
    HandleAllocationFailed,
    /// A verbs device could not be opened.
    DeviceOpenFailed,
    /// A device or port attribute query returned a failure status.
    AttributeQueryFailed,
    /// A raw numeric link/state/phys-state code has no known mapping.
    UnrecognizedCode,
    /// A required device property is absent from a metadata record.
    MissingProperty,
    /// A required sysfs attribute is absent from a metadata record.
    MissingAttribute,
}

impl HcaError {
    /// A short human-readable label for the error kind.
    pub fn label(&self) -> (r: String)
        ensures
            r@ == self.spec_label(),
    {
        match self {
            Self::HandleAllocationFailed => "handle allocation failed".to_owned(),
            Self::DeviceOpenFailed => "device open failed".to_owned(),
            Self::AttributeQueryFailed => "attribute query failed".to_owned(),
            Self::UnrecognizedCode => "unrecognized code".to_owned(),
            Self::MissingProperty => "missing property".to_owned(),
            Self::MissingAttribute => "missing attribute".to_owned(),
        }
    }

    /// The label each kind carries.
    pub open spec fn spec_label(&self) -> Seq<char> {
        match self {
            Self::HandleAllocationFailed => "handle allocation failed"@,
            Self::DeviceOpenFailed => "device open failed"@,
            Self::AttributeQueryFailed => "attribute query failed"@,
            Self::UnrecognizedCode => "unrecognized code"@,
            Self::MissingProperty => "missing property"@,
            Self::MissingAttribute => "missing attribute"@,
        }
    }
}

} // verus!
