use vstd::prelude::*;

verus! {

/// The error kinds the attribute/command access protocol distinguishes.
/// All of them are synchronous and local; mapping them to wire-level status
/// codes belongs to the outer protocol.
#[derive(Clone, Copy, Debug, PartialEq, Eq, Structural)]
pub enum Error {
    /// The attribute id is not declared by this cluster.
    UnsupportedAttribute,
    /// The command id is not declared by this cluster.
    UnsupportedCommand,
    /// The schema descriptor does not permit the operation (for example a
    /// write to a read-only attribute).
    UnsupportedAccess,
    /// The payload could not be decoded as the attribute's type.
    MalformedData,
    /// The caller's known data version is stale: a write based on it might
    /// silently overwrite a newer value.
    VersionMismatch,
}

} // verus!
