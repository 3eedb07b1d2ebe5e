//! The error taxonomy of the routing core. Every failure surfaces one of
//! these stable kinds together with a human-readable message.

use vstd::prelude::*;

verus! {

/// A failure of registration, routing, translation or a driver lifecycle
/// call. No kind is fatal to the router itself.
#[derive(Debug, Clone, Copy, PartialEq, Eq, Structural)]
pub enum RouterError {
    /// The addressed device id is not in the registry.
    UnknownDevice,
    /// The addressed device has no resource of the given name.
    UnknownResource,
    /// The resource does not grant the access the command type needs.
    PermissionDenied,
    /// The bridge does not support the requested protocol pair.
    UnsupportedTranslation,
    /// The bridge supports the pair but could not rewrite the command.
    TranslationFailed,
    /// A driver reported a failure while executing a command.
    DriverExecutionFailed,
    /// A driver could not begin listening, or was already started.
    DriverStartFailed,
    /// A driver could not release its listening resources.
    DriverStopFailed,
    /// A device with the same id is already registered.
    RegistrationConflict,
}

impl RouterError {
    /// The human-readable description of this error kind.
    pub open spec fn spec_message(self) -> Seq<char> {
        match self {
            RouterError::UnknownDevice => "unknown device"@,
            RouterError::UnknownResource => "unknown resource"@,
            RouterError::PermissionDenied => "permission denied"@,
            RouterError::UnsupportedTranslation => "unsupported translation"@,
            RouterError::TranslationFailed => "translation failed"@,
            RouterError::DriverExecutionFailed => "driver execution failed"@,
            RouterError::DriverStartFailed => "driver start failed"@,
            RouterError::DriverStopFailed => "driver stop failed"@,
            RouterError::RegistrationConflict => "registration conflict"@,
        }
    }

    /// A human-readable description of this error kind.
    pub fn message(&self) -> (r: String)
        ensures
            r@ == self.spec_message(),
    {
        match self {
            RouterError::UnknownDevice => "unknown device".to_owned(),
            RouterError::UnknownResource => "unknown resource".to_owned(),
            RouterError::PermissionDenied => "permission denied".to_owned(),
            RouterError::UnsupportedTranslation => "unsupported translation".to_owned(),
            RouterError::TranslationFailed => "translation failed".to_owned(),
            RouterError::DriverExecutionFailed => "driver execution failed".to_owned(),
            RouterError::DriverStartFailed => "driver start failed".to_owned(),
            RouterError::DriverStopFailed => "driver stop failed".to_owned(),
            RouterError::RegistrationConflict => "registration conflict".to_owned(),
        }
    }
}

} // verus!
