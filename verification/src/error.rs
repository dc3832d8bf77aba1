//! The failures that a USB operation can report, and their descriptions.

use rusb::Error;
use vstd::prelude::*;

verus! {

/// Why a USB operation failed.
#[derive(Debug, Clone, Copy, PartialEq, Eq, Structural)]
pub enum UsbError {
    /// Input or output error.
    Io,
    /// Invalid parameter.
    InvalidParam,
    /// Access denied: insufficient permissions.
    Access,
    /// No such device: it may have been disconnected.
    NoDevice,
    /// Entity not found.
    NotFound,
    /// Resource busy.
    Busy,
    /// The operation timed out.
    Timeout,
    /// The device offered more data than asked for.
    Overflow,
    /// The endpoint halted.
    Pipe,
    /// A system call was interrupted.
    Interrupted,
    /// Insufficient memory.
    NoMem,
    /// The operation is not supported on this platform.
    NotSupported,
    /// The device returned a malformed descriptor.
    BadDescriptor,
    /// Any other error.
    Other,
}

impl UsbError {
    /// The description of the error, in the words of `rusb`.
    pub open spec fn description(self) -> Seq<char> {
        match self {
            UsbError::Io => "Input/Output Error"@,
            UsbError::InvalidParam => "Invalid parameter"@,
            UsbError::Access => "Access denied (insufficient permissions)"@,
            UsbError::NoDevice => "No such device (it may have been disconnected)"@,
            UsbError::NotFound => "Entity not found"@,
            UsbError::Busy => "Resource busy"@,
            UsbError::Timeout => "Operation timed out"@,
            UsbError::Overflow => "Overflow"@,
            UsbError::Pipe => "Pipe error"@,
            UsbError::Interrupted => "System call interrupted (perhaps due to signal)"@,
            UsbError::NoMem => "Insufficient memory"@,
            UsbError::NotSupported => "Operation not supported or unimplemented on this platform"@,
            UsbError::BadDescriptor => "Malformed descriptor"@,
            UsbError::Other => "Other error"@,
        }
    }

    /// No error has an empty description.
    pub proof fn description_is_not_empty(self)
        ensures
            self.description().len() > 0,
    {
        reveal_strlit("Input/Output Error");
        reveal_strlit("Invalid parameter");
        reveal_strlit("Access denied (insufficient permissions)");
        reveal_strlit("No such device (it may have been disconnected)");
        reveal_strlit("Entity not found");
        reveal_strlit("Resource busy");
        reveal_strlit("Operation timed out");
        reveal_strlit("Overflow");
        reveal_strlit("Pipe error");
        reveal_strlit("System call interrupted (perhaps due to signal)");
        reveal_strlit("Insufficient memory");
        reveal_strlit("Operation not supported or unimplemented on this platform");
        reveal_strlit("Malformed descriptor");
        reveal_strlit("Other error");
    }

    /// Describes the error for a human reader.
    pub fn describe(&self) -> (text: String)
        ensures
            text@ == self.description(),
            text@.len() > 0,
    {
        proof {
            self.description_is_not_empty();
        }
        display_text(*self)
    }
}

/// The text that `rusb` displays for an error: `<rusb::Error as Display>::fmt`
/// by way of `to_string`. It writes one fixed string for each variant and
/// nothing else; the contract lists those strings.
#[verifier::external_body]
fn display_text(error: UsbError) -> (text: String)
    ensures
        text@ == error.description(),
{
    let e = match error {
        UsbError::Io => Error::Io, UsbError::InvalidParam => Error::InvalidParam,
        UsbError::Access => Error::Access, UsbError::NoDevice => Error::NoDevice,
        UsbError::NotFound => Error::NotFound, UsbError::Busy => Error::Busy,
        UsbError::Timeout => Error::Timeout, UsbError::Overflow => Error::Overflow,
        UsbError::Pipe => Error::Pipe, UsbError::Interrupted => Error::Interrupted,
        UsbError::NoMem => Error::NoMem, UsbError::NotSupported => Error::NotSupported,
        UsbError::BadDescriptor => Error::BadDescriptor, UsbError::Other => Error::Other,
    };
    e.to_string()
}

} // verus!
