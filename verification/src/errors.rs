//! Typed failures of the binding layer. Every native-reported error is
//! converted into one of these and returned to the immediate caller;
//! none of them aborts the process.

use vstd::prelude::*;

verus! {

/// Failures of the one-time library load.
#[derive(Debug)]
pub enum LoadError {
    /// The library was already loaded in this process; a second load is
    /// rejected, not silently ignored.
    AlreadyLoaded,
    /// The library file could not be opened; carries the loader's
    /// message.
    OpenFailed(String),
    /// An expected entry point is absent; carries the entry point's
    /// name. The whole load fails and nothing is published.
    LinkError(String),
}

/// Failures of the connection lifecycle and the cursor machinery; each
/// carries the native side's message.
#[derive(Debug)]
pub enum DriverError {
    /// Malformed connection parameters.
    Param(String),
    /// Session establishment or teardown failure.
    Connection(String),
    /// Malformed request text or bind mismatch.
    Request(String),
    /// Cursor failure or misuse.
    Fetch(String),
    /// Cancellation failure.
    Cancel(String),
}

/// The native side's message carried by a lifecycle failure.
pub open spec fn driver_error_message(e: DriverError) -> Seq<char> {
    match e {
        DriverError::Param(s) => s@,
        DriverError::Connection(s) => s@,
        DriverError::Request(s) => s@,
        DriverError::Fetch(s) => s@,
        DriverError::Cancel(s) => s@,
    }
}

impl DriverError {
    /// The native side's message carried by this failure.
    pub fn message(&self) -> (m: &String)
        ensures
            m@ == driver_error_message(*self),
    {
        match self {
            DriverError::Param(s) => s,
            DriverError::Connection(s) => s,
            DriverError::Request(s) => s,
            DriverError::Fetch(s) => s,
            DriverError::Cancel(s) => s,
        }
    }
}

} // verus!
