//! The errors that end the program, as opposed to those that fail one test.

use vstd::prelude::*;

verus! {

/// Why the program ends in failure. None of these is retried.
#[derive(Clone, Copy, Debug, PartialEq, Eq, Structural)]
pub enum HarnessError {
    /// The firmware project was not found at the path given.
    PathNotFound,
    /// Building or flashing the firmware ended with a failure status.
    SubprocessFailure,
    /// The machine has no Bluetooth adapter.
    AdapterUnavailable,
    /// Scanning, connecting or service discovery failed on the link.
    ConnectionFailure,
    /// The stream of discovery events ended before the device was seen.
    DeviceNotFound,
    /// The device was seen but did not appear among the known peripherals
    /// within the polls allowed.
    DeviceNotResolved,
    /// The suite ran and at least one test failed.
    TestsFailed,
    /// The session was handed an event that its stage does not take.
    UnexpectedEvent,
}

impl HarnessError {
    /// The line with which the program reports the error.
    pub open spec fn message_text(self) -> Seq<char> {
        match self {
            HarnessError::PathNotFound => "Path does not exist."@,
            HarnessError::SubprocessFailure => "Flashing failed."@,
            HarnessError::AdapterUnavailable => "No adapters found."@,
            HarnessError::ConnectionFailure => "Connection failed."@,
            HarnessError::DeviceNotFound => "No device found."@,
            HarnessError::DeviceNotResolved => "Device not among the known peripherals."@,
            HarnessError::TestsFailed => "Tests failed."@,
            HarnessError::UnexpectedEvent => "Unexpected event."@,
        }
    }

    /// The line with which the program reports the error.
    pub fn message(&self) -> (line: &'static str)
        ensures
            line@ == self.message_text(),
    {
        match self {
            HarnessError::PathNotFound => "Path does not exist.",
            HarnessError::SubprocessFailure => "Flashing failed.",
            HarnessError::AdapterUnavailable => "No adapters found.",
            HarnessError::ConnectionFailure => "Connection failed.",
            HarnessError::DeviceNotFound => "No device found.",
            HarnessError::DeviceNotResolved => "Device not among the known peripherals.",
            HarnessError::TestsFailed => "Tests failed.",
            HarnessError::UnexpectedEvent => "Unexpected event.",
        }
    }
}

} // verus!
