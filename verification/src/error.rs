//! The ways in which talking to the device can fail.

use vstd::prelude::*;

verus! {

/// Why a session could not be opened, or a command not be delivered.
#[derive(Clone, Copy, Debug, PartialEq, Eq, Structural)]
pub enum Error {
    /// No device with the expected vendor and product id is attached.
    DeviceNotFound,
    /// The operating system refused to claim the lighting interface, or to
    /// release it again.
    InterfaceClaimFailed,
    /// The kernel's driver could not be detached from the interface, or not
    /// be attached to it again.
    KernelDriverError,
    /// The device rejected or stalled a control transfer, or left the bus
    /// while it ran.
    TransferFailed,
    /// A control transfer did not complete within the session's timeout.
    TransferTimeout,
}

} // verus!
