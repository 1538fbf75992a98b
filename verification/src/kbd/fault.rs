//! What can go wrong around an interceptor, and which of it is fatal.

use vstd::prelude::*;

verus! {

/// What opening a device returns in place of a descriptor when it failed.
pub const OPEN_FAILED: i32 = -1;

/// A failed operation on one of the interceptor's devices.
#[derive(Clone, Copy, Debug, PartialEq, Eq, Structural)]
pub enum Fault {
    /// The physical input device could not be opened.
    DeviceOpen,
    /// The virtual output device could not be created.
    SinkCreate,
    /// A read delivered something other than one whole event record.
    PartialRead,
    /// An event could not be written to the virtual output device.
    SinkWrite,
    /// Exclusive access to the physical input device was not granted.
    Grab,
}

impl Fault {
    /// Every fault ends the interceptor, except a refused grab: without
    /// exclusive access the interceptor goes on in shared mode.
    pub open spec fn fatal(self) -> bool {
        !(self is Grab)
    }

    /// The words that name the failed operation.
    pub open spec fn label(self) -> Seq<char> {
        match self {
            Fault::DeviceOpen => "Cannot open input device"@,
            Fault::SinkCreate => "Cannot create output device"@,
            Fault::PartialRead => "Read a partial event"@,
            Fault::SinkWrite => "Cannot write to output device"@,
            Fault::Grab => "Cannot grab input device"@,
        }
    }

    /// The diagnostic for this fault on the device at `device_path`: the
    /// operation, a colon and a space, and the path.
    pub open spec fn diagnostic(self, device_path: Seq<char>) -> Seq<char> {
        self.label() + ": "@ + device_path
    }

    /// Judges what opening the physical input device returned: the fault, if
    /// it is one, and nothing for a descriptor.
    pub fn on_open(fd: i32) -> (fault: Option<Fault>)
        ensures
            fd == OPEN_FAILED ==> fault == Some(Fault::DeviceOpen),
            fd != OPEN_FAILED ==> fault.is_none(),
    {
        if fd == OPEN_FAILED {
            Some(Fault::DeviceOpen)
        } else {
            None
        }
    }

    /// Whether the interceptor must stop on this fault.
    pub fn is_fatal(&self) -> (fatal: bool)
        ensures
            fatal == self.fatal(),
    {
        match self {
            Fault::Grab => false,
            _ => true,
        }
    }

    /// Renders the diagnostic for this fault on the device at `device_path`.
    pub fn message(&self, device_path: &str) -> (text: String)
        ensures
            text@ == self.diagnostic(device_path@),
    {
        let label: &str = match self {
            Fault::DeviceOpen => "Cannot open input device",
            Fault::SinkCreate => "Cannot create output device",
            Fault::PartialRead => "Read a partial event",
            Fault::SinkWrite => "Cannot write to output device",
            Fault::Grab => "Cannot grab input device",
        };
        let mut text = String::from_str(label);
        text.append(": ");
        text.append(device_path);
        text
    }
}

} // verus!
