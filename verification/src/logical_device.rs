//! The logical device: the one owner of a device handle.

use crate::handles::LogicalDeviceHandle;
use vstd::prelude::*;

verus! {

/// A logical device. It owns its handle: there is no way to copy it.
pub struct LogicalDevice {
    device: LogicalDeviceHandle,
}

impl View for LogicalDevice {
    type V = LogicalDeviceHandle;

    closed spec fn view(&self) -> LogicalDeviceHandle {
        self.device
    }
}

impl LogicalDevice {
    /// Takes the device that a creation call returned. The call must have succeeded.
    pub fn new(created: Result<LogicalDeviceHandle, i32>) -> (device: LogicalDevice)
        requires
            created is Ok,
        ensures
            device@ == created->Ok_0,
    {
        match created {
            Ok(handle) => LogicalDevice { device: handle },
            Err(_) => {
                proof {
                    assert(false);
                }
                unreached()
            },
        }
    }

    /// The handle of the device.
    pub fn handle(&self) -> (handle: LogicalDeviceHandle)
        ensures
            handle == self@,
    {
        self.device
    }
}

} // verus!
