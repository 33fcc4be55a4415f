//! The handles that the native interface hands out. A handle names a resource that
//! the native library owns; this layer only carries it.

use vstd::prelude::*;

verus! {

/// Names an instance.
#[derive(Clone, Copy, Debug, PartialEq, Eq)]
pub struct InstanceHandle {
    pub raw: usize,
}

/// Names a physical device.
#[derive(Clone, Copy, Debug, PartialEq, Eq)]
pub struct PhysicalDeviceHandle {
    pub raw: usize,
}

/// Names a logical device.
#[derive(Clone, Copy, Debug, PartialEq, Eq)]
pub struct LogicalDeviceHandle {
    pub raw: usize,
}

/// Names a surface.
#[derive(Clone, Copy, Debug, PartialEq, Eq)]
pub struct SurfaceHandle {
    pub raw: usize,
}

impl SurfaceHandle {
    /// The handle that names no surface.
    pub fn null() -> (handle: SurfaceHandle)
        ensures
            handle.raw == 0,
    {
        SurfaceHandle { raw: 0 }
    }
}

} // verus!
