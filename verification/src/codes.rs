//! The numbers that the native interface fixes: the result code of a call that
//! succeeded, and the tag that each raw structure starts with.

use vstd::prelude::*;

verus! {

/// The result code of a raw call that succeeded.
pub const SUCCESS: i32 = 0;

/// The tag of a raw application structure.
pub const STRUCTURE_TYPE_APPLICATION_INFO: u32 = 0;

/// The tag of a raw instance-creation structure.
pub const STRUCTURE_TYPE_INSTANCE_CREATE_INFO: u32 = 1;

/// The tag of a raw device-creation structure.
pub const STRUCTURE_TYPE_DEVICE_CREATE_INFO: u32 = 3;

/// Reads `mira::vulkan::VK_SUCCESS`, which the bindings define as 0.
#[verifier::external_body]
pub(crate) fn success() -> (code: i32)
    ensures
        code == SUCCESS,
{
    mira::vulkan::VK_SUCCESS
}

/// Reads `mira::vulkan::VK_STRUCTURE_TYPE_APPLICATION_INFO`, which the bindings define
/// as 0.
#[verifier::external_body]
pub(crate) fn application_info_type() -> (tag: u32)
    ensures
        tag == STRUCTURE_TYPE_APPLICATION_INFO,
{
    mira::vulkan::VK_STRUCTURE_TYPE_APPLICATION_INFO
}

/// Reads `mira::vulkan::VK_STRUCTURE_TYPE_INSTANCE_CREATE_INFO`, which the bindings
/// define as 1.
#[verifier::external_body]
pub(crate) fn instance_create_info_type() -> (tag: u32)
    ensures
        tag == STRUCTURE_TYPE_INSTANCE_CREATE_INFO,
{
    mira::vulkan::VK_STRUCTURE_TYPE_INSTANCE_CREATE_INFO
}

/// Reads `mira::vulkan::VK_STRUCTURE_TYPE_DEVICE_CREATE_INFO`, which the bindings
/// define as 3.
#[verifier::external_body]
pub(crate) fn device_create_info_type() -> (tag: u32)
    ensures
        tag == STRUCTURE_TYPE_DEVICE_CREATE_INFO,
{
    mira::vulkan::VK_STRUCTURE_TYPE_DEVICE_CREATE_INFO
}

} // verus!
