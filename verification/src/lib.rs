//! A safe layer over a native graphics interface in the style of Vulkan.
//!
//! Descriptors are built with builders and put into a raw form: the values that the
//! native interface reads, with `None` for a null pointer and a buffer that ends in a
//! zero byte for each name. The call wrappers are split where the raw call is made:
//! this library says what is handed to a call and what a wrapper returns for each
//! thing that the call can give back.

#![allow(non_snake_case)]

pub mod application_info;
pub mod c_string;
pub mod codes;
pub mod device_create_info;
pub mod functions;
pub mod handles;
pub mod instance_create_info;
pub mod logical_device;
pub mod marshal;
pub mod names;
pub mod views;
