use cinder::codes::SUCCESS;
use cinder::device_create_info::DeviceCreateInfoBuilder;
use cinder::functions::{
    call_outcome, device_create_argument, instance_create_argument, is_success,
    physical_device_surface_support, surface_or_null, Enumeration,
};
use cinder::handles::{
    InstanceHandle, LogicalDeviceHandle, PhysicalDeviceHandle, SurfaceHandle,
};
use cinder::instance_create_info::{InstanceCreateInfo, InstanceCreateInfoBuilder};
use cinder::logical_device::LogicalDevice;
use cinder::marshal::MarshalError;

#[test]
fn success_is_the_code_of_the_bindings() {
    assert_eq!(SUCCESS, 0);
    assert_eq!(SUCCESS, mira::vulkan::VK_SUCCESS);
    assert!(is_success(0));
    assert!(!is_success(1));
    assert!(!is_success(-1));
    assert!(!is_success(mira::vulkan::VK_INCOMPLETE));
    assert!(!is_success(i32::MIN));
}

#[test]
fn successful_call_yields_its_output() {
    let handle = InstanceHandle { raw: 0x1000 };
    assert_eq!(call_outcome(0, handle), Ok(handle));
}

#[test]
fn failed_call_yields_its_code() {
    let handle = InstanceHandle { raw: 0 };
    assert_eq!(call_outcome(-3, handle), Err(-3));
    assert_eq!(call_outcome(5, handle), Err(5));
    assert_eq!(
        call_outcome(mira::vulkan::VK_ERROR_INCOMPATIBLE_DRIVER, handle),
        Err(-9)
    );
}

#[test]
fn enumeration_returns_the_populated_entries_in_order() {
    let enumeration = Enumeration::begin(0, 3).ok().unwrap();
    assert_eq!(enumeration.capacity(), 3);
    let entries = vec![
        PhysicalDeviceHandle { raw: 30 },
        PhysicalDeviceHandle { raw: 10 },
        PhysicalDeviceHandle { raw: 20 },
    ];
    let devices = enumeration.finish(0, entries.clone()).unwrap();
    assert_eq!(devices.len(), 3);
    assert_eq!(devices, entries);
}

#[test]
fn enumeration_of_nothing_is_empty_and_no_error() {
    let enumeration = Enumeration::begin(0, 0).ok().unwrap();
    assert_eq!(enumeration.capacity(), 0);
    let devices: Vec<PhysicalDeviceHandle> = enumeration.finish(0, Vec::new()).unwrap();
    assert!(devices.is_empty());
}

#[test]
fn enumeration_stops_at_a_failed_count_query() {
    assert_eq!(Enumeration::begin(-1, 4).err(), Some(-1));
    assert_eq!(Enumeration::begin(5, 0).err(), Some(5));
}

#[test]
fn enumeration_fails_with_the_code_of_the_populate_call() {
    let enumeration = Enumeration::begin(0, 2).ok().unwrap();
    let entries = vec![PhysicalDeviceHandle { raw: 1 }, PhysicalDeviceHandle { raw: 0 }];
    assert_eq!(enumeration.finish(5, entries), Err(5));
}

#[test]
fn enumeration_capacity_is_the_reported_count() {
    let enumeration = Enumeration::begin(0, u32::MAX).ok().unwrap();
    assert_eq!(enumeration.capacity(), u32::MAX as usize);
}

#[test]
fn zero_means_unsupported_and_nonzero_means_supported() {
    assert!(!physical_device_surface_support(0, 0));
    assert!(physical_device_surface_support(0, 1));
    assert!(physical_device_surface_support(0, 2));
    assert!(physical_device_surface_support(0, u32::MAX));
}

#[test]
fn absent_surface_is_the_null_handle() {
    assert_eq!(surface_or_null(None), SurfaceHandle { raw: 0 });
    assert_eq!(SurfaceHandle::null().raw, 0);
    let surface = SurfaceHandle { raw: 0xbeef };
    assert_eq!(surface_or_null(Some(surface)), surface);
}

#[test]
fn absent_descriptor_is_a_null_argument() {
    let absent: Option<InstanceCreateInfo<(), ()>> = None;
    assert!(instance_create_argument(absent).ok().unwrap().is_none());
    assert!(device_create_argument::<()>(None).ok().unwrap().is_none());
}

#[test]
fn present_descriptor_is_marshaled_for_the_call() {
    let info = InstanceCreateInfoBuilder::<(), ()>::new()
        .flags(1)
        .enabled_extensions(Some(vec![String::from("VK_KHR_surface")]))
        .build();
    let raw = instance_create_argument(Some(info)).ok().unwrap().unwrap();
    assert_eq!(raw.sType, 1);
    assert_eq!(raw.flags, 1);
    assert_eq!(raw.enabledExtensionCount, 1);

    let device = DeviceCreateInfoBuilder::<()>::new()
        .enabled_layer_names(vec!["layer"])
        .build();
    let raw = device_create_argument(Some(device)).ok().unwrap().unwrap();
    assert_eq!(raw.sType, 3);
    assert_eq!(raw.enabledLayerCount, 1);
}

#[test]
fn descriptor_that_cannot_be_marshaled_is_an_error() {
    let info = InstanceCreateInfoBuilder::<(), ()>::new()
        .enabled_layer_names(vec!["\0"])
        .build();
    assert_eq!(
        instance_create_argument(Some(info)).err(),
        Some(MarshalError::LayerName {
            index: 0,
            position: 0
        })
    );
    let device = DeviceCreateInfoBuilder::<()>::new()
        .enabled_layer_names(vec!["a\0"])
        .build();
    assert_eq!(
        device_create_argument(Some(device)).err(),
        Some(MarshalError::LayerName {
            index: 0,
            position: 1
        })
    );
}

#[test]
fn logical_device_owns_the_created_handle() {
    let created = call_outcome(0, LogicalDeviceHandle { raw: 42 });
    let device = LogicalDevice::new(created);
    assert_eq!(device.handle(), LogicalDeviceHandle { raw: 42 });
}
