use cinder::application_info::{ApplicationInfo, ApplicationInfoBuilder};
use cinder::codes::{
    STRUCTURE_TYPE_APPLICATION_INFO, STRUCTURE_TYPE_DEVICE_CREATE_INFO,
    STRUCTURE_TYPE_INSTANCE_CREATE_INFO,
};
use cinder::device_create_info::DeviceCreateInfoBuilder;
use cinder::instance_create_info::InstanceCreateInfoBuilder;
use cinder::marshal::{count_of, MarshalError};
use mira::version::VK_MAKE_API_VERSION;

fn triangle_application<'a>() -> ApplicationInfo<'a, ()> {
    ApplicationInfoBuilder::<()>::new()
        .application_name("Triangle")
        .engine_name("None")
        .application_version(VK_MAKE_API_VERSION(0, 1, 0, 0))
        .engine_version(VK_MAKE_API_VERSION(0, 1, 3, 0))
        .build()
}

#[test]
fn application_info_test() {
    let app_info = ApplicationInfoBuilder::<()>::new()
        .application_name("Triangle")
        .engine_name("None")
        .application_version(VK_MAKE_API_VERSION(0, 1, 0, 0))
        .engine_version(VK_MAKE_API_VERSION(0, 1, 3, 0))
        .build();
    let _instance_create_info = InstanceCreateInfoBuilder::<(), ()>::new()
        .application_info(app_info)
        .build();
}

#[test]
fn triangle_descriptor_marshals() {
    let info = InstanceCreateInfoBuilder::<(), ()>::new()
        .application_info(triangle_application())
        .build();
    let raw = info.into_raw().unwrap();
    assert_eq!(raw.sType, 1);
    assert!(raw.pNext.is_none());
    assert_eq!(raw.flags, 0);
    assert_eq!(raw.enabledLayerCount, 0);
    assert!(raw.ppEnabledLayerNames.is_none());
    assert_eq!(raw.enabledExtensionCount, 0);
    assert!(raw.ppEnabledExtensionNames.is_none());
    let app = raw.pApplicationInfo.expect("the application descriptor is present");
    assert_eq!(app.sType, 0);
    assert!(app.pNext.is_none());
    assert_eq!(app.pApplicationName.as_bytes_with_nul(), b"Triangle\0");
    assert_eq!(app.pEngineName.as_bytes_with_nul(), b"None\0");
    assert_eq!(app.applicationVersion, 4194304);
    assert_eq!(app.engineVersion, 4206592);
    assert_eq!(app.apiVersion, 0);
}

#[test]
fn application_builder_defaults() {
    let info = ApplicationInfoBuilder::<u8>::new().build();
    assert!(info.pNext.is_none());
    assert_eq!(info.pApplicationName, "");
    assert_eq!(info.applicationVersion, 0);
    assert_eq!(info.pEngineName, "");
    assert_eq!(info.engineVersion, 0);
    assert!(info.apiVersion.is_none());
    let raw = info.into_raw().unwrap();
    assert_eq!(raw.sType, STRUCTURE_TYPE_APPLICATION_INFO);
    assert!(raw.pNext.is_none());
    assert_eq!(raw.pApplicationName.as_bytes_with_nul(), &[0u8]);
    assert_eq!(raw.pEngineName.as_bytes_with_nul(), &[0u8]);
    assert_eq!(raw.applicationVersion, 0);
    assert_eq!(raw.engineVersion, 0);
    assert_eq!(raw.apiVersion, 0);
}

#[test]
fn application_builder_keeps_every_field() {
    let info = ApplicationInfoBuilder::<u16>::new()
        .pNext(77)
        .application_name("app")
        .application_version(3)
        .engine_name("engine")
        .engine_version(4)
        .api_version(VK_MAKE_API_VERSION(0, 1, 2, 0))
        .build();
    assert_eq!(info.pNext, Some(77));
    assert_eq!(info.pApplicationName, "app");
    assert_eq!(info.applicationVersion, 3);
    assert_eq!(info.pEngineName, "engine");
    assert_eq!(info.engineVersion, 4);
    assert_eq!(info.apiVersion, Some(4202496));
    let raw = info.into_raw().unwrap();
    assert_eq!(raw.pNext, Some(77));
    assert_eq!(raw.pApplicationName.as_bytes_with_nul(), b"app\0");
    assert_eq!(raw.applicationVersion, 3);
    assert_eq!(raw.pEngineName.as_bytes_with_nul(), b"engine\0");
    assert_eq!(raw.engineVersion, 4);
    assert_eq!(raw.apiVersion, 4202496);
}

#[test]
fn application_builder_last_value_wins() {
    let info = ApplicationInfoBuilder::<()>::new()
        .application_name("first")
        .application_name("second")
        .engine_version(1)
        .engine_version(2)
        .build();
    assert_eq!(info.pApplicationName, "second");
    assert_eq!(info.engineVersion, 2);
}

#[test]
fn application_name_with_zero_byte_fails_at_marshal_time() {
    let info = ApplicationInfoBuilder::<()>::new()
        .application_name("Tri\0angle")
        .engine_name("No\0ne")
        .build();
    assert_eq!(info.pApplicationName, "Tri\0angle");
    assert_eq!(
        info.into_raw().err(),
        Some(MarshalError::ApplicationName { position: 3 })
    );
}

#[test]
fn engine_name_with_zero_byte_fails_at_marshal_time() {
    let info = ApplicationInfoBuilder::<()>::new()
        .application_name("Triangle")
        .engine_name("\0")
        .build();
    assert_eq!(
        info.into_raw().err(),
        Some(MarshalError::EngineName { position: 0 })
    );
}

#[test]
fn non_ascii_names_keep_their_bytes() {
    let info = ApplicationInfoBuilder::<()>::new()
        .application_name("dreieck-\u{e4}")
        .build();
    let raw = info.into_raw().unwrap();
    assert_eq!(
        raw.pApplicationName.as_bytes_with_nul(),
        &[b'd', b'r', b'e', b'i', b'e', b'c', b'k', b'-', 0xc3, 0xa4, 0]
    );
}

#[test]
fn bare_instance_descriptor_marshals_to_nulls_and_zero_counts() {
    let info = InstanceCreateInfoBuilder::<u8, u8>::new().build();
    assert!(info.pNext.is_none());
    assert_eq!(info.flags, 0);
    assert!(info.pApplicationInfo.is_none());
    assert!(info.ppEnabledLayerNames.is_none());
    assert!(info.ppEnabledExtensionNames.is_none());
    let raw = info.into_raw().unwrap();
    assert_eq!(raw.sType, STRUCTURE_TYPE_INSTANCE_CREATE_INFO);
    assert!(raw.pNext.is_none());
    assert_eq!(raw.flags, 0);
    assert!(raw.pApplicationInfo.is_none());
    assert_eq!(raw.enabledLayerCount, 0);
    assert!(raw.ppEnabledLayerNames.is_none());
    assert_eq!(raw.enabledExtensionCount, 0);
    assert!(raw.ppEnabledExtensionNames.is_none());
}

#[test]
fn instance_builder_keeps_every_field() {
    let builder = InstanceCreateInfoBuilder::<u32, ()>::new()
        .pNext(9)
        .flags(5)
        .application_info(triangle_application())
        .enabled_layer_names(vec!["VK_LAYER_KHRONOS_validation"])
        .enabled_extensions(Some(vec![
            String::from("VK_KHR_surface"),
            String::from("VK_KHR_xcb_surface"),
        ]));
    assert_eq!(builder.pNext, Some(9));
    assert_eq!(builder.flags, Some(5));
    assert_eq!(
        builder.ppEnabledLayerNames,
        Some(vec!["VK_LAYER_KHRONOS_validation"])
    );
    assert_eq!(
        builder.ppEnabledExtensionNames,
        Some(vec![
            String::from("VK_KHR_surface"),
            String::from("VK_KHR_xcb_surface")
        ])
    );
    let info = builder.build();
    assert_eq!(info.pNext, Some(9));
    assert_eq!(info.flags, 5);
    assert_eq!(
        info.ppEnabledLayerNames,
        Some(vec!["VK_LAYER_KHRONOS_validation"])
    );
    let held = info.ppEnabledExtensionNames.as_ref().unwrap();
    assert_eq!(held.len(), 2);
    assert_eq!(held[0].as_bytes_with_nul(), b"VK_KHR_surface\0");
    assert_eq!(held[1].as_bytes_with_nul(), b"VK_KHR_xcb_surface\0");

    let raw = info.into_raw().unwrap();
    assert_eq!(raw.sType, 1);
    assert_eq!(raw.pNext, Some(9));
    assert_eq!(raw.flags, 5);
    assert!(raw.pApplicationInfo.is_some());
    assert_eq!(raw.enabledLayerCount, 1);
    let layers = raw.ppEnabledLayerNames.unwrap();
    assert_eq!(layers.len(), 1);
    assert_eq!(
        layers[0].as_bytes_with_nul(),
        b"VK_LAYER_KHRONOS_validation\0"
    );
    assert_eq!(raw.enabledExtensionCount, 2);
    let extensions = raw.ppEnabledExtensionNames.unwrap();
    assert_eq!(extensions.len(), 2);
    assert_eq!(extensions[0].as_bytes_with_nul(), b"VK_KHR_surface\0");
    assert_eq!(extensions[1].as_bytes_with_nul(), b"VK_KHR_xcb_surface\0");
}

#[test]
fn extension_names_round_trip() {
    let names = vec![
        String::from("VK_KHR_surface"),
        String::from(""),
        String::from("VK_EXT_debug_utils"),
        String::from("gr\u{f6}\u{df}e"),
    ];
    let raw = InstanceCreateInfoBuilder::<(), ()>::new()
        .enabled_extensions(Some(names.clone()))
        .build()
        .into_raw()
        .unwrap();
    let array = raw.ppEnabledExtensionNames.unwrap();
    assert_eq!(array.len(), names.len());
    assert_eq!(raw.enabledExtensionCount as usize, names.len());
    for (buffer, name) in array.iter().zip(names.iter()) {
        let bytes = buffer.as_bytes_with_nul();
        assert_eq!(bytes.len(), name.len() + 1);
        assert_eq!(bytes[bytes.len() - 1], 0);
        assert!(bytes[..bytes.len() - 1].iter().all(|byte| *byte != 0));
        assert_eq!(buffer.to_bytes(), name.as_bytes());
    }
}

#[test]
fn empty_lists_are_present_with_zero_counts() {
    let raw = InstanceCreateInfoBuilder::<(), ()>::new()
        .enabled_layer_names(Vec::new())
        .enabled_extensions(Some(Vec::new()))
        .build()
        .into_raw()
        .unwrap();
    assert_eq!(raw.enabledLayerCount, 0);
    assert_eq!(raw.ppEnabledLayerNames.map(|names| names.len()), Some(0));
    assert_eq!(raw.enabledExtensionCount, 0);
    assert_eq!(
        raw.ppEnabledExtensionNames.map(|names| names.len()),
        Some(0)
    );
}

#[test]
fn enabled_extensions_can_be_taken_away() {
    let info = InstanceCreateInfoBuilder::<(), ()>::new()
        .enabled_extensions(Some(vec![String::from("VK_KHR_surface")]))
        .enabled_extensions(None)
        .build();
    assert!(info.ppEnabledExtensionNames.is_none());
}

#[test]
fn extension_name_with_zero_byte_is_rejected_by_try_build() {
    let result = InstanceCreateInfoBuilder::<(), ()>::new()
        .enabled_extensions(Some(vec![
            String::from("VK_KHR_surface"),
            String::from("VK_KHR\0_xcb_surface"),
            String::from("\0"),
        ]))
        .try_build();
    assert_eq!(
        result.err(),
        Some(MarshalError::ExtensionName {
            index: 1,
            position: 6
        })
    );
}

#[test]
fn try_build_agrees_with_build() {
    let info = InstanceCreateInfoBuilder::<u8, ()>::new()
        .pNext(1)
        .enabled_extensions(Some(vec![String::from("VK_KHR_surface")]))
        .try_build()
        .ok()
        .unwrap();
    assert_eq!(info.pNext, Some(1));
    assert_eq!(info.flags, 0);
    let held = info.ppEnabledExtensionNames.unwrap();
    assert_eq!(held.len(), 1);
    assert_eq!(held[0].as_bytes_with_nul(), b"VK_KHR_surface\0");
}

#[test]
fn layer_name_with_zero_byte_fails_at_marshal_time() {
    let info = InstanceCreateInfoBuilder::<(), ()>::new()
        .enabled_layer_names(vec!["one", "two", "thr\0ee", "\0four"])
        .build();
    assert_eq!(
        info.into_raw().err(),
        Some(MarshalError::LayerName {
            index: 2,
            position: 3
        })
    );
}

#[test]
fn application_errors_come_before_layer_errors() {
    let app = ApplicationInfoBuilder::<()>::new()
        .engine_name("en\0gine")
        .build();
    let info = InstanceCreateInfoBuilder::<(), ()>::new()
        .application_info(app)
        .enabled_layer_names(vec!["\0"])
        .build();
    assert_eq!(
        info.into_raw().err(),
        Some(MarshalError::EngineName { position: 2 })
    );
}

#[test]
fn bare_device_descriptor_marshals_to_nulls_and_zero_counts() {
    let raw = DeviceCreateInfoBuilder::<u8>::new()
        .build()
        .into_raw()
        .unwrap();
    assert_eq!(raw.sType, STRUCTURE_TYPE_DEVICE_CREATE_INFO);
    assert_eq!(raw.sType, 3);
    assert!(raw.pNext.is_none());
    assert_eq!(raw.flags, 0);
    assert_eq!(raw.enabledLayerCount, 0);
    assert!(raw.ppEnabledLayerNames.is_none());
    assert_eq!(raw.enabledExtensionCount, 0);
    assert!(raw.ppEnabledExtensionNames.is_none());
}

#[test]
fn device_builder_keeps_every_field() {
    let raw = DeviceCreateInfoBuilder::<u64>::new()
        .pNext(11)
        .flags(2)
        .enabled_layer_names(vec!["a", "b"])
        .enabled_extensions(Some(vec![String::from("VK_KHR_swapchain")]))
        .build()
        .into_raw()
        .unwrap();
    assert_eq!(raw.pNext, Some(11));
    assert_eq!(raw.flags, 2);
    assert_eq!(raw.enabledLayerCount, 2);
    let layers = raw.ppEnabledLayerNames.unwrap();
    assert_eq!(layers[0].as_bytes_with_nul(), b"a\0");
    assert_eq!(layers[1].as_bytes_with_nul(), b"b\0");
    assert_eq!(raw.enabledExtensionCount, 1);
    let extensions = raw.ppEnabledExtensionNames.unwrap();
    assert_eq!(extensions[0].as_bytes_with_nul(), b"VK_KHR_swapchain\0");
}

#[test]
fn device_descriptor_rejects_names_with_zero_bytes() {
    let built = DeviceCreateInfoBuilder::<()>::new()
        .enabled_extensions(Some(vec![String::from("\0")]))
        .try_build();
    assert_eq!(
        built.err(),
        Some(MarshalError::ExtensionName {
            index: 0,
            position: 0
        })
    );
    let marshaled = DeviceCreateInfoBuilder::<()>::new()
        .enabled_layer_names(vec!["ok", "no\0"])
        .build()
        .into_raw();
    assert_eq!(
        marshaled.err(),
        Some(MarshalError::LayerName {
            index: 1,
            position: 2
        })
    );
}

#[test]
fn raw_count_is_the_low_32_bits_of_the_length() {
    assert_eq!(count_of(0), 0);
    assert_eq!(count_of(3), 3);
    assert_eq!(count_of(u32::MAX as usize), u32::MAX);
    assert_eq!(count_of(usize::MAX), u32::MAX);
    if usize::BITS > 32 {
        let beyond = (u32::MAX as usize).wrapping_add(1);
        assert_eq!(count_of(beyond), 0);
        assert_eq!(count_of(beyond.wrapping_add(7)), 7);
    }
}
