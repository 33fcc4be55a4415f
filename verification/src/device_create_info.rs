//! The device-creation descriptor, its builder, and the raw form in which the native
//! interface reads it. It has the shape of the instance-creation descriptor, without
//! an application descriptor.

use crate::c_string::{c_contents, has_nul, is_c_string, lemma_round_trip, CString};
use crate::codes::{device_create_info_type, STRUCTURE_TYPE_DEVICE_CREATE_INFO};
use crate::marshal::{
    count_of, list_count, marshaled_extension_names, marshaled_layer_names, MarshalError,
};
use crate::names::{buffers, convert_strings, convert_strs, str_bytes, string_bytes};
use crate::views::viewed;
use vstd::prelude::*;

verus! {

/// A built device-creation descriptor. `T` is the payload of its extension chain.
pub struct DeviceCreateInfo<'a, T> {
    pub pNext: Option<T>,
    pub flags: u32,
    pub ppEnabledLayerNames: Option<Vec<&'a str>>,
    pub ppEnabledExtensionNames: Option<Vec<CString>>,
}

/// Collects the fields of a device-creation descriptor. None of them is required.
pub struct DeviceCreateInfoBuilder<'a, T> {
    pub pNext: Option<T>,
    pub flags: Option<u32>,
    pub ppEnabledLayerNames: Option<Vec<&'a str>>,
    pub ppEnabledExtensionNames: Option<Vec<String>>,
}

/// The raw form of a device-creation descriptor. `None` stands for a null pointer. The
/// raw form owns every buffer, so a pointer into one stays valid for as long as the raw
/// form lives.
pub struct RawDeviceCreateInfo<T> {
    pub sType: u32,
    pub pNext: Option<T>,
    pub flags: u32,
    pub enabledLayerCount: u32,
    pub ppEnabledLayerNames: Option<Vec<CString>>,
    pub enabledExtensionCount: u32,
    pub ppEnabledExtensionNames: Option<Vec<CString>>,
}

/// What a device-creation descriptor holds: each layer name as its bytes, each
/// extension name as the bytes of its buffer.
pub struct DeviceCreateInfoView<T> {
    pub next: Option<T>,
    pub flags: u32,
    pub layer_names: Option<Seq<Seq<u8>>>,
    pub extension_names: Option<Seq<Seq<u8>>>,
}

/// What a raw device-creation descriptor holds, with each name as the bytes of its
/// buffer.
pub struct RawDeviceCreateInfoView<T> {
    pub structure_type: u32,
    pub next: Option<T>,
    pub flags: u32,
    pub layer_count: u32,
    pub layer_names: Option<Seq<Seq<u8>>>,
    pub extension_count: u32,
    pub extension_names: Option<Seq<Seq<u8>>>,
}

impl<'a, T> View for DeviceCreateInfo<'a, T> {
    type V = DeviceCreateInfoView<T>;

    open spec fn view(&self) -> DeviceCreateInfoView<T> {
        DeviceCreateInfoView {
            next: self.pNext,
            flags: self.flags,
            layer_names: match self.ppEnabledLayerNames {
                Some(names) => Some(str_bytes(names@)),
                None => None,
            },
            extension_names: match self.ppEnabledExtensionNames {
                Some(names) => Some(buffers(names@)),
                None => None,
            },
        }
    }
}

impl<T> View for RawDeviceCreateInfo<T> {
    type V = RawDeviceCreateInfoView<T>;

    open spec fn view(&self) -> RawDeviceCreateInfoView<T> {
        RawDeviceCreateInfoView {
            structure_type: self.sType,
            next: self.pNext,
            flags: self.flags,
            layer_count: self.enabledLayerCount,
            layer_names: match self.ppEnabledLayerNames {
                Some(names) => Some(buffers(names@)),
                None => None,
            },
            extension_count: self.enabledExtensionCount,
            extension_names: match self.ppEnabledExtensionNames {
                Some(names) => Some(buffers(names@)),
                None => None,
            },
        }
    }
}

impl<T> DeviceCreateInfoView<T> {
    /// What marshaling gives. The first layer name that holds a zero byte is the
    /// error. An absent list is a null pointer with a count of zero; a present one is
    /// one buffer per name, in order, with the low 32 bits of its length as the count.
    pub open spec fn marshaled(self) -> Result<RawDeviceCreateInfoView<T>, MarshalError> {
        match marshaled_layer_names(self.layer_names) {
            Err(error) => Err(error),
            Ok(layer_names) => Ok(
                RawDeviceCreateInfoView {
                    structure_type: STRUCTURE_TYPE_DEVICE_CREATE_INFO,
                    next: self.next,
                    flags: self.flags,
                    layer_count: list_count(self.layer_names),
                    layer_names,
                    extension_count: list_count(self.extension_names),
                    extension_names: self.extension_names,
                },
            ),
        }
    }
}

impl<'a, T> DeviceCreateInfo<'a, T> {
    /// Puts the descriptor into its raw form.
    pub fn into_raw(self) -> (result: Result<RawDeviceCreateInfo<T>, MarshalError>)
        ensures
            viewed(result) == self@.marshaled(),
    {
        let layer_count: u32 = match &self.ppEnabledLayerNames {
            Some(names) => count_of(names.len()),
            None => 0,
        };
        let layer_names = match &self.ppEnabledLayerNames {
            Some(names) => match convert_strs(names) {
                Ok(strings) => Some(strings),
                Err(error) => {
                    return Err(
                        MarshalError::LayerName { index: error.index, position: error.position },
                    );
                },
            },
            None => None,
        };
        let extension_count: u32 = match &self.ppEnabledExtensionNames {
            Some(names) => count_of(names.len()),
            None => 0,
        };
        Ok(
            RawDeviceCreateInfo {
                sType: device_create_info_type(),
                pNext: self.pNext,
                flags: self.flags,
                enabledLayerCount: layer_count,
                ppEnabledLayerNames: layer_names,
                enabledExtensionCount: extension_count,
                ppEnabledExtensionNames: self.ppEnabledExtensionNames,
            },
        )
    }
}

impl<'a, T> DeviceCreateInfoBuilder<'a, T> {
    /// What building gives: absent flags are zero, and each extension name is put into
    /// the form a C routine reads. The first extension name that holds a zero byte is
    /// the error.
    pub open spec fn built(self) -> Result<DeviceCreateInfoView<T>, MarshalError> {
        match marshaled_extension_names(
            match self.ppEnabledExtensionNames {
                Some(names) => Some(string_bytes(names@)),
                None => None,
            },
        ) {
            Err(error) => Err(error),
            Ok(extension_names) => Ok(
                DeviceCreateInfoView {
                    next: self.pNext,
                    flags: match self.flags {
                        Some(flags) => flags,
                        None => 0,
                    },
                    layer_names: match self.ppEnabledLayerNames {
                        Some(names) => Some(str_bytes(names@)),
                        None => None,
                    },
                    extension_names,
                },
            ),
        }
    }

    /// A builder with no field set.
    pub fn new() -> (builder: Self)
        ensures
            builder == (DeviceCreateInfoBuilder::<'a, T> {
                pNext: None,
                flags: None,
                ppEnabledLayerNames: None,
                ppEnabledExtensionNames: None,
            }),
    {
        DeviceCreateInfoBuilder {
            pNext: None,
            flags: None,
            ppEnabledLayerNames: None,
            ppEnabledExtensionNames: None,
        }
    }

    /// Sets the payload of the extension chain.
    pub fn pNext(self, pNext: T) -> (builder: Self)
        ensures
            builder == (DeviceCreateInfoBuilder { pNext: Some(pNext), ..self }),
    {
        let mut builder = self;
        builder.pNext = Some(pNext);
        builder
    }

    /// Sets the flags.
    pub fn flags(self, flags: u32) -> (builder: Self)
        ensures
            builder == (DeviceCreateInfoBuilder { flags: Some(flags), ..self }),
    {
        let mut builder = self;
        builder.flags = Some(flags);
        builder
    }

    /// Sets the names of the layers to enable.
    pub fn enabled_layer_names(self, enabled_layer_names: Vec<&'a str>) -> (builder: Self)
        ensures
            builder == (DeviceCreateInfoBuilder {
                ppEnabledLayerNames: Some(enabled_layer_names),
                ..self
            }),
    {
        let mut builder = self;
        builder.ppEnabledLayerNames = Some(enabled_layer_names);
        builder
    }

    /// Sets the names of the extensions to enable, or takes them away.
    pub fn enabled_extensions(self, enabled_extensions: Option<Vec<String>>) -> (builder: Self)
        ensures
            builder == (DeviceCreateInfoBuilder {
                ppEnabledExtensionNames: enabled_extensions,
                ..self
            }),
    {
        let mut builder = self;
        builder.ppEnabledExtensionNames = enabled_extensions;
        builder
    }

    /// The descriptor that the builder describes, or the first extension name that
    /// cannot be handed to the native interface.
    pub fn try_build(self) -> (result: Result<DeviceCreateInfo<'a, T>, MarshalError>)
        ensures
            viewed(result) == self.built(),
    {
        let extension_names = match &self.ppEnabledExtensionNames {
            Some(names) => match convert_strings(names) {
                Ok(strings) => Some(strings),
                Err(error) => {
                    return Err(
                        MarshalError::ExtensionName {
                            index: error.index,
                            position: error.position,
                        },
                    );
                },
            },
            None => None,
        };
        Ok(
            DeviceCreateInfo {
                pNext: self.pNext,
                flags: match self.flags {
                    Some(flags) => flags,
                    None => 0,
                },
                ppEnabledLayerNames: self.ppEnabledLayerNames,
                ppEnabledExtensionNames: extension_names,
            },
        )
    }

    /// The descriptor that the builder describes. No extension name may hold a zero
    /// byte.
    pub fn build(self) -> (info: DeviceCreateInfo<'a, T>)
        requires
            self.built() is Ok,
        ensures
            self.built() matches Ok(view) && view == info@,
    {
        match self.try_build() {
            Ok(info) => info,
            Err(_) => {
                proof {
                    assert(false);
                }
                unreached()
            },
        }
    }
}

/// A descriptor with no optional field set marshals without error, to a raw form whose
/// pointers are all null and whose counts are both zero.
pub proof fn lemma_bare_descriptor_marshals_to_nulls<T>(info: DeviceCreateInfoView<T>)
    requires
        info.next is None,
        info.layer_names is None,
        info.extension_names is None,
    ensures
        info.marshaled() matches Ok(raw) && raw == (RawDeviceCreateInfoView::<T> {
            structure_type: STRUCTURE_TYPE_DEVICE_CREATE_INFO,
            next: None,
            flags: info.flags,
            layer_count: 0,
            layer_names: None,
            extension_count: 0,
            extension_names: None,
        }),
{
}

/// What marshaling keeps. The payload and the flags pass through. An absent list is a
/// null pointer with a count of zero, whatever else is set. A present list of layer
/// names is one well-formed buffer per name, in order, from which a C routine reads the
/// bytes of that name. A present list of extension names passes through as it is held.
/// Each raw count is the length of its list where that fits in 32 bits.
pub proof fn lemma_raw_form_matches_descriptor<T>(info: DeviceCreateInfoView<T>)
    requires
        info.marshaled() is Ok,
    ensures
        ({
            let raw = info.marshaled()->Ok_0;
            &&& raw.next == info.next
            &&& raw.flags == info.flags
            &&& match info.layer_names {
                None => raw.layer_names is None && raw.layer_count == 0,
                Some(names) => {
                    &&& raw.layer_names matches Some(array)
                    &&& array.len() == names.len()
                    &&& names.len() <= u32::MAX ==> raw.layer_count == names.len()
                    &&& forall|i: int|
                        0 <= i < names.len() ==> is_c_string(#[trigger] array[i]) && c_contents(
                            array[i],
                        ) == names[i]
                },
            }
            &&& match info.extension_names {
                None => raw.extension_names is None && raw.extension_count == 0,
                Some(names) => {
                    &&& raw.extension_names == Some(names)
                    &&& names.len() <= u32::MAX ==> raw.extension_count == names.len()
                },
            }
        }),
{
    if let Some(names) = info.layer_names {
        let array = info.marshaled()->Ok_0.layer_names->Some_0;
        assert forall|i: int| 0 <= i < names.len() implies is_c_string(#[trigger] array[i])
            && c_contents(array[i]) == names[i] by {
            assert(!has_nul(names[i]));
            lemma_round_trip(names[i]);
        }
    }
}

} // verus!
