//! The instance-creation descriptor, its builder, and the raw form in which the native
//! interface reads it.

use crate::application_info::{ApplicationInfo, RawApplicationInfo, RawApplicationInfoView};
use crate::c_string::{c_contents, has_nul, is_c_string, lemma_round_trip, CString};
use crate::codes::{instance_create_info_type, STRUCTURE_TYPE_INSTANCE_CREATE_INFO};
use crate::marshal::{
    count_of, list_count, marshaled_extension_names, marshaled_layer_names, MarshalError,
};
use crate::names::{
    all_convertible, buffers, convert_strings, convert_strs, str_bytes, string_bytes,
};
use crate::views::viewed;
use vstd::prelude::*;
use vstd::utf8::encode_utf8;

verus! {

/// A built instance-creation descriptor. `T` is the payload of its extension chain,
/// `U` that of the application descriptor in it. The extension names are held in the
/// form a C routine reads; the layer names are borrowed as they were given.
pub struct InstanceCreateInfo<'a, T, U> {
    pub pNext: Option<T>,
    pub flags: u32,
    pub pApplicationInfo: Option<ApplicationInfo<'a, U>>,
    pub ppEnabledLayerNames: Option<Vec<&'a str>>,
    pub ppEnabledExtensionNames: Option<Vec<CString>>,
}

/// Collects the fields of an instance-creation descriptor. None of them is required.
pub struct InstanceCreateInfoBuilder<'a, T, U> {
    pub pNext: Option<T>,
    pub flags: Option<u32>,
    pub pApplicationInfo: Option<ApplicationInfo<'a, U>>,
    pub ppEnabledLayerNames: Option<Vec<&'a str>>,
    pub ppEnabledExtensionNames: Option<Vec<String>>,
}

/// The raw form of an instance-creation descriptor. `None` stands for a null pointer;
/// each list of names is an array of buffers beside the count that the native
/// interface reads for it. The raw form owns every buffer, those of the layer names
/// too, so a pointer into one stays valid for as long as the raw form lives.
pub struct RawInstanceCreateInfo<T, U> {
    pub sType: u32,
    pub pNext: Option<T>,
    pub flags: u32,
    pub pApplicationInfo: Option<RawApplicationInfo<U>>,
    pub enabledLayerCount: u32,
    pub ppEnabledLayerNames: Option<Vec<CString>>,
    pub enabledExtensionCount: u32,
    pub ppEnabledExtensionNames: Option<Vec<CString>>,
}

/// What an instance-creation descriptor holds: each layer name as its bytes, each
/// extension name as the bytes of its buffer.
pub struct InstanceCreateInfoView<'a, T, U> {
    pub next: Option<T>,
    pub flags: u32,
    pub application_info: Option<ApplicationInfo<'a, U>>,
    pub layer_names: Option<Seq<Seq<u8>>>,
    pub extension_names: Option<Seq<Seq<u8>>>,
}

/// What a raw instance-creation descriptor holds, with each name as the bytes of its
/// buffer.
pub struct RawInstanceCreateInfoView<T, U> {
    pub structure_type: u32,
    pub next: Option<T>,
    pub flags: u32,
    pub application_info: Option<RawApplicationInfoView<U>>,
    pub layer_count: u32,
    pub layer_names: Option<Seq<Seq<u8>>>,
    pub extension_count: u32,
    pub extension_names: Option<Seq<Seq<u8>>>,
}

impl<'a, T, U> View for InstanceCreateInfo<'a, T, U> {
    type V = InstanceCreateInfoView<'a, T, U>;

    open spec fn view(&self) -> InstanceCreateInfoView<'a, T, U> {
        InstanceCreateInfoView {
            next: self.pNext,
            flags: self.flags,
            application_info: self.pApplicationInfo,
            layer_names: match self.ppEnabledLayerNames {
                Some(names) => Some(str_bytes(names@)),
                None => None,
            },
            extension_names: match self.ppEnabledExtensionNames {
                Some(names) => Some(buffers(names@)),
                None => None,
            },
        }
    }
}

impl<T, U> View for RawInstanceCreateInfo<T, U> {
    type V = RawInstanceCreateInfoView<T, U>;

    open spec fn view(&self) -> RawInstanceCreateInfoView<T, U> {
        RawInstanceCreateInfoView {
            structure_type: self.sType,
            next: self.pNext,
            flags: self.flags,
            application_info: match self.pApplicationInfo {
                Some(info) => Some(info@),
                None => None,
            },
            layer_count: self.enabledLayerCount,
            layer_names: match self.ppEnabledLayerNames {
                Some(names) => Some(buffers(names@)),
                None => None,
            },
            extension_count: self.enabledExtensionCount,
            extension_names: match self.ppEnabledExtensionNames {
                Some(names) => Some(buffers(names@)),
                None => None,
            },
        }
    }
}

/// The raw form of the application descriptor inside another descriptor, where there
/// is one.
pub open spec fn marshaled_application<'a, U>(
    application_info: Option<ApplicationInfo<'a, U>>,
) -> Result<Option<RawApplicationInfoView<U>>, MarshalError> {
    match application_info {
        None => Ok(None),
        Some(info) => match info.marshaled() {
            Ok(raw) => Ok(Some(raw)),
            Err(error) => Err(error),
        },
    }
}

impl<'a, T, U> InstanceCreateInfoView<'a, T, U> {
    /// What marshaling gives. The application descriptor is put into its raw form
    /// first, then the layer names; the first name that holds a zero byte is the
    /// error. An absent list is a null pointer with a count of zero; a present one is
    /// one buffer per name, in order, with the low 32 bits of its length as the count.
    pub open spec fn marshaled(self) -> Result<RawInstanceCreateInfoView<T, U>, MarshalError> {
        match marshaled_application(self.application_info) {
            Err(error) => Err(error),
            Ok(application_info) => match marshaled_layer_names(self.layer_names) {
                Err(error) => Err(error),
                Ok(layer_names) => Ok(
                    RawInstanceCreateInfoView {
                        structure_type: STRUCTURE_TYPE_INSTANCE_CREATE_INFO,
                        next: self.next,
                        flags: self.flags,
                        application_info,
                        layer_count: list_count(self.layer_names),
                        layer_names,
                        extension_count: list_count(self.extension_names),
                        extension_names: self.extension_names,
                    },
                ),
            },
        }
    }
}

impl<'a, T, U> InstanceCreateInfo<'a, T, U> {
    /// Puts the descriptor into its raw form.
    pub fn into_raw(self) -> (result: Result<RawInstanceCreateInfo<T, U>, MarshalError>)
        ensures
            viewed(result) == self@.marshaled(),
    {
        let application_info = match self.pApplicationInfo {
            Some(info) => match info.into_raw() {
                Ok(raw) => Some(raw),
                Err(error) => {
                    return Err(error);
                },
            },
            None => None,
        };
        let layer_count: u32 = match &self.ppEnabledLayerNames {
            Some(names) => count_of(names.len()),
            None => 0,
        };
        let layer_names = match &self.ppEnabledLayerNames {
            Some(names) => match convert_strs(names) {
                Ok(strings) => Some(strings),
                Err(error) => {
                    return Err(
                        MarshalError::LayerName { index: error.index, position: error.position },
                    );
                },
            },
            None => None,
        };
        let extension_count: u32 = match &self.ppEnabledExtensionNames {
            Some(names) => count_of(names.len()),
            None => 0,
        };
        Ok(
            RawInstanceCreateInfo {
                sType: instance_create_info_type(),
                pNext: self.pNext,
                flags: self.flags,
                pApplicationInfo: application_info,
                enabledLayerCount: layer_count,
                ppEnabledLayerNames: layer_names,
                enabledExtensionCount: extension_count,
                ppEnabledExtensionNames: self.ppEnabledExtensionNames,
            },
        )
    }
}

impl<'a, T, U> InstanceCreateInfoBuilder<'a, T, U> {
    /// What building gives: absent flags are zero, and each extension name is put into
    /// the form a C routine reads. The first extension name that holds a zero byte is
    /// the error.
    pub open spec fn built(self) -> Result<InstanceCreateInfoView<'a, T, U>, MarshalError> {
        match marshaled_extension_names(
            match self.ppEnabledExtensionNames {
                Some(names) => Some(string_bytes(names@)),
                None => None,
            },
        ) {
            Err(error) => Err(error),
            Ok(extension_names) => Ok(
                InstanceCreateInfoView {
                    next: self.pNext,
                    flags: match self.flags {
                        Some(flags) => flags,
                        None => 0,
                    },
                    application_info: self.pApplicationInfo,
                    layer_names: match self.ppEnabledLayerNames {
                        Some(names) => Some(str_bytes(names@)),
                        None => None,
                    },
                    extension_names,
                },
            ),
        }
    }

    /// A builder with no field set.
    pub fn new() -> (builder: Self)
        ensures
            builder == (InstanceCreateInfoBuilder::<'a, T, U> {
                pNext: None,
                flags: None,
                pApplicationInfo: None,
                ppEnabledLayerNames: None,
                ppEnabledExtensionNames: None,
            }),
    {
        InstanceCreateInfoBuilder {
            pNext: None,
            flags: None,
            pApplicationInfo: None,
            ppEnabledLayerNames: None,
            ppEnabledExtensionNames: None,
        }
    }

    /// Sets the payload of the extension chain.
    pub fn pNext(self, pNext: T) -> (builder: Self)
        ensures
            builder == (InstanceCreateInfoBuilder { pNext: Some(pNext), ..self }),
    {
        let mut builder = self;
        builder.pNext = Some(pNext);
        builder
    }

    /// Sets the flags.
    pub fn flags(self, flags: u32) -> (builder: Self)
        ensures
            builder == (InstanceCreateInfoBuilder { flags: Some(flags), ..self }),
    {
        let mut builder = self;
        builder.flags = Some(flags);
        builder
    }

    /// Sets the application descriptor.
    pub fn application_info(self, application_info: ApplicationInfo<'a, U>) -> (builder: Self)
        ensures
            builder == (InstanceCreateInfoBuilder {
                pApplicationInfo: Some(application_info),
                ..self
            }),
    {
        let mut builder = self;
        builder.pApplicationInfo = Some(application_info);
        builder
    }

    /// Sets the names of the layers to enable.
    pub fn enabled_layer_names(self, enabled_layer_names: Vec<&'a str>) -> (builder: Self)
        ensures
            builder == (InstanceCreateInfoBuilder {
                ppEnabledLayerNames: Some(enabled_layer_names),
                ..self
            }),
    {
        let mut builder = self;
        builder.ppEnabledLayerNames = Some(enabled_layer_names);
        builder
    }

    /// Sets the names of the extensions to enable, or takes them away.
    pub fn enabled_extensions(self, enabled_extensions: Option<Vec<String>>) -> (builder: Self)
        ensures
            builder == (InstanceCreateInfoBuilder {
                ppEnabledExtensionNames: enabled_extensions,
                ..self
            }),
    {
        let mut builder = self;
        builder.ppEnabledExtensionNames = enabled_extensions;
        builder
    }

    /// The descriptor that the builder describes, or the first extension name that
    /// cannot be handed to the native interface.
    pub fn try_build(self) -> (result: Result<InstanceCreateInfo<'a, T, U>, MarshalError>)
        ensures
            viewed(result) == self.built(),
    {
        let extension_names = match &self.ppEnabledExtensionNames {
            Some(names) => match convert_strings(names) {
                Ok(strings) => Some(strings),
                Err(error) => {
                    return Err(
                        MarshalError::ExtensionName {
                            index: error.index,
                            position: error.position,
                        },
                    );
                },
            },
            None => None,
        };
        Ok(
            InstanceCreateInfo {
                pNext: self.pNext,
                flags: match self.flags {
                    Some(flags) => flags,
                    None => 0,
                },
                pApplicationInfo: self.pApplicationInfo,
                ppEnabledLayerNames: self.ppEnabledLayerNames,
                ppEnabledExtensionNames: extension_names,
            },
        )
    }

    /// The descriptor that the builder describes. No extension name may hold a zero
    /// byte.
    pub fn build(self) -> (info: InstanceCreateInfo<'a, T, U>)
        requires
            self.built() is Ok,
        ensures
            self.built() matches Ok(view) && view == info@,
    {
        match self.try_build() {
            Ok(info) => info,
            Err(_) => {
                proof {
                    assert(false);
                }
                unreached()
            },
        }
    }
}

/// A descriptor with no optional field set marshals without error, to a raw form whose
/// pointers are all null and whose counts are both zero.
pub proof fn lemma_bare_descriptor_marshals_to_nulls<'a, T, U>(info: InstanceCreateInfoView<'a, T, U>)
    requires
        info.next is None,
        info.application_info is None,
        info.layer_names is None,
        info.extension_names is None,
    ensures
        info.marshaled() matches Ok(raw) && raw == (RawInstanceCreateInfoView::<T, U> {
            structure_type: STRUCTURE_TYPE_INSTANCE_CREATE_INFO,
            next: None,
            flags: info.flags,
            application_info: None,
            layer_count: 0,
            layer_names: None,
            extension_count: 0,
            extension_names: None,
        }),
{
}

/// What marshaling keeps. The payload and the flags pass through. An absent list is a
/// null pointer with a count of zero, whatever else is set. A present list of layer
/// names is one well-formed buffer per name, in order, from which a C routine reads the
/// bytes of that name. A present list of extension names passes through as it is held.
/// Each raw count is the length of its list where that fits in 32 bits.
pub proof fn lemma_raw_form_matches_descriptor<'a, T, U>(info: InstanceCreateInfoView<'a, T, U>)
    requires
        info.marshaled() is Ok,
    ensures
        ({
            let raw = info.marshaled()->Ok_0;
            &&& raw.next == info.next
            &&& raw.flags == info.flags
            &&& raw.application_info is None <==> info.application_info is None
            &&& match info.layer_names {
                None => raw.layer_names is None && raw.layer_count == 0,
                Some(names) => {
                    &&& raw.layer_names matches Some(array)
                    &&& array.len() == names.len()
                    &&& names.len() <= u32::MAX ==> raw.layer_count == names.len()
                    &&& forall|i: int|
                        0 <= i < names.len() ==> is_c_string(#[trigger] array[i]) && c_contents(
                            array[i],
                        ) == names[i]
                },
            }
            &&& match info.extension_names {
                None => raw.extension_names is None && raw.extension_count == 0,
                Some(names) => {
                    &&& raw.extension_names == Some(names)
                    &&& names.len() <= u32::MAX ==> raw.extension_count == names.len()
                },
            }
        }),
{
    if let Some(names) = info.layer_names {
        let array = info.marshaled()->Ok_0.layer_names->Some_0;
        assert forall|i: int| 0 <= i < names.len() implies is_c_string(#[trigger] array[i])
            && c_contents(array[i]) == names[i] by {
            assert(!has_nul(names[i]));
            lemma_round_trip(names[i]);
        }
    }
}

/// A builder with no field set builds a descriptor with no optional field set and
/// with flags of zero.
pub proof fn lemma_unset_builder_builds_bare<'a, T, U>(builder: InstanceCreateInfoBuilder<'a, T, U>)
    requires
        builder.pNext is None,
        builder.flags is None,
        builder.pApplicationInfo is None,
        builder.ppEnabledLayerNames is None,
        builder.ppEnabledExtensionNames is None,
    ensures
        builder.built() matches Ok(info) && info == (InstanceCreateInfoView::<'a, T, U> {
            next: None,
            flags: 0,
            application_info: None,
            layer_names: None,
            extension_names: None,
        }),
{
}

/// The extension names that a builder was given come out of building and marshaling
/// as one well-formed buffer per name, in order, from which a C routine reads the
/// bytes of that name; and the raw count is the length of the list where that fits
/// in 32 bits. No name may hold a zero byte: building rejects such a list.
pub proof fn lemma_extension_names_round_trip<'a, T, U>(
    builder: InstanceCreateInfoBuilder<'a, T, U>,
)
    requires
        builder.ppEnabledExtensionNames is Some,
        all_convertible(string_bytes(builder.ppEnabledExtensionNames->Some_0@)),
    ensures
        ({
            let names = builder.ppEnabledExtensionNames->Some_0@;
            &&& builder.built() matches Ok(info)
            &&& info.extension_names matches Some(array)
            &&& array.len() == names.len()
            &&& forall|i: int|
                0 <= i < names.len() ==> is_c_string(#[trigger] array[i]) && c_contents(array[i])
                    == encode_utf8(names[i]@)
            &&& info.marshaled() matches Ok(raw) ==> {
                &&& raw.extension_names == Some(array)
                &&& names.len() <= u32::MAX ==> raw.extension_count == names.len()
            }
        }),
{
    let names = builder.ppEnabledExtensionNames->Some_0@;
    let bytes = string_bytes(names);
    let array = builder.built()->Ok_0.extension_names->Some_0;
    assert forall|i: int| 0 <= i < names.len() implies is_c_string(#[trigger] array[i])
        && c_contents(array[i]) == encode_utf8(names[i]@) by {
        assert(!has_nul(bytes[i]));
        lemma_round_trip(bytes[i]);
    }
}

} // verus!
