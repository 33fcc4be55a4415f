//! The application descriptor: what an application says of itself when it asks for an
//! instance, and the raw form in which the native interface reads it.

use crate::c_string::{converted, terminated, CString};
use crate::codes::{application_info_type, STRUCTURE_TYPE_APPLICATION_INFO};
use crate::marshal::MarshalError;
use crate::views::viewed;
use vstd::prelude::*;
use vstd::utf8::encode_utf8;

verus! {

/// A built application descriptor. `U` is the payload of the extension chain.
pub struct ApplicationInfo<'a, U> {
    pub pNext: Option<U>,
    pub pApplicationName: &'a str,
    pub applicationVersion: u32,
    pub pEngineName: &'a str,
    pub engineVersion: u32,
    pub apiVersion: Option<u32>,
}

/// Collects the fields of an application descriptor. None of them is required.
pub struct ApplicationInfoBuilder<'a, U> {
    pub pNext: Option<U>,
    pub pApplicationName: Option<&'a str>,
    pub applicationVersion: Option<u32>,
    pub pEngineName: Option<&'a str>,
    pub engineVersion: Option<u32>,
    pub apiVersion: Option<u32>,
}

/// The raw form of an application descriptor. An absent extension chain stands for a
/// null pointer; each name is a buffer that ends in a zero byte.
pub struct RawApplicationInfo<U> {
    pub sType: u32,
    pub pNext: Option<U>,
    pub pApplicationName: CString,
    pub applicationVersion: u32,
    pub pEngineName: CString,
    pub engineVersion: u32,
    pub apiVersion: u32,
}

/// What a raw application descriptor holds, with each name as the bytes of its buffer.
pub struct RawApplicationInfoView<U> {
    pub structure_type: u32,
    pub next: Option<U>,
    pub application_name: Seq<u8>,
    pub application_version: u32,
    pub engine_name: Seq<u8>,
    pub engine_version: u32,
    pub api_version: u32,
}

impl<U> View for RawApplicationInfo<U> {
    type V = RawApplicationInfoView<U>;

    open spec fn view(&self) -> RawApplicationInfoView<U> {
        RawApplicationInfoView {
            structure_type: self.sType,
            next: self.pNext,
            application_name: self.pApplicationName@,
            application_version: self.applicationVersion,
            engine_name: self.pEngineName@,
            engine_version: self.engineVersion,
            api_version: self.apiVersion,
        }
    }
}

impl<'a, U> ApplicationInfo<'a, U> {
    /// What marshaling gives: the raw form, in which an absent API version is zero,
    /// or the first of the two names that holds a zero byte.
    pub open spec fn marshaled(self) -> Result<RawApplicationInfoView<U>, MarshalError> {
        match converted(encode_utf8(self.pApplicationName@)) {
            Err(error) => Err(MarshalError::ApplicationName { position: error.position }),
            Ok(application_name) => match converted(encode_utf8(self.pEngineName@)) {
                Err(error) => Err(MarshalError::EngineName { position: error.position }),
                Ok(engine_name) => Ok(
                    RawApplicationInfoView {
                        structure_type: STRUCTURE_TYPE_APPLICATION_INFO,
                        next: self.pNext,
                        application_name,
                        application_version: self.applicationVersion,
                        engine_name,
                        engine_version: self.engineVersion,
                        api_version: match self.apiVersion {
                            Some(version) => version,
                            None => 0,
                        },
                    },
                ),
            },
        }
    }

    /// Puts the descriptor into its raw form.
    pub fn into_raw(self) -> (result: Result<RawApplicationInfo<U>, MarshalError>)
        ensures
            viewed(result) == self.marshaled(),
    {
        let application_name = match CString::new(self.pApplicationName.as_bytes()) {
            Ok(name) => name,
            Err(error) => {
                return Err(MarshalError::ApplicationName { position: error.position });
            },
        };
        let engine_name = match CString::new(self.pEngineName.as_bytes()) {
            Ok(name) => name,
            Err(error) => {
                return Err(MarshalError::EngineName { position: error.position });
            },
        };
        Ok(
            RawApplicationInfo {
                sType: application_info_type(),
                pNext: self.pNext,
                pApplicationName: application_name,
                applicationVersion: self.applicationVersion,
                pEngineName: engine_name,
                engineVersion: self.engineVersion,
                apiVersion: match self.apiVersion {
                    Some(version) => version,
                    None => 0,
                },
            },
        )
    }
}

impl<'a, U> ApplicationInfoBuilder<'a, U> {
    /// What `build` gives: an absent name is the empty string, an absent application
    /// or engine version is zero.
    pub open spec fn built(self) -> ApplicationInfo<'a, U> {
        ApplicationInfo {
            pNext: self.pNext,
            pApplicationName: match self.pApplicationName {
                Some(name) => name,
                None => "",
            },
            applicationVersion: match self.applicationVersion {
                Some(version) => version,
                None => 0,
            },
            pEngineName: match self.pEngineName {
                Some(name) => name,
                None => "",
            },
            engineVersion: match self.engineVersion {
                Some(version) => version,
                None => 0,
            },
            apiVersion: self.apiVersion,
        }
    }

    /// A builder with no field set.
    pub fn new() -> (builder: Self)
        ensures
            builder == (ApplicationInfoBuilder::<'a, U> {
                pNext: None,
                pApplicationName: None,
                applicationVersion: None,
                pEngineName: None,
                engineVersion: None,
                apiVersion: None,
            }),
    {
        ApplicationInfoBuilder {
            pNext: None,
            pApplicationName: None,
            applicationVersion: None,
            pEngineName: None,
            engineVersion: None,
            apiVersion: None,
        }
    }

    /// Sets the payload of the extension chain.
    pub fn pNext(self, pNext: U) -> (builder: Self)
        ensures
            builder == (ApplicationInfoBuilder { pNext: Some(pNext), ..self }),
    {
        let mut builder = self;
        builder.pNext = Some(pNext);
        builder
    }

    /// Sets the application's name.
    pub fn application_name(self, application_name: &'a str) -> (builder: Self)
        ensures
            builder == (ApplicationInfoBuilder { pApplicationName: Some(application_name), ..self }),
    {
        let mut builder = self;
        builder.pApplicationName = Some(application_name);
        builder
    }

    /// Sets the application's version.
    pub fn application_version(self, application_version: u32) -> (builder: Self)
        ensures
            builder == (ApplicationInfoBuilder {
                applicationVersion: Some(application_version),
                ..self
            }),
    {
        let mut builder = self;
        builder.applicationVersion = Some(application_version);
        builder
    }

    /// Sets the engine's name.
    pub fn engine_name(self, engine_name: &'a str) -> (builder: Self)
        ensures
            builder == (ApplicationInfoBuilder { pEngineName: Some(engine_name), ..self }),
    {
        let mut builder = self;
        builder.pEngineName = Some(engine_name);
        builder
    }

    /// Sets the engine's version.
    pub fn engine_version(self, engine_version: u32) -> (builder: Self)
        ensures
            builder == (ApplicationInfoBuilder { engineVersion: Some(engine_version), ..self }),
    {
        let mut builder = self;
        builder.engineVersion = Some(engine_version);
        builder
    }

    /// Sets the version of the native interface that the application was written for.
    pub fn api_version(self, api_version: u32) -> (builder: Self)
        ensures
            builder == (ApplicationInfoBuilder { apiVersion: Some(api_version), ..self }),
    {
        let mut builder = self;
        builder.apiVersion = Some(api_version);
        builder
    }

    /// The descriptor that the builder describes.
    pub fn build(self) -> (info: ApplicationInfo<'a, U>)
        ensures
            info == self.built(),
            self.pApplicationName is None ==> info.pApplicationName@ == Seq::<char>::empty(),
            self.pEngineName is None ==> info.pEngineName@ == Seq::<char>::empty(),
    {
        proof {
            reveal_strlit("");
        }
        ApplicationInfo {
            pNext: self.pNext,
            pApplicationName: match self.pApplicationName {
                Some(name) => name,
                None => "",
            },
            applicationVersion: match self.applicationVersion {
                Some(version) => version,
                None => 0,
            },
            pEngineName: match self.pEngineName {
                Some(name) => name,
                None => "",
            },
            engineVersion: match self.engineVersion {
                Some(version) => version,
                None => 0,
            },
            apiVersion: self.apiVersion,
        }
    }
}

/// A builder with no field set builds a descriptor that marshals without error: the
/// extension chain is a null pointer, each name is the empty string, which is a buffer
/// of one zero byte, and each version is zero.
pub proof fn lemma_unset_builder_marshals_to_defaults<'a, U>(builder: ApplicationInfoBuilder<'a, U>)
    requires
        builder.pNext is None,
        builder.pApplicationName is None,
        builder.applicationVersion is None,
        builder.pEngineName is None,
        builder.engineVersion is None,
        builder.apiVersion is None,
    ensures
        builder.built().marshaled() matches Ok(raw) && raw == (RawApplicationInfoView::<U> {
            structure_type: STRUCTURE_TYPE_APPLICATION_INFO,
            next: None,
            application_name: seq![0u8],
            application_version: 0,
            engine_name: seq![0u8],
            engine_version: 0,
            api_version: 0,
        }),
{
    reveal_strlit("");
    let empty = encode_utf8(""@);
    assert(empty =~= Seq::<u8>::empty());
    assert(terminated(empty) =~= seq![0u8]);
}

} // verus!
