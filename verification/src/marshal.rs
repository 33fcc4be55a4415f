//! What can go wrong when a descriptor is put into its raw form.

use crate::names::converted_all;
use vstd::prelude::*;

verus! {

/// A descriptor holds a name that cannot be handed to the native interface, because
/// the name holds a zero byte. `position` is the place of the first zero byte in the
/// name; `index` is the place of the name in its list.
#[derive(Clone, Copy, Debug, PartialEq, Eq)]
pub enum MarshalError {
    ApplicationName { position: usize },
    EngineName { position: usize },
    LayerName { index: usize, position: usize },
    ExtensionName { index: usize, position: usize },
}

/// The raw form of a list of layer names that may be absent.
pub open spec fn marshaled_layer_names(names: Option<Seq<Seq<u8>>>) -> Result<
    Option<Seq<Seq<u8>>>,
    MarshalError,
> {
    match names {
        None => Ok(None),
        Some(names) => match converted_all(names) {
            Ok(buffers) => Ok(Some(buffers)),
            Err(error) => Err(
                MarshalError::LayerName { index: error.index, position: error.position },
            ),
        },
    }
}

/// The raw form of a list of extension names that may be absent.
pub open spec fn marshaled_extension_names(names: Option<Seq<Seq<u8>>>) -> Result<
    Option<Seq<Seq<u8>>>,
    MarshalError,
> {
    match names {
        None => Ok(None),
        Some(names) => match converted_all(names) {
            Ok(buffers) => Ok(Some(buffers)),
            Err(error) => Err(
                MarshalError::ExtensionName { index: error.index, position: error.position },
            ),
        },
    }
}

/// The number that a raw count field holds for a list of `len` entries: the low 32
/// bits of the length.
pub open spec fn raw_count(len: nat) -> u32 {
    (len % 0x1_0000_0000) as u32
}

/// The raw count of a list that may be absent: zero for an absent one.
pub open spec fn list_count(names: Option<Seq<Seq<u8>>>) -> u32 {
    match names {
        Some(names) => raw_count(names.len()),
        None => 0,
    }
}

/// The raw count field for a list of `len` entries.
pub fn count_of(len: usize) -> (count: u32)
    ensures
        count == raw_count(len as nat),
        len <= u32::MAX ==> count == len,
{
    assert(len as u32 == ((len as u64) % 0x1_0000_0000u64) as u32) by (bit_vector);
    #[verifier::truncate]
    (len as u32)
}

} // verus!
