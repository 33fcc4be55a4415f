//! What the call wrappers decide. The raw calls themselves are made outside this
//! library; it is handed what a call returned and says what the wrapper returns.

use crate::codes::{success, SUCCESS};
use crate::device_create_info::{DeviceCreateInfo, RawDeviceCreateInfo};
use crate::handles::SurfaceHandle;
use crate::instance_create_info::{InstanceCreateInfo, RawInstanceCreateInfo};
use crate::marshal::MarshalError;
use crate::views::viewed;
use vstd::prelude::*;

verus! {

/// What a wrapper returns for a raw call that gave `result` and filled its output
/// slot with `output`: the output where the call succeeded, the result code where it
/// did not.
pub open spec fn outcome<V>(result: i32, output: V) -> Result<V, i32> {
    if result == SUCCESS {
        Ok(output)
    } else {
        Err(result)
    }
}

/// What an enumeration returns whose count query gave `count_result` and whose
/// populate call gave `populate_result` and left `entries` in the buffer. The populate
/// call is made only where the count query succeeded.
pub open spec fn enumerated<V>(
    count_result: i32,
    populate_result: i32,
    entries: Seq<V>,
) -> Result<Seq<V>, i32> {
    if count_result != SUCCESS {
        Err(count_result)
    } else {
        outcome(populate_result, entries)
    }
}

/// The descriptor argument of an instance-creation call: the raw form of a present
/// descriptor, a null pointer for an absent one.
pub fn instance_create_argument<'a, T, U>(
    create_info: Option<InstanceCreateInfo<'a, T, U>>,
) -> (argument: Result<Option<RawInstanceCreateInfo<T, U>>, MarshalError>)
    ensures
        match create_info {
            None => argument matches Ok(raw) && raw is None,
            Some(info) => match argument {
                Ok(raw) => raw matches Some(raw) && info@.marshaled() matches Ok(view) && view
                    == raw@,
                Err(error) => info@.marshaled() matches Err(first) && first == error,
            },
        },
{
    match create_info {
        None => Ok(None),
        Some(info) => match info.into_raw() {
            Ok(raw) => Ok(Some(raw)),
            Err(error) => Err(error),
        },
    }
}

/// The descriptor argument of a device-creation call: the raw form of a present
/// descriptor, a null pointer for an absent one.
pub fn device_create_argument<'a, T>(
    create_info: Option<DeviceCreateInfo<'a, T>>,
) -> (argument: Result<Option<RawDeviceCreateInfo<T>>, MarshalError>)
    ensures
        match create_info {
            None => argument matches Ok(raw) && raw is None,
            Some(info) => match argument {
                Ok(raw) => raw matches Some(raw) && info@.marshaled() matches Ok(view) && view
                    == raw@,
                Err(error) => info@.marshaled() matches Err(first) && first == error,
            },
        },
{
    match create_info {
        None => Ok(None),
        Some(info) => match info.into_raw() {
            Ok(raw) => Ok(Some(raw)),
            Err(error) => Err(error),
        },
    }
}

/// Whether `result` is the code of a call that succeeded.
pub fn is_success(result: i32) -> (succeeded: bool)
    ensures
        succeeded == (result == SUCCESS),
{
    result == success()
}

/// Interprets what a raw call returned: `result` is its result code, `output` what it
/// left in its output slot.
pub fn call_outcome<V>(result: i32, output: V) -> (returned: Result<V, i32>)
    ensures
        returned == outcome(result, output),
{
    if result == success() {
        Ok(output)
    } else {
        Err(result)
    }
}

/// An enumeration between its two raw calls: the count query has succeeded, and the
/// populate call is to be made on a buffer of `capacity()` zeroed entries.
pub struct Enumeration {
    capacity: usize,
}

impl Enumeration {
    /// The number of entries that the count query reported.
    pub closed spec fn count(self) -> nat {
        self.capacity as nat
    }

    /// Interprets what the count query returned. A count of zero is no error: the
    /// populate call is then made on an empty buffer.
    pub fn begin(result: i32, count: u32) -> (returned: Result<Enumeration, i32>)
        ensures
            match returned {
                Ok(enumeration) => result == SUCCESS && enumeration.count() == count,
                Err(error) => result != SUCCESS && error == result,
            },
    {
        if result == success() {
            Ok(Enumeration { capacity: count as usize })
        } else {
            Err(result)
        }
    }

    /// The length of the buffer to hand to the populate call.
    pub fn capacity(&self) -> (capacity: usize)
        ensures
            capacity == self.count(),
    {
        self.capacity
    }

    /// Interprets what the populate call returned: `result` is its result code,
    /// `entries` the buffer after the call.
    pub fn finish<V>(self, result: i32, entries: Vec<V>) -> (returned: Result<Vec<V>, i32>)
        ensures
            viewed(returned) == enumerated(SUCCESS, result, entries@),
    {
        call_outcome(result, entries)
    }
}

/// An enumeration whose two calls succeed returns the entries that the populate call
/// left, in their order; so it returns as many as the count query reported where the
/// populate call left that many.
pub proof fn lemma_enumeration_keeps_entries<V>(
    count_result: i32,
    count: u32,
    populate_result: i32,
    entries: Seq<V>,
)
    requires
        count_result == SUCCESS,
        populate_result == SUCCESS,
        entries.len() == count,
    ensures
        enumerated(count_result, populate_result, entries) matches Ok(list) && list == entries
            && list.len() == count,
{
}

/// An enumeration whose count query reports no entries returns the empty list, not an
/// error.
pub proof fn lemma_enumeration_of_nothing<V>(
    count_result: i32,
    populate_result: i32,
    entries: Seq<V>,
)
    requires
        count_result == SUCCESS,
        populate_result == SUCCESS,
        entries.len() == 0,
    ensures
        enumerated(count_result, populate_result, entries) matches Ok(list) && list.len() == 0,
{
    assert(entries =~= Seq::empty());
}

/// An enumeration fails with the result code of the first of its calls that did not
/// succeed.
pub proof fn lemma_enumeration_fails_with_first_error<V>(
    count_result: i32,
    populate_result: i32,
    entries: Seq<V>,
)
    ensures
        count_result != SUCCESS ==> (enumerated(count_result, populate_result, entries) matches Err(
            error,
        ) && error == count_result),
        count_result == SUCCESS && populate_result != SUCCESS ==> (enumerated(
            count_result,
            populate_result,
            entries,
        ) matches Err(error) && error == populate_result),
{
}

/// The surface handle to hand to a raw call: the null handle for an absent surface.
pub fn surface_or_null(surface: Option<SurfaceHandle>) -> (handle: SurfaceHandle)
    ensures
        match surface {
            Some(given) => handle == given,
            None => handle.raw == 0,
        },
{
    match surface {
        Some(given) => given,
        None => SurfaceHandle::null(),
    }
}

/// Interprets what the surface-support query left in its output slot: zero says that
/// the surface is not supported, any other value that it is. The query must have
/// succeeded.
pub fn physical_device_surface_support(result: i32, supported: u32) -> (support: bool)
    requires
        result == SUCCESS,
    ensures
        support == (supported != 0),
{
    supported != 0
}

} // verus!
