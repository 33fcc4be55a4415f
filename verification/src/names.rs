//! Lists of names in the form a C routine reads them: one buffer per name, in order.

use crate::c_string::{c_len, has_nul, terminated, CString};
use vstd::prelude::*;
use vstd::utf8::encode_utf8;

verus! {

/// Why a list of names cannot be handed to a C routine: the first name in it that
/// holds a zero byte, and the place of that byte in the name.
#[derive(Clone, Copy, Debug, PartialEq, Eq)]
pub struct NameError {
    pub index: usize,
    pub position: usize,
}

/// The bytes of each borrowed name.
pub open spec fn str_bytes(names: Seq<&str>) -> Seq<Seq<u8>> {
    Seq::new(names.len(), |i: int| encode_utf8(names[i]@))
}

/// The bytes of each owned name.
pub open spec fn string_bytes(names: Seq<String>) -> Seq<Seq<u8>> {
    Seq::new(names.len(), |i: int| encode_utf8(names[i]@))
}

/// The buffer of each string.
pub open spec fn buffers(strings: Seq<CString>) -> Seq<Seq<u8>> {
    Seq::new(strings.len(), |i: int| strings[i]@)
}

/// Whether no name holds a zero byte.
pub open spec fn all_convertible(names: Seq<Seq<u8>>) -> bool {
    forall|i: int| 0 <= i < names.len() ==> !has_nul(#[trigger] names[i])
}

/// The number of names in front of the first one that holds a zero byte, or the
/// length of the list where there is none.
pub open spec fn convertible_prefix(names: Seq<Seq<u8>>) -> nat
    decreases names.len(),
{
    if names.len() == 0 || has_nul(names[0]) {
        0
    } else {
        1 + convertible_prefix(names.drop_first())
    }
}

/// Each name followed by a zero byte.
pub open spec fn terminated_all(names: Seq<Seq<u8>>) -> Seq<Seq<u8>> {
    Seq::new(names.len(), |i: int| terminated(names[i]))
}

/// What converting a list of names gives: the buffers, in the order of the names, or
/// the first name that holds a zero byte with the place of that byte.
pub open spec fn converted_all(names: Seq<Seq<u8>>) -> Result<Seq<Seq<u8>>, NameError> {
    if all_convertible(names) {
        Ok(terminated_all(names))
    } else {
        let index = convertible_prefix(names);
        Err(NameError { index: index as usize, position: c_len(names[index as int]) as usize })
    }
}

/// `convertible_prefix` is the place of the first name that holds a zero byte, or the
/// length of the list where there is none.
pub proof fn lemma_convertible_prefix(names: Seq<Seq<u8>>, index: int)
    requires
        0 <= index <= names.len(),
        forall|j: int| 0 <= j < index ==> !has_nul(#[trigger] names[j]),
    ensures
        index <= convertible_prefix(names) <= names.len(),
        index < names.len() && has_nul(names[index]) ==> convertible_prefix(names) == index
            && !all_convertible(names),
        index == names.len() ==> convertible_prefix(names) == index && all_convertible(names),
    decreases names.len(),
{
    if names.len() == 0 || has_nul(names[0]) {
        if index > 0 {
            assert(!has_nul(names[0]));
        }
    } else {
        let rest = names.drop_first();
        if index > 0 {
            assert forall|j: int| 0 <= j < index - 1 implies !has_nul(#[trigger] rest[j]) by {
                assert(rest[j] == names[j + 1]);
            }
            lemma_convertible_prefix(rest, index - 1);
        } else {
            lemma_convertible_prefix(rest, 0);
        }
    }
}

/// Converts each borrowed name, in order. The first name that holds a zero byte
/// stops the conversion.
pub fn convert_strs(names: &Vec<&str>) -> (result: Result<Vec<CString>, NameError>)
    ensures
        match result {
            Ok(strings) => converted_all(str_bytes(names@)) matches Ok(array) && array == buffers(
                strings@,
            ),
            Err(error) => converted_all(str_bytes(names@)) matches Err(first) && first == error,
        },
{
    let ghost bytes = str_bytes(names@);
    let mut strings: Vec<CString> = Vec::new();
    let mut i: usize = 0;
    while i < names.len()
        invariant
            i <= names.len(),
            bytes == str_bytes(names@),
            strings@.len() == i,
            forall|j: int| 0 <= j < i ==> !has_nul(#[trigger] bytes[j]),
            forall|j: int| 0 <= j < i ==> (#[trigger] strings@[j])@ == terminated(bytes[j]),
        decreases names.len() - i,
    {
        match CString::new(names[i].as_bytes()) {
            Ok(string) => {
                strings.push(string);
            },
            Err(error) => {
                proof {
                    lemma_convertible_prefix(bytes, i as int);
                }
                return Err(NameError { index: i, position: error.position });
            },
        }
        i = i + 1;
    }
    proof {
        lemma_convertible_prefix(bytes, i as int);
        assert(buffers(strings@) =~= terminated_all(bytes));
    }
    Ok(strings)
}

/// Converts each owned name, in order. The first name that holds a zero byte stops
/// the conversion.
pub fn convert_strings(names: &Vec<String>) -> (result: Result<Vec<CString>, NameError>)
    ensures
        match result {
            Ok(strings) => converted_all(string_bytes(names@)) matches Ok(array) && array
                == buffers(strings@),
            Err(error) => converted_all(string_bytes(names@)) matches Err(first) && first == error,
        },
{
    let ghost bytes = string_bytes(names@);
    let mut strings: Vec<CString> = Vec::new();
    let mut i: usize = 0;
    while i < names.len()
        invariant
            i <= names.len(),
            bytes == string_bytes(names@),
            strings@.len() == i,
            forall|j: int| 0 <= j < i ==> !has_nul(#[trigger] bytes[j]),
            forall|j: int| 0 <= j < i ==> (#[trigger] strings@[j])@ == terminated(bytes[j]),
        decreases names.len() - i,
    {
        match CString::new(names[i].as_str().as_bytes()) {
            Ok(string) => {
                strings.push(string);
            },
            Err(error) => {
                proof {
                    lemma_convertible_prefix(bytes, i as int);
                }
                return Err(NameError { index: i, position: error.position });
            },
        }
        i = i + 1;
    }
    proof {
        lemma_convertible_prefix(bytes, i as int);
        assert(buffers(strings@) =~= terminated_all(bytes));
    }
    Ok(strings)
}

} // verus!
