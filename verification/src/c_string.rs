//! Byte strings in the form a C routine reads them: the bytes, then one zero byte.
//!
//! A C routine stops reading at the first zero byte, so bytes that hold a zero byte
//! of their own cannot be handed over: they are rejected, with the place of that byte.

use crate::views::viewed;
use vstd::prelude::*;

verus! {

/// Whether `bytes` holds a zero byte.
pub open spec fn has_nul(bytes: Seq<u8>) -> bool {
    exists|i: int| 0 <= i < bytes.len() && bytes[i] == 0u8
}

/// The number of bytes a C routine reads from `bytes` before it stops: those in front
/// of the first zero byte, or all of them where there is none.
pub open spec fn c_len(bytes: Seq<u8>) -> nat
    decreases bytes.len(),
{
    if bytes.len() == 0 || bytes[0] == 0u8 {
        0
    } else {
        1 + c_len(bytes.drop_first())
    }
}

/// What a C routine reads from `buffer`.
pub open spec fn c_contents(buffer: Seq<u8>) -> Seq<u8> {
    buffer.take(c_len(buffer) as int)
}

/// The buffer that carries `bytes` to a C routine.
pub open spec fn terminated(bytes: Seq<u8>) -> Seq<u8> {
    bytes.push(0u8)
}

/// A buffer is well formed when its last byte is its only zero byte.
pub open spec fn is_c_string(buffer: Seq<u8>) -> bool {
    buffer.len() > 0 && c_len(buffer) == buffer.len() - 1
}

/// Why bytes cannot be handed to a C routine: the place of their first zero byte.
#[derive(Clone, Copy, Debug, PartialEq, Eq)]
pub struct NulError {
    pub position: usize,
}

/// What converting `bytes` gives: the terminated buffer, or the place of the first
/// zero byte among them.
pub open spec fn converted(bytes: Seq<u8>) -> Result<Seq<u8>, NulError> {
    if has_nul(bytes) {
        Err(NulError { position: c_len(bytes) as usize })
    } else {
        Ok(terminated(bytes))
    }
}

/// `c_len` is the place of the first zero byte, or the length where there is none.
pub proof fn lemma_c_len(bytes: Seq<u8>)
    ensures
        c_len(bytes) <= bytes.len(),
        forall|j: int| 0 <= j < c_len(bytes) ==> bytes[j] != 0u8,
        c_len(bytes) < bytes.len() ==> bytes[c_len(bytes) as int] == 0u8,
        has_nul(bytes) <==> c_len(bytes) < bytes.len(),
    decreases bytes.len(),
{
    if bytes.len() == 0 || bytes[0] == 0u8 {
    } else {
        let rest = bytes.drop_first();
        lemma_c_len(rest);
        assert forall|j: int| 0 <= j < c_len(bytes) implies bytes[j] != 0u8 by {
            if j > 0 {
                assert(bytes[j] == rest[j - 1]);
            }
        }
        if c_len(bytes) < bytes.len() {
            assert(bytes[c_len(bytes) as int] == rest[c_len(rest) as int]);
        }
    }
    if has_nul(bytes) {
        let i = choose|i: int| 0 <= i < bytes.len() && bytes[i] == 0u8;
        assert(c_len(bytes) <= i);
    }
}

/// A place in front of which no byte is zero is the first zero byte's place if the
/// byte there is zero, and short of it otherwise.
pub proof fn lemma_c_len_at(bytes: Seq<u8>, position: int)
    requires
        0 <= position <= bytes.len(),
        forall|j: int| 0 <= j < position ==> bytes[j] != 0u8,
    ensures
        position <= c_len(bytes),
        position < bytes.len() && bytes[position] == 0u8 ==> c_len(bytes) == position,
        position == bytes.len() ==> c_len(bytes) == position && !has_nul(bytes),
{
    lemma_c_len(bytes);
    if c_len(bytes) < position {
        assert(bytes[c_len(bytes) as int] == 0u8);
    }
}

/// Terminated bytes make a well-formed buffer exactly when they hold no zero byte, and
/// exactly then a C routine reads the same bytes back from the buffer.
pub proof fn lemma_round_trip(bytes: Seq<u8>)
    ensures
        !has_nul(bytes) <==> is_c_string(terminated(bytes)),
        !has_nul(bytes) <==> c_contents(terminated(bytes)) == bytes,
{
    let buffer = terminated(bytes);
    lemma_c_len(bytes);
    if !has_nul(bytes) {
        assert forall|j: int| 0 <= j < bytes.len() implies buffer[j] != 0u8 by {
            assert(buffer[j] == bytes[j]);
        }
        lemma_c_len_at(buffer, bytes.len() as int);
        assert(c_contents(buffer) =~= bytes);
    } else {
        let i = c_len(bytes) as int;
        assert forall|j: int| 0 <= j < i implies buffer[j] != 0u8 by {
            assert(buffer[j] == bytes[j]);
        }
        assert(buffer[i] == bytes[i]);
        lemma_c_len_at(buffer, i);
        assert(c_contents(buffer).len() < bytes.len());
    }
}

/// An owned byte string in the form a C routine reads: its last byte is its only zero
/// byte. The buffer is private, so every value is well formed.
#[derive(Debug)]
pub struct CString {
    buffer: Vec<u8>,
}

impl View for CString {
    type V = Seq<u8>;

    /// The whole buffer, with the zero byte that ends it.
    closed spec fn view(&self) -> Seq<u8> {
        self.buffer@
    }
}

impl CString {
    #[verifier::type_invariant]
    spec fn well_formed(self) -> bool {
        is_c_string(self.buffer@)
    }

    /// Copies `bytes` and ends them with a zero byte. Bytes that hold a zero byte
    /// themselves are rejected with the place of the first one.
    pub fn new(bytes: &[u8]) -> (result: Result<CString, NulError>)
        ensures
            viewed(result) == converted(bytes@),
    {
        let mut buffer: Vec<u8> = Vec::new();
        let mut i: usize = 0;
        while i < bytes.len()
            invariant
                i <= bytes.len(),
                buffer@ == bytes@.take(i as int),
                forall|j: int| 0 <= j < i ==> bytes@[j] != 0u8,
            decreases bytes.len() - i,
        {
            let byte: u8 = bytes[i];
            if byte == 0 {
                proof {
                    lemma_c_len_at(bytes@, i as int);
                }
                return Err(NulError { position: i });
            }
            buffer.push(byte);
            assert(bytes@.take(i as int).push(byte) =~= bytes@.take(i + 1));
            i = i + 1;
        }
        assert(bytes@.take(i as int) =~= bytes@);
        buffer.push(0);
        proof {
            lemma_c_len_at(bytes@, i as int);
            lemma_round_trip(bytes@);
        }
        Ok(CString { buffer })
    }

    /// The buffer, with the zero byte that ends it.
    pub fn as_bytes_with_nul(&self) -> (bytes: &[u8])
        ensures
            bytes@ == self@,
            is_c_string(self@),
    {
        proof {
            use_type_invariant(self);
        }
        self.buffer.as_slice()
    }

    /// The bytes a C routine reads from the buffer: all but the zero byte that ends it.
    pub fn to_bytes(&self) -> (bytes: Vec<u8>)
        ensures
            bytes@ == c_contents(self@),
            bytes@ == self@.drop_last(),
    {
        proof {
            use_type_invariant(self);
        }
        let n: usize = self.buffer.len() - 1;
        let mut bytes: Vec<u8> = Vec::new();
        let mut i: usize = 0;
        while i < n
            invariant
                i <= n,
                n == self.buffer@.len() - 1,
                bytes@ == self.buffer@.take(i as int),
            decreases n - i,
        {
            bytes.push(self.buffer[i]);
            assert(self.buffer@.take(i as int).push(self.buffer@[i as int]) =~= self.buffer@.take(
                i + 1,
            ));
            i = i + 1;
        }
        assert(self.buffer@.take(n as int) =~= self.buffer@.drop_last());
        bytes
    }
}

} // verus!
