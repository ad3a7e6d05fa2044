//! Marshalling of text arguments into the native text representation: the
//! bytes of the text followed by one terminating NUL byte.

use vstd::prelude::*;
use vstd::string::*;

verus! {

/// Whether `bytes` holds a NUL byte anywhere.
pub open spec fn has_nul(bytes: Seq<u8>) -> bool {
    exists|i: int| 0 <= i < bytes.len() && bytes[i] == 0u8
}

/// Whether `at` is the position of the first NUL byte of `bytes`.
pub open spec fn is_first_nul(bytes: Seq<u8>, at: int) -> bool {
    &&& 0 <= at < bytes.len()
    &&& bytes[at] == 0u8
    &&& forall|j: int| 0 <= j < at ==> bytes[j] != 0u8
}

/// The native text representation of `bytes`.
pub open spec fn native_text(bytes: Seq<u8>) -> Seq<u8> {
    bytes.push(0u8)
}

/// Finds the first NUL byte of `bytes`, if there is one.
///
/// Text with a NUL byte has no native representation: the native side would
/// read it as ending there.
pub fn find_nul(bytes: &[u8]) -> (r: Option<usize>)
    ensures
        r is None <==> !has_nul(bytes@),
        r matches Some(at) ==> is_first_nul(bytes@, at as int),
{
    let mut i: usize = 0;
    while i < bytes.len()
        invariant
            i <= bytes@.len(),
            forall|j: int| 0 <= j < i ==> bytes@[j] != 0u8,
        decreases bytes@.len() - i,
    {
        if bytes[i] == 0 {
            return Some(i);
        }
        i += 1;
    }
    None
}

/// Converts text to its native representation, byte for byte, and terminates
/// it with a single NUL byte.
pub fn to_native_text(bytes: &[u8]) -> (r: Vec<u8>)
    requires
        !has_nul(bytes@),
    ensures
        r@ == native_text(bytes@),
        r@.len() == bytes@.len() + 1,
        is_first_nul(r@, bytes@.len() as int),
{
    let mut out: Vec<u8> = Vec::new();
    let mut i: usize = 0;
    while i < bytes.len()
        invariant
            i <= bytes@.len(),
            out@ == bytes@.subrange(0, i as int),
        decreases bytes@.len() - i,
    {
        out.push(bytes[i]);
        proof {
            assert(out@ =~= bytes@.subrange(0, i + 1));
        }
        i += 1;
    }
    proof {
        assert(bytes@.subrange(0, i as int) =~= bytes@);
    }
    out.push(0);
    proof {
        assert forall|j: int| 0 <= j < bytes@.len() implies out@[j] != 0u8 by {
            assert(out@[j] == bytes@[j]);
        }
    }
    out
}

/// Converts a string to its native representation: its UTF-8 bytes and one
/// terminating NUL byte.
pub fn str_to_native_text(text: &str) -> (r: Vec<u8>)
    requires
        !has_nul(text.spec_bytes()),
    ensures
        r@ == native_text(text.spec_bytes()),
{
    to_native_text(text.as_bytes())
}

/// Text that was marshalled ends at its terminator and nowhere before: the
/// native side reads back exactly the bytes that were handed in.
pub proof fn native_text_round_trip(bytes: Seq<u8>)
    requires
        !has_nul(bytes),
    ensures
        is_first_nul(native_text(bytes), bytes.len() as int),
        native_text(bytes).subrange(0, bytes.len() as int) == bytes,
{
    let t = native_text(bytes);
    assert forall|j: int| 0 <= j < bytes.len() implies t[j] != 0u8 by {
        assert(t[j] == bytes[j]);
    }
    assert(t.subrange(0, bytes.len() as int) =~= bytes);
}

} // verus!
