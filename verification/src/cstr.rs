//! NUL-terminated string buffers.
//!
//! The native layer hands string data to callbacks as C strings: byte
//! buffers terminated by the first zero byte. The event-info views copy
//! such fields out on demand, because the native buffer may be freed or
//! reused once the callback returns. This module holds the codec those
//! views decode with, together with its round-trip law.

use vstd::prelude::*;

verus! {

/// The contents of a C-string buffer: the bytes before the first zero
/// byte, or all of `s` if no zero byte occurs.
pub open spec fn cstr_contents(s: Seq<u8>) -> Seq<u8>
    decreases s.len(),
{
    if s.len() == 0 {
        Seq::empty()
    } else if s[0] == 0 {
        Seq::empty()
    } else {
        seq![s[0]] + cstr_contents(s.drop_first())
    }
}

/// `cstr_contents` of a buffer whose first `i` bytes are non-zero and
/// which ends (by a zero byte or by running out) at `i` is exactly that
/// prefix.
proof fn lemma_cstr_contents_prefix(s: Seq<u8>, i: int)
    requires
        0 <= i <= s.len(),
        forall|j: int| 0 <= j < i ==> s[j] != 0,
        i == s.len() || s[i] == 0,
    ensures
        cstr_contents(s) == s.take(i),
    decreases i,
{
    if i == 0 {
        assert(cstr_contents(s) =~= s.take(0));
    } else {
        assert(s[0] != 0);
        lemma_cstr_contents_prefix(s.drop_first(), i - 1);
        assert(cstr_contents(s) =~= s.take(i));
    }
}

/// Copies the contents of the C-string buffer `buf` out into an owned
/// vector: every byte before the first zero byte.
pub fn decode_c_string(buf: &Vec<u8>) -> (r: Vec<u8>)
    ensures
        r@ == cstr_contents(buf@),
{
    let mut r: Vec<u8> = Vec::new();
    let mut i: usize = 0;
    loop
        invariant
            0 <= i <= buf.len(),
            r@ == buf@.take(i as int),
            forall|j: int| 0 <= j < i ==> buf@[j] != 0,
        decreases buf.len() - i,
    {
        if i == buf.len() {
            proof {
                lemma_cstr_contents_prefix(buf@, i as int);
            }
            return r;
        }
        let b = buf[i];
        if b == 0 {
            proof {
                lemma_cstr_contents_prefix(buf@, i as int);
            }
            return r;
        }
        r.push(b);
        i = i + 1;
        proof {
            assert(r@ =~= buf@.take(i as int));
        }
    }
}

/// Lays `data` out as the native layer would store it: the bytes
/// followed by a terminating zero byte.
pub fn encode_c_string(data: &Vec<u8>) -> (r: Vec<u8>)
    ensures
        r@ == data@ + seq![0u8],
{
    let mut r: Vec<u8> = Vec::new();
    let mut i: usize = 0;
    while i < data.len()
        invariant
            0 <= i <= data.len(),
            r@ == data@.take(i as int),
        decreases data.len() - i,
    {
        r.push(data[i]);
        i = i + 1;
        proof {
            assert(r@ =~= data@.take(i as int));
        }
    }
    r.push(0);
    proof {
        assert(r@ =~= data@ + seq![0u8]);
    }
    r
}

/// Round trip: string data without interior zero bytes, laid out as a
/// NUL-terminated buffer, decodes back to exactly the original bytes.
pub proof fn lemma_cstr_round_trip(s: Seq<u8>)
    requires
        forall|j: int| 0 <= j < s.len() ==> s[j] != 0,
    ensures
        cstr_contents(s + seq![0u8]) == s,
{
    let buf = s + seq![0u8];
    lemma_cstr_contents_prefix(buf, s.len() as int);
    assert(cstr_contents(buf) =~= s);
}

} // verus!
