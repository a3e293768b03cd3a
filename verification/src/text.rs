//! Text in fixed-capacity strings.
//!
//! Everything the device stores, sends or prints is held in a `heapless::String`, whose capacity
//! is counted in bytes. The functions of this module are the only ones that touch such a string;
//! the rest of the library reasons about the characters that it holds.
use vstd::prelude::*;
use vstd::utf8::{
    encode_utf8, encode_utf8_decode_utf8, is_ascii_chars, is_ascii_chars_encode_utf8,
};

verus! {

/// The fixed-capacity string of `heapless`, seen through the names below.
#[verifier::external_type_specification]
#[verifier::external_body]
pub struct ExBoundedString<const N: usize>(heapless::String<N>);

/// The characters held by a string of at most 16 bytes.
pub uninterp spec fn text16(s: heapless::String<16>) -> Seq<char>;

/// The characters held by a string of at most 64 bytes.
pub uninterp spec fn text64(s: heapless::String<64>) -> Seq<char>;

/// The characters held by a string of at most 256 bytes.
pub uninterp spec fn text256(s: heapless::String<256>) -> Seq<char>;

/// The number of bytes that the characters take in UTF-8.
pub open spec fn byte_len(s: Seq<char>) -> nat {
    encode_utf8(s).len()
}

/// `heapless::String::as_str`: the whole contents, which never exceed the capacity.
#[verifier::external_body]
pub(crate) fn as_str16(s: &heapless::String<16>) -> (r: &str)
    ensures
        r@ == text16(*s),
        byte_len(r@) <= 16,
{
    s.as_str()
}

/// `heapless::String::as_str`: the whole contents, which never exceed the capacity.
#[verifier::external_body]
pub(crate) fn as_str64(s: &heapless::String<64>) -> (r: &str)
    ensures
        r@ == text64(*s),
        byte_len(r@) <= 64,
{
    s.as_str()
}

/// `heapless::String::as_str`: the whole contents, which never exceed the capacity.
#[verifier::external_body]
pub(crate) fn as_str256(s: &heapless::String<256>) -> (r: &str)
    ensures
        r@ == text256(*s),
        byte_len(r@) <= 256,
{
    s.as_str()
}

/// `heapless::String::new`: an empty string.
#[verifier::external_body]
pub(crate) fn new64() -> (r: heapless::String<64>)
    ensures
        text64(r) == Seq::<char>::empty(),
{
    heapless::String::new()
}

/// `heapless::String::new`: an empty string.
#[verifier::external_body]
pub(crate) fn new256() -> (r: heapless::String<256>)
    ensures
        text256(r) == Seq::<char>::empty(),
{
    heapless::String::new()
}

/// `heapless::String::push_str`: appends the slice if all of it fits, and otherwise fails and
/// appends nothing.
#[verifier::external_body]
pub(crate) fn push64(s: &mut heapless::String<64>, t: &str) -> (r: Result<(), ()>)
    ensures
        r is Ok <==> byte_len(text64(*old(s))) + byte_len(t@) <= 64,
        text64(*final(s)) == if r is Ok { text64(*old(s)) + t@ } else { text64(*old(s)) },
{
    s.push_str(t)
}

/// `heapless::String::push_str`: appends the slice if all of it fits, and otherwise fails and
/// appends nothing.
#[verifier::external_body]
pub(crate) fn push256(s: &mut heapless::String<256>, t: &str) -> (r: Result<(), ()>)
    ensures
        r is Ok <==> byte_len(text256(*old(s))) + byte_len(t@) <= 256,
        text256(*final(s)) == if r is Ok { text256(*old(s)) + t@ } else { text256(*old(s)) },
{
    s.push_str(t)
}

/// UTF-8 encodes a concatenation piece by piece.
pub proof fn lemma_encode_concat(a: Seq<char>, b: Seq<char>)
    ensures
        encode_utf8(a + b) == encode_utf8(a) + encode_utf8(b),
        byte_len(a + b) == byte_len(a) + byte_len(b),
    decreases a.len(),
{
    if a.len() == 0 {
        assert(a + b =~= b);
    } else {
        assert((a + b).drop_first() =~= a.drop_first() + b);
        lemma_encode_concat(a.drop_first(), b);
    }
}

/// Two texts with the same UTF-8 bytes are the same text.
pub proof fn lemma_encode_injective(a: Seq<char>, b: Seq<char>)
    requires
        encode_utf8(a) == encode_utf8(b),
    ensures
        a == b,
{
    encode_utf8_decode_utf8(a);
    encode_utf8_decode_utf8(b);
}

/// An ASCII text has one byte for each character.
pub proof fn lemma_ascii_byte_len(a: Seq<char>)
    requires
        is_ascii_chars(a),
    ensures
        byte_len(a) == a.len(),
{
    is_ascii_chars_encode_utf8(a);
}

/// Whether two string slices hold the same characters.
pub(crate) fn str_eq(a: &str, b: &str) -> (r: bool)
    ensures
        r == (a@ == b@),
{
    let x = a.as_bytes();
    let y = b.as_bytes();
    if x.len() != y.len() {
        return false;
    }
    let mut i: usize = 0;
    while i < x.len()
        invariant
            i <= x.len(),
            x.len() == y.len(),
            x@ == encode_utf8(a@),
            y@ == encode_utf8(b@),
            forall|j: int| 0 <= j < i ==> x@[j] == y@[j],
        decreases x.len() - i,
    {
        if x[i] != y[i] {
            return false;
        }
        i += 1;
    }
    proof {
        assert(x@ =~= y@);
        lemma_encode_injective(a@, b@);
    }
    true
}

/// A 64-byte string that holds the three slices, one after another.
pub(crate) fn join64(a: &str, b: &str, c: &str) -> (r: heapless::String<64>)
    requires
        byte_len(a@) + byte_len(b@) + byte_len(c@) <= 64,
    ensures
        text64(r) == a@ + b@ + c@,
{
    let mut s = new64();
    proof {
        lemma_encode_concat(a@, b@);
    }
    let _ = push64(&mut s, a);
    assert(text64(s) =~= a@);
    let _ = push64(&mut s, b);
    let _ = push64(&mut s, c);
    s
}

/// A 64-byte string that holds the slice.
pub(crate) fn from64(a: &str) -> (r: heapless::String<64>)
    requires
        byte_len(a@) <= 64,
    ensures
        text64(r) == a@,
{
    let mut s = new64();
    let _ = push64(&mut s, a);
    assert(text64(s) =~= a@);
    s
}

/// Another string with the same contents.
pub(crate) fn copy64(s: &heapless::String<64>) -> (r: heapless::String<64>)
    ensures
        text64(r) == text64(*s),
{
    from64(as_str64(s))
}

} // verus!
