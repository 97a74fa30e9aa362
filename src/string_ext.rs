//! Strings from fixed-size native character buffers, which end at their
//! first nul byte.
use vstd::prelude::*;

use std::string::FromUtf8Error;

verus! {

#[verifier::external_type_specification]
#[verifier::external_body]
pub struct ExFromUtf8Error(std::string::FromUtf8Error);

/// The characters that the bytes `b` encode in UTF-8, or `None` where `b` is
/// not valid UTF-8.
pub uninterp spec fn utf8_decoding(b: Seq<u8>) -> Option<Seq<char>>;

/// Relies on `String::from_utf8`: the string that the bytes encode, or an
/// error when they are not valid UTF-8.
#[verifier::external_body]
fn decode_utf8(v: Vec<u8>) -> (r: Result<String, FromUtf8Error>)
    ensures
        r is Ok <==> utf8_decoding(v@) is Some,
        r matches Ok(s) ==> utf8_decoding(v@) == Some(s@),
{
    String::from_utf8(v)
}

/// The bytes of `b` before its first nul byte; all of `b` if it has none.
pub open spec fn nul_prefix(b: Seq<u8>) -> Seq<u8>
    decreases b.len(),
{
    if b.len() == 0 || b[0] == 0 {
        Seq::empty()
    } else {
        seq![b[0]] + nul_prefix(b.subrange(1, b.len() as int))
    }
}

/// The bytes of a buffer of C characters, each read as unsigned.
pub open spec fn unsigned_bytes(b: Seq<i8>) -> Seq<u8> {
    b.map_values(|x: i8| x as u8)
}

pub open spec fn decoded_result(r: Result<String, FromUtf8Error>, b: Seq<u8>) -> bool {
    &&& r is Ok <==> utf8_decoding(b) is Some
    &&& r matches Ok(s) ==> utf8_decoding(b) == Some(s@)
}

proof fn lemma_nul_prefix_at(b: Seq<u8>, i: int)
    requires
        0 <= i <= b.len(),
        forall|j: int| 0 <= j < i ==> b[j] != 0,
        i == b.len() || b[i] == 0,
    ensures
        nul_prefix(b) == b.take(i),
    decreases i,
{
    if i == 0 {
        assert(b.take(0) =~= Seq::<u8>::empty());
    } else {
        let rest = b.subrange(1, b.len() as int);
        assert forall|j: int| 0 <= j < i - 1 implies rest[j] != 0 by {
            assert(rest[j] == b[j + 1]);
        }
        if i < b.len() {
            assert(rest[i - 1] == b[i]);
        }
        lemma_nul_prefix_at(rest, i - 1);
        assert(b.take(i) =~= seq![b[0]] + rest.take(i - 1));
    }
}

/// Cuts `vec` at its first nul byte.
pub fn nul_truncate(vec: &mut Vec<u8>)
    ensures
        final(vec)@ == nul_prefix(old(vec)@),
{
    let mut i: usize = 0;
    while i < vec.len() && vec[i] != 0
        invariant
            0 <= i <= vec.len(),
            vec@ == old(vec)@,
            forall|j: int| 0 <= j < i ==> vec@[j] != 0,
        decreases vec.len() - i,
    {
        i = i + 1;
    }
    proof {
        lemma_nul_prefix_at(vec@, i as int);
    }
    vec.truncate(i);
    assert(vec@ =~= old(vec)@.take(i as int));
}

/// The bytes of `b` before its first nul byte.
fn bytes_before_nul(b: &[u8]) -> (r: Vec<u8>)
    ensures
        r@ == nul_prefix(b@),
{
    let mut out: Vec<u8> = Vec::new();
    let mut i: usize = 0;
    while i < b.len() && b[i] != 0
        invariant
            0 <= i <= b.len(),
            out@ == b@.take(i as int),
            forall|j: int| 0 <= j < i ==> b@[j] != 0,
        decreases b.len() - i,
    {
        out.push(b[i]);
        i = i + 1;
        assert(out@ =~= b@.take(i as int));
    }
    proof {
        lemma_nul_prefix_at(b@, i as int);
    }
    out
}

/// The bytes of `b`, read as unsigned, before its first nul.
fn c_chars_before_nul(b: &[i8]) -> (r: Vec<u8>)
    ensures
        r@ == nul_prefix(unsigned_bytes(b@)),
{
    let ghost u = unsigned_bytes(b@);
    let mut out: Vec<u8> = Vec::new();
    let mut i: usize = 0;
    while i < b.len() && b[i] as u8 != 0
        invariant
            0 <= i <= b.len(),
            u == unsigned_bytes(b@),
            out@ == u.take(i as int),
            forall|j: int| 0 <= j < i ==> u[j] != 0,
        decreases b.len() - i,
    {
        out.push(b[i] as u8);
        i = i + 1;
        assert(out@ =~= u.take(i as int));
    }
    proof {
        lemma_nul_prefix_at(u, i as int);
    }
    out
}

/// The string that the bytes of `b` before its first nul encode in UTF-8.
pub fn string_from_nul_terminated(b: &[u8]) -> (r: Result<String, FromUtf8Error>)
    ensures
        decoded_result(r, nul_prefix(b@)),
{
    decode_utf8(bytes_before_nul(b))
}

/// The string that the C characters of `b` before the first nul encode in
/// UTF-8.
pub fn string_from_nul_terminated_c_chars(b: &[i8]) -> (r: Result<String, FromUtf8Error>)
    ensures
        decoded_result(r, nul_prefix(unsigned_bytes(b@))),
{
    decode_utf8(c_chars_before_nul(b))
}

/// The string that the bytes of `vec` before its first nul encode in UTF-8.
pub fn string_from_nul_terminated_vec(vec: Vec<u8>) -> (r: Result<String, FromUtf8Error>)
    ensures
        decoded_result(r, nul_prefix(vec@)),
{
    let mut vec = vec;
    nul_truncate(&mut vec);
    decode_utf8(vec)
}

/// Building a string from a nul-terminated buffer.
pub trait FromUtf8NulTruncating<T>: Sized {
    /// The string that the buffer's bytes before the first nul encode.
    fn from_utf8_nul_truncating(buffer: T) -> Result<Self, FromUtf8Error>;
}

impl FromUtf8NulTruncating<Vec<u8>> for String {
    fn from_utf8_nul_truncating(buffer: Vec<u8>) -> Result<String, FromUtf8Error> {
        string_from_nul_terminated_vec(buffer)
    }
}

impl<'a> FromUtf8NulTruncating<&'a [u8]> for String {
    fn from_utf8_nul_truncating(buffer: &'a [u8]) -> Result<String, FromUtf8Error> {
        string_from_nul_terminated(buffer)
    }
}

impl<'a> FromUtf8NulTruncating<&'a [i8]> for String {
    fn from_utf8_nul_truncating(buffer: &'a [i8]) -> Result<String, FromUtf8Error> {
        string_from_nul_terminated_c_chars(buffer)
    }
}

} // verus!
