//! What all fixed-size structs of the protocol have in common: a wire image
//! of known length, and the way back from bytes to the struct.

use vstd::prelude::*;
use crate::error::ProtocolError;

verus! {

/// A struct with a fixed wire image: its fields in declaration order, each
/// little-endian, with nothing between them.
pub trait WireLayout: Sized {
    /// How many bytes the wire image has.
    spec fn wire_len() -> nat;

    /// The wire image of the struct.
    spec fn wire(&self) -> Seq<u8>;

    /// The struct that the `wire_len()` bytes of `s` from index `at` on spell.
    spec fn read(s: Seq<u8>, at: int) -> Self;

    /// The struct with every field zero.
    spec fn zeroed() -> Self;

    /// Every wire image has the struct's fixed length.
    proof fn lemma_wire_len(&self)
        ensures
            self.wire().len() == Self::wire_len(),
    ;

    /// Wherever in a buffer a wire image stands, reading there gives the
    /// struct it was made from.
    proof fn lemma_placed(s: Seq<u8>, at: int, v: Self)
        requires
            0 <= at,
            at + Self::wire_len() <= s.len(),
            s.subrange(at, at + Self::wire_len()) == v.wire(),
        ensures
            Self::read(s, at) == v,
    ;

    /// Whatever `wire_len()` bytes stand in a buffer, the struct that is read
    /// there has exactly these bytes as its wire image: no byte of the image
    /// is lost on the way into the struct.
    proof fn lemma_rewritten(s: Seq<u8>, at: int)
        requires
            0 <= at,
            at + Self::wire_len() <= s.len(),
        ensures
            Self::read(s, at).wire() == s.subrange(at, at + Self::wire_len()),
    ;

    /// The zero struct is the one whose wire image is all zero bytes.
    proof fn lemma_zeroed_wire()
        ensures
            Self::zeroed().wire() == Seq::new(Self::wire_len(), |i: int| 0u8),
    ;

    /// The length of the wire image.
    fn size() -> (n: usize)
        ensures
            n == Self::wire_len(),
    ;

    /// Appends the wire image to `out`.
    fn encode_into(&self, out: &mut Vec<u8>)
        ensures
            final(out)@ == old(out)@ + self.wire(),
    ;

    /// Reads the struct whose wire image stands at index `at` of `bytes`.
    fn decode_at(bytes: &[u8], at: usize) -> (v: Self)
        requires
            at + Self::wire_len() <= bytes.len(),
        ensures
            v == Self::read(bytes@, at as int),
    ;
}

/// What decoding a struct from the start of `bytes` gives: the struct that
/// the first `wire_len()` bytes spell, or `Truncated` where there are fewer.
/// Bytes after the struct are not looked at.
pub open spec fn parse<T: WireLayout>(bytes: Seq<u8>) -> Result<T, ProtocolError> {
    if bytes.len() < T::wire_len() {
        Err(ProtocolError::Truncated)
    } else {
        Ok(T::read(bytes, 0))
    }
}

/// The wire image of `v` in a buffer of its own.
pub fn encode<T: WireLayout>(v: &T) -> (out: Vec<u8>)
    ensures
        out@ == v.wire(),
{
    let mut out: Vec<u8> = Vec::new();
    v.encode_into(&mut out);
    assert(out@ =~= v.wire());
    out
}

/// Decodes the struct that `bytes` starts with.
pub fn decode<T: WireLayout>(bytes: &[u8]) -> (r: Result<T, ProtocolError>)
    ensures
        r == parse::<T>(bytes@),
{
    if bytes.len() < T::size() {
        Err(ProtocolError::Truncated)
    } else {
        Ok(T::decode_at(bytes, 0))
    }
}

} // verus!
