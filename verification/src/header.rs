//! The control header that every frame starts with.

use vstd::prelude::*;
use crate::layout::WireLayout;
use crate::le::{
    get_u32, le_u32, lemma_u32_placed, lemma_u32_rewritten, lemma_zero_bytes, put_u32, u32_le,
};

verus! {

/// The first eight bytes of every command and response: the identifier that
/// selects the command, and one auxiliary word. Which identifiers exist is
/// not the header's concern.
#[allow(non_camel_case_types)]
#[derive(Copy, Clone, Debug, PartialEq, Eq)]
pub struct kumquat_gpu_protocol_ctrl_hdr {
    pub type_: u32,
    pub payload: u32,
}

impl Default for kumquat_gpu_protocol_ctrl_hdr {
    fn default() -> (r: Self)
        ensures
            r == Self::zeroed(),
    {
        kumquat_gpu_protocol_ctrl_hdr {
            type_: 0,
            payload: 0,
        }
    }
}

impl WireLayout for kumquat_gpu_protocol_ctrl_hdr {
    open spec fn wire_len() -> nat {
        8
    }

    open spec fn wire(&self) -> Seq<u8> {
        u32_le(self.type_) + u32_le(self.payload)
    }

    open spec fn read(s: Seq<u8>, at: int) -> Self {
        kumquat_gpu_protocol_ctrl_hdr {
            type_: le_u32(s, at),
            payload: le_u32(s, at + 4),
        }
    }

    open spec fn zeroed() -> Self {
        kumquat_gpu_protocol_ctrl_hdr {
            type_: 0,
            payload: 0,
        }
    }

    proof fn lemma_zeroed_wire() {
        lemma_zero_bytes();
        assert(Self::zeroed().wire() =~= Seq::new(8, |i: int| 0u8));
    }

    proof fn lemma_wire_len(&self) {
    }

    proof fn lemma_placed(s: Seq<u8>, at: int, v: Self) {
        v.lemma_wire_len();
        let w = s.subrange(at, at + 8);
        assert(s.subrange(at, at + 4) =~= w.subrange(0, 4));
        assert(w.subrange(0, 4) =~= u32_le(v.type_));
        lemma_u32_placed(s, at, v.type_);
        assert(s.subrange(at + 4, at + 8) =~= w.subrange(4, 8));
        assert(w.subrange(4, 8) =~= u32_le(v.payload));
        lemma_u32_placed(s, at + 4, v.payload);
    }

    proof fn lemma_rewritten(s: Seq<u8>, at: int) {
        lemma_u32_rewritten(s, at);
        lemma_u32_rewritten(s, at + 4);
        assert(Self::read(s, at).wire() =~= s.subrange(at, at + 8));
    }

    fn size() -> (n: usize) {
        8
    }

    fn encode_into(&self, out: &mut Vec<u8>) {
        put_u32(out, self.type_);
        put_u32(out, self.payload);
        assert(out@ =~= old(out)@ + self.wire());
    }

    fn decode_at(bytes: &[u8], at: usize) -> (v: Self) {
        kumquat_gpu_protocol_ctrl_hdr {
            type_: get_u32(bytes, at),
            payload: get_u32(bytes, at + 4),
        }
    }
}

} // verus!
