//! The fixed-size structs of the commands.

use vstd::prelude::*;
use crate::header::kumquat_gpu_protocol_ctrl_hdr;
use crate::layout::WireLayout;
use crate::le::{
    get_array, get_u32, get_u64, le_array, le_u32, le_u64, lemma_array_placed,
    lemma_array_rewritten, lemma_u32_placed, lemma_u32_rewritten, lemma_u64_placed,
    lemma_u64_rewritten, lemma_zero_bytes, lemma_zeros_view, put_bytes, put_u32, put_u64, u32_le,
    u64_le, zeros,
};

verus! {

/// A rectangular region of a 3D resource: origin and extent.
#[allow(non_camel_case_types)]
#[derive(Copy, Clone, Debug, PartialEq, Eq)]
pub struct kumquat_gpu_protocol_box {
    pub x: u32,
    pub y: u32,
    pub z: u32,
    pub w: u32,
    pub h: u32,
    pub d: u32,
}

impl Default for kumquat_gpu_protocol_box {
    fn default() -> (r: Self)
        ensures
            r == Self::zeroed(),
    {
        kumquat_gpu_protocol_box {
            x: 0,
            y: 0,
            z: 0,
            w: 0,
            h: 0,
            d: 0,
        }
    }
}

impl WireLayout for kumquat_gpu_protocol_box {
    open spec fn wire_len() -> nat {
        24
    }

    open spec fn wire(&self) -> Seq<u8> {
        u32_le(self.x) + u32_le(self.y) + u32_le(self.z) + u32_le(self.w) + u32_le(self.h)
            + u32_le(self.d)
    }

    open spec fn read(s: Seq<u8>, at: int) -> Self {
        kumquat_gpu_protocol_box {
            x: le_u32(s, at),
            y: le_u32(s, at + 4),
            z: le_u32(s, at + 8),
            w: le_u32(s, at + 12),
            h: le_u32(s, at + 16),
            d: le_u32(s, at + 20),
        }
    }

    open spec fn zeroed() -> Self {
        kumquat_gpu_protocol_box {
            x: 0,
            y: 0,
            z: 0,
            w: 0,
            h: 0,
            d: 0,
        }
    }

    proof fn lemma_zeroed_wire() {
        lemma_zero_bytes();
        assert(Self::zeroed().wire() =~= Seq::new(24, |i: int| 0u8));
    }

    proof fn lemma_wire_len(&self) {
    }

    proof fn lemma_placed(s: Seq<u8>, at: int, v: Self) {
        v.lemma_wire_len();
        let w = s.subrange(at, at + 24);
        assert(s.subrange(at, at + 4) =~= w.subrange(0, 4));
        assert(w.subrange(0, 4) =~= u32_le(v.x));
        lemma_u32_placed(s, at, v.x);
        assert(s.subrange(at + 4, at + 8) =~= w.subrange(4, 8));
        assert(w.subrange(4, 8) =~= u32_le(v.y));
        lemma_u32_placed(s, at + 4, v.y);
        assert(s.subrange(at + 8, at + 12) =~= w.subrange(8, 12));
        assert(w.subrange(8, 12) =~= u32_le(v.z));
        lemma_u32_placed(s, at + 8, v.z);
        assert(s.subrange(at + 12, at + 16) =~= w.subrange(12, 16));
        assert(w.subrange(12, 16) =~= u32_le(v.w));
        lemma_u32_placed(s, at + 12, v.w);
        assert(s.subrange(at + 16, at + 20) =~= w.subrange(16, 20));
        assert(w.subrange(16, 20) =~= u32_le(v.h));
        lemma_u32_placed(s, at + 16, v.h);
        assert(s.subrange(at + 20, at + 24) =~= w.subrange(20, 24));
        assert(w.subrange(20, 24) =~= u32_le(v.d));
        lemma_u32_placed(s, at + 20, v.d);
    }

    proof fn lemma_rewritten(s: Seq<u8>, at: int) {
        lemma_u32_rewritten(s, at);
        lemma_u32_rewritten(s, at + 4);
        lemma_u32_rewritten(s, at + 8);
        lemma_u32_rewritten(s, at + 12);
        lemma_u32_rewritten(s, at + 16);
        lemma_u32_rewritten(s, at + 20);
        assert(Self::read(s, at).wire() =~= s.subrange(at, at + 24));
    }

    fn size() -> (n: usize) {
        24
    }

    fn encode_into(&self, out: &mut Vec<u8>) {
        put_u32(out, self.x);
        put_u32(out, self.y);
        put_u32(out, self.z);
        put_u32(out, self.w);
        put_u32(out, self.h);
        put_u32(out, self.d);
        assert(out@ =~= old(out)@ + self.wire());
    }

    fn decode_at(bytes: &[u8], at: usize) -> (v: Self) {
        kumquat_gpu_protocol_box {
            x: get_u32(bytes, at),
            y: get_u32(bytes, at + 4),
            z: get_u32(bytes, at + 8),
            w: get_u32(bytes, at + 12),
            h: get_u32(bytes, at + 16),
            d: get_u32(bytes, at + 20),
        }
    }
}

/// A transfer between a resource and host memory, in either direction.
#[allow(non_camel_case_types)]
#[derive(Copy, Clone, Debug, PartialEq, Eq)]
pub struct kumquat_gpu_protocol_transfer_host_3d {
    pub hdr: kumquat_gpu_protocol_ctrl_hdr,
    pub box_: kumquat_gpu_protocol_box,
    pub offset: u64,
    pub level: u32,
    pub stride: u32,
    pub layer_stride: u32,
    pub ctx_id: u32,
    pub resource_id: u32,
    pub padding: u32,
}

impl Default for kumquat_gpu_protocol_transfer_host_3d {
    fn default() -> (r: Self)
        ensures
            r == Self::zeroed(),
    {
        kumquat_gpu_protocol_transfer_host_3d {
            hdr: kumquat_gpu_protocol_ctrl_hdr::default(),
            box_: kumquat_gpu_protocol_box::default(),
            offset: 0,
            level: 0,
            stride: 0,
            layer_stride: 0,
            ctx_id: 0,
            resource_id: 0,
            padding: 0,
        }
    }
}

impl WireLayout for kumquat_gpu_protocol_transfer_host_3d {
    open spec fn wire_len() -> nat {
        64
    }

    open spec fn wire(&self) -> Seq<u8> {
        self.hdr.wire() + self.box_.wire() + u64_le(self.offset) + u32_le(self.level)
            + u32_le(self.stride) + u32_le(self.layer_stride) + u32_le(self.ctx_id)
            + u32_le(self.resource_id) + u32_le(self.padding)
    }

    open spec fn read(s: Seq<u8>, at: int) -> Self {
        kumquat_gpu_protocol_transfer_host_3d {
            hdr: kumquat_gpu_protocol_ctrl_hdr::read(s, at),
            box_: kumquat_gpu_protocol_box::read(s, at + 8),
            offset: le_u64(s, at + 32),
            level: le_u32(s, at + 40),
            stride: le_u32(s, at + 44),
            layer_stride: le_u32(s, at + 48),
            ctx_id: le_u32(s, at + 52),
            resource_id: le_u32(s, at + 56),
            padding: le_u32(s, at + 60),
        }
    }

    open spec fn zeroed() -> Self {
        kumquat_gpu_protocol_transfer_host_3d {
            hdr: kumquat_gpu_protocol_ctrl_hdr::zeroed(),
            box_: kumquat_gpu_protocol_box::zeroed(),
            offset: 0,
            level: 0,
            stride: 0,
            layer_stride: 0,
            ctx_id: 0,
            resource_id: 0,
            padding: 0,
        }
    }

    proof fn lemma_zeroed_wire() {
        lemma_zero_bytes();
        kumquat_gpu_protocol_ctrl_hdr::lemma_zeroed_wire();
        kumquat_gpu_protocol_box::lemma_zeroed_wire();
        assert(Self::zeroed().wire() =~= Seq::new(64, |i: int| 0u8));
    }

    proof fn lemma_wire_len(&self) {
        self.hdr.lemma_wire_len();
        self.box_.lemma_wire_len();
    }

    proof fn lemma_placed(s: Seq<u8>, at: int, v: Self) {
        v.lemma_wire_len();
        let w = s.subrange(at, at + 64);
        v.hdr.lemma_wire_len();
        assert(s.subrange(at, at + 8) =~= w.subrange(0, 8));
        assert(w.subrange(0, 8) =~= v.hdr.wire());
        kumquat_gpu_protocol_ctrl_hdr::lemma_placed(s, at, v.hdr);
        v.box_.lemma_wire_len();
        assert(s.subrange(at + 8, at + 32) =~= w.subrange(8, 32));
        assert(w.subrange(8, 32) =~= v.box_.wire());
        kumquat_gpu_protocol_box::lemma_placed(s, at + 8, v.box_);
        assert(s.subrange(at + 32, at + 40) =~= w.subrange(32, 40));
        assert(w.subrange(32, 40) =~= u64_le(v.offset));
        lemma_u64_placed(s, at + 32, v.offset);
        assert(s.subrange(at + 40, at + 44) =~= w.subrange(40, 44));
        assert(w.subrange(40, 44) =~= u32_le(v.level));
        lemma_u32_placed(s, at + 40, v.level);
        assert(s.subrange(at + 44, at + 48) =~= w.subrange(44, 48));
        assert(w.subrange(44, 48) =~= u32_le(v.stride));
        lemma_u32_placed(s, at + 44, v.stride);
        assert(s.subrange(at + 48, at + 52) =~= w.subrange(48, 52));
        assert(w.subrange(48, 52) =~= u32_le(v.layer_stride));
        lemma_u32_placed(s, at + 48, v.layer_stride);
        assert(s.subrange(at + 52, at + 56) =~= w.subrange(52, 56));
        assert(w.subrange(52, 56) =~= u32_le(v.ctx_id));
        lemma_u32_placed(s, at + 52, v.ctx_id);
        assert(s.subrange(at + 56, at + 60) =~= w.subrange(56, 60));
        assert(w.subrange(56, 60) =~= u32_le(v.resource_id));
        lemma_u32_placed(s, at + 56, v.resource_id);
        assert(s.subrange(at + 60, at + 64) =~= w.subrange(60, 64));
        assert(w.subrange(60, 64) =~= u32_le(v.padding));
        lemma_u32_placed(s, at + 60, v.padding);
    }

    proof fn lemma_rewritten(s: Seq<u8>, at: int) {
        kumquat_gpu_protocol_ctrl_hdr::lemma_rewritten(s, at);
        kumquat_gpu_protocol_box::lemma_rewritten(s, at + 8);
        lemma_u64_rewritten(s, at + 32);
        lemma_u32_rewritten(s, at + 40);
        lemma_u32_rewritten(s, at + 44);
        lemma_u32_rewritten(s, at + 48);
        lemma_u32_rewritten(s, at + 52);
        lemma_u32_rewritten(s, at + 56);
        lemma_u32_rewritten(s, at + 60);
        assert(Self::read(s, at).wire() =~= s.subrange(at, at + 64));
    }

    fn size() -> (n: usize) {
        64
    }

    fn encode_into(&self, out: &mut Vec<u8>) {
        self.hdr.encode_into(out);
        self.box_.encode_into(out);
        put_u64(out, self.offset);
        put_u32(out, self.level);
        put_u32(out, self.stride);
        put_u32(out, self.layer_stride);
        put_u32(out, self.ctx_id);
        put_u32(out, self.resource_id);
        put_u32(out, self.padding);
        assert(out@ =~= old(out)@ + self.wire());
    }

    fn decode_at(bytes: &[u8], at: usize) -> (v: Self) {
        kumquat_gpu_protocol_transfer_host_3d {
            hdr: kumquat_gpu_protocol_ctrl_hdr::decode_at(bytes, at),
            box_: kumquat_gpu_protocol_box::decode_at(bytes, at + 8),
            offset: get_u64(bytes, at + 32),
            level: get_u32(bytes, at + 40),
            stride: get_u32(bytes, at + 44),
            layer_stride: get_u32(bytes, at + 48),
            ctx_id: get_u32(bytes, at + 52),
            resource_id: get_u32(bytes, at + 56),
            padding: get_u32(bytes, at + 60),
        }
    }
}

/// Creation of a 3D resource.
#[allow(non_camel_case_types)]
#[derive(Copy, Clone, Debug, PartialEq, Eq)]
pub struct kumquat_gpu_protocol_resource_create_3d {
    pub hdr: kumquat_gpu_protocol_ctrl_hdr,
    pub target: u32,
    pub format: u32,
    pub bind: u32,
    pub width: u32,
    pub height: u32,
    pub depth: u32,
    pub array_size: u32,
    pub last_level: u32,
    pub nr_samples: u32,
    pub flags: u32,
    pub size: u32,
    pub stride: u32,
    pub ctx_id: u32,
}

impl Default for kumquat_gpu_protocol_resource_create_3d {
    fn default() -> (r: Self)
        ensures
            r == Self::zeroed(),
    {
        kumquat_gpu_protocol_resource_create_3d {
            hdr: kumquat_gpu_protocol_ctrl_hdr::default(),
            target: 0,
            format: 0,
            bind: 0,
            width: 0,
            height: 0,
            depth: 0,
            array_size: 0,
            last_level: 0,
            nr_samples: 0,
            flags: 0,
            size: 0,
            stride: 0,
            ctx_id: 0,
        }
    }
}

impl WireLayout for kumquat_gpu_protocol_resource_create_3d {
    open spec fn wire_len() -> nat {
        60
    }

    open spec fn wire(&self) -> Seq<u8> {
        self.hdr.wire() + u32_le(self.target) + u32_le(self.format) + u32_le(self.bind)
            + u32_le(self.width) + u32_le(self.height) + u32_le(self.depth)
            + u32_le(self.array_size) + u32_le(self.last_level) + u32_le(self.nr_samples)
            + u32_le(self.flags) + u32_le(self.size) + u32_le(self.stride) + u32_le(self.ctx_id)
    }

    open spec fn read(s: Seq<u8>, at: int) -> Self {
        kumquat_gpu_protocol_resource_create_3d {
            hdr: kumquat_gpu_protocol_ctrl_hdr::read(s, at),
            target: le_u32(s, at + 8),
            format: le_u32(s, at + 12),
            bind: le_u32(s, at + 16),
            width: le_u32(s, at + 20),
            height: le_u32(s, at + 24),
            depth: le_u32(s, at + 28),
            array_size: le_u32(s, at + 32),
            last_level: le_u32(s, at + 36),
            nr_samples: le_u32(s, at + 40),
            flags: le_u32(s, at + 44),
            size: le_u32(s, at + 48),
            stride: le_u32(s, at + 52),
            ctx_id: le_u32(s, at + 56),
        }
    }

    open spec fn zeroed() -> Self {
        kumquat_gpu_protocol_resource_create_3d {
            hdr: kumquat_gpu_protocol_ctrl_hdr::zeroed(),
            target: 0,
            format: 0,
            bind: 0,
            width: 0,
            height: 0,
            depth: 0,
            array_size: 0,
            last_level: 0,
            nr_samples: 0,
            flags: 0,
            size: 0,
            stride: 0,
            ctx_id: 0,
        }
    }

    proof fn lemma_zeroed_wire() {
        lemma_zero_bytes();
        kumquat_gpu_protocol_ctrl_hdr::lemma_zeroed_wire();
        assert(Self::zeroed().wire() =~= Seq::new(60, |i: int| 0u8));
    }

    proof fn lemma_wire_len(&self) {
        self.hdr.lemma_wire_len();
    }

    proof fn lemma_placed(s: Seq<u8>, at: int, v: Self) {
        v.lemma_wire_len();
        let w = s.subrange(at, at + 60);
        v.hdr.lemma_wire_len();
        assert(s.subrange(at, at + 8) =~= w.subrange(0, 8));
        assert(w.subrange(0, 8) =~= v.hdr.wire());
        kumquat_gpu_protocol_ctrl_hdr::lemma_placed(s, at, v.hdr);
        assert(s.subrange(at + 8, at + 12) =~= w.subrange(8, 12));
        assert(w.subrange(8, 12) =~= u32_le(v.target));
        lemma_u32_placed(s, at + 8, v.target);
        assert(s.subrange(at + 12, at + 16) =~= w.subrange(12, 16));
        assert(w.subrange(12, 16) =~= u32_le(v.format));
        lemma_u32_placed(s, at + 12, v.format);
        assert(s.subrange(at + 16, at + 20) =~= w.subrange(16, 20));
        assert(w.subrange(16, 20) =~= u32_le(v.bind));
        lemma_u32_placed(s, at + 16, v.bind);
        assert(s.subrange(at + 20, at + 24) =~= w.subrange(20, 24));
        assert(w.subrange(20, 24) =~= u32_le(v.width));
        lemma_u32_placed(s, at + 20, v.width);
        assert(s.subrange(at + 24, at + 28) =~= w.subrange(24, 28));
        assert(w.subrange(24, 28) =~= u32_le(v.height));
        lemma_u32_placed(s, at + 24, v.height);
        assert(s.subrange(at + 28, at + 32) =~= w.subrange(28, 32));
        assert(w.subrange(28, 32) =~= u32_le(v.depth));
        lemma_u32_placed(s, at + 28, v.depth);
        assert(s.subrange(at + 32, at + 36) =~= w.subrange(32, 36));
        assert(w.subrange(32, 36) =~= u32_le(v.array_size));
        lemma_u32_placed(s, at + 32, v.array_size);
        assert(s.subrange(at + 36, at + 40) =~= w.subrange(36, 40));
        assert(w.subrange(36, 40) =~= u32_le(v.last_level));
        lemma_u32_placed(s, at + 36, v.last_level);
        assert(s.subrange(at + 40, at + 44) =~= w.subrange(40, 44));
        assert(w.subrange(40, 44) =~= u32_le(v.nr_samples));
        lemma_u32_placed(s, at + 40, v.nr_samples);
        assert(s.subrange(at + 44, at + 48) =~= w.subrange(44, 48));
        assert(w.subrange(44, 48) =~= u32_le(v.flags));
        lemma_u32_placed(s, at + 44, v.flags);
        assert(s.subrange(at + 48, at + 52) =~= w.subrange(48, 52));
        assert(w.subrange(48, 52) =~= u32_le(v.size));
        lemma_u32_placed(s, at + 48, v.size);
        assert(s.subrange(at + 52, at + 56) =~= w.subrange(52, 56));
        assert(w.subrange(52, 56) =~= u32_le(v.stride));
        lemma_u32_placed(s, at + 52, v.stride);
        assert(s.subrange(at + 56, at + 60) =~= w.subrange(56, 60));
        assert(w.subrange(56, 60) =~= u32_le(v.ctx_id));
        lemma_u32_placed(s, at + 56, v.ctx_id);
    }

    proof fn lemma_rewritten(s: Seq<u8>, at: int) {
        kumquat_gpu_protocol_ctrl_hdr::lemma_rewritten(s, at);
        lemma_u32_rewritten(s, at + 8);
        lemma_u32_rewritten(s, at + 12);
        lemma_u32_rewritten(s, at + 16);
        lemma_u32_rewritten(s, at + 20);
        lemma_u32_rewritten(s, at + 24);
        lemma_u32_rewritten(s, at + 28);
        lemma_u32_rewritten(s, at + 32);
        lemma_u32_rewritten(s, at + 36);
        lemma_u32_rewritten(s, at + 40);
        lemma_u32_rewritten(s, at + 44);
        lemma_u32_rewritten(s, at + 48);
        lemma_u32_rewritten(s, at + 52);
        lemma_u32_rewritten(s, at + 56);
        assert(Self::read(s, at).wire() =~= s.subrange(at, at + 60));
    }

    fn size() -> (n: usize) {
        60
    }

    fn encode_into(&self, out: &mut Vec<u8>) {
        self.hdr.encode_into(out);
        put_u32(out, self.target);
        put_u32(out, self.format);
        put_u32(out, self.bind);
        put_u32(out, self.width);
        put_u32(out, self.height);
        put_u32(out, self.depth);
        put_u32(out, self.array_size);
        put_u32(out, self.last_level);
        put_u32(out, self.nr_samples);
        put_u32(out, self.flags);
        put_u32(out, self.size);
        put_u32(out, self.stride);
        put_u32(out, self.ctx_id);
        assert(out@ =~= old(out)@ + self.wire());
    }

    fn decode_at(bytes: &[u8], at: usize) -> (v: Self) {
        kumquat_gpu_protocol_resource_create_3d {
            hdr: kumquat_gpu_protocol_ctrl_hdr::decode_at(bytes, at),
            target: get_u32(bytes, at + 8),
            format: get_u32(bytes, at + 12),
            bind: get_u32(bytes, at + 16),
            width: get_u32(bytes, at + 20),
            height: get_u32(bytes, at + 24),
            depth: get_u32(bytes, at + 28),
            array_size: get_u32(bytes, at + 32),
            last_level: get_u32(bytes, at + 36),
            nr_samples: get_u32(bytes, at + 40),
            flags: get_u32(bytes, at + 44),
            size: get_u32(bytes, at + 48),
            stride: get_u32(bytes, at + 52),
            ctx_id: get_u32(bytes, at + 56),
        }
    }
}

/// Creation of a context. `nlen` says how many bytes of `debug_name` are the
/// name; the buffer need not end in a zero byte.
#[allow(non_camel_case_types)]
#[derive(Copy, Clone, Debug, PartialEq, Eq)]
pub struct kumquat_gpu_protocol_ctx_create {
    pub hdr: kumquat_gpu_protocol_ctrl_hdr,
    pub nlen: u32,
    pub context_init: u32,
    pub debug_name: [u8; 64],
}

impl Default for kumquat_gpu_protocol_ctx_create {
    fn default() -> (r: Self)
        ensures
            r == Self::zeroed(),
    {
        kumquat_gpu_protocol_ctx_create {
            hdr: kumquat_gpu_protocol_ctrl_hdr::default(),
            nlen: 0,
            context_init: 0,
            debug_name: [0u8; 64],
        }
    }
}

impl WireLayout for kumquat_gpu_protocol_ctx_create {
    open spec fn wire_len() -> nat {
        80
    }

    open spec fn wire(&self) -> Seq<u8> {
        self.hdr.wire() + u32_le(self.nlen) + u32_le(self.context_init) + self.debug_name@
    }

    open spec fn read(s: Seq<u8>, at: int) -> Self {
        kumquat_gpu_protocol_ctx_create {
            hdr: kumquat_gpu_protocol_ctrl_hdr::read(s, at),
            nlen: le_u32(s, at + 8),
            context_init: le_u32(s, at + 12),
            debug_name: le_array(s, at + 16),
        }
    }

    open spec fn zeroed() -> Self {
        kumquat_gpu_protocol_ctx_create {
            hdr: kumquat_gpu_protocol_ctrl_hdr::zeroed(),
            nlen: 0,
            context_init: 0,
            debug_name: zeros(),
        }
    }

    proof fn lemma_zeroed_wire() {
        lemma_zero_bytes();
        kumquat_gpu_protocol_ctrl_hdr::lemma_zeroed_wire();
        lemma_zeros_view::<64>();
        assert(Self::zeroed().wire() =~= Seq::new(80, |i: int| 0u8));
    }

    proof fn lemma_wire_len(&self) {
        self.hdr.lemma_wire_len();
    }

    proof fn lemma_placed(s: Seq<u8>, at: int, v: Self) {
        v.lemma_wire_len();
        let w = s.subrange(at, at + 80);
        v.hdr.lemma_wire_len();
        assert(s.subrange(at, at + 8) =~= w.subrange(0, 8));
        assert(w.subrange(0, 8) =~= v.hdr.wire());
        kumquat_gpu_protocol_ctrl_hdr::lemma_placed(s, at, v.hdr);
        assert(s.subrange(at + 8, at + 12) =~= w.subrange(8, 12));
        assert(w.subrange(8, 12) =~= u32_le(v.nlen));
        lemma_u32_placed(s, at + 8, v.nlen);
        assert(s.subrange(at + 12, at + 16) =~= w.subrange(12, 16));
        assert(w.subrange(12, 16) =~= u32_le(v.context_init));
        lemma_u32_placed(s, at + 12, v.context_init);
        assert(s.subrange(at + 16, at + 80) =~= w.subrange(16, 80));
        assert(w.subrange(16, 80) =~= v.debug_name@);
        lemma_array_placed(s, at + 16, v.debug_name);
    }

    proof fn lemma_rewritten(s: Seq<u8>, at: int) {
        kumquat_gpu_protocol_ctrl_hdr::lemma_rewritten(s, at);
        lemma_u32_rewritten(s, at + 8);
        lemma_u32_rewritten(s, at + 12);
        lemma_array_rewritten::<64>(s, at + 16);
        assert(Self::read(s, at).wire() =~= s.subrange(at, at + 80));
    }

    fn size() -> (n: usize) {
        80
    }

    fn encode_into(&self, out: &mut Vec<u8>) {
        self.hdr.encode_into(out);
        put_u32(out, self.nlen);
        put_u32(out, self.context_init);
        put_bytes(out, self.debug_name.as_slice());
        assert(out@ =~= old(out)@ + self.wire());
    }

    fn decode_at(bytes: &[u8], at: usize) -> (v: Self) {
        kumquat_gpu_protocol_ctx_create {
            hdr: kumquat_gpu_protocol_ctrl_hdr::decode_at(bytes, at),
            nlen: get_u32(bytes, at + 8),
            context_init: get_u32(bytes, at + 12),
            debug_name: get_array(bytes, at + 16),
        }
    }
}

/// Attaching a resource to a context, or detaching it.
#[allow(non_camel_case_types)]
#[derive(Copy, Clone, Debug, PartialEq, Eq)]
pub struct kumquat_gpu_protocol_ctx_resource {
    pub hdr: kumquat_gpu_protocol_ctrl_hdr,
    pub ctx_id: u32,
    pub resource_id: u32,
}

impl Default for kumquat_gpu_protocol_ctx_resource {
    fn default() -> (r: Self)
        ensures
            r == Self::zeroed(),
    {
        kumquat_gpu_protocol_ctx_resource {
            hdr: kumquat_gpu_protocol_ctrl_hdr::default(),
            ctx_id: 0,
            resource_id: 0,
        }
    }
}

impl WireLayout for kumquat_gpu_protocol_ctx_resource {
    open spec fn wire_len() -> nat {
        16
    }

    open spec fn wire(&self) -> Seq<u8> {
        self.hdr.wire() + u32_le(self.ctx_id) + u32_le(self.resource_id)
    }

    open spec fn read(s: Seq<u8>, at: int) -> Self {
        kumquat_gpu_protocol_ctx_resource {
            hdr: kumquat_gpu_protocol_ctrl_hdr::read(s, at),
            ctx_id: le_u32(s, at + 8),
            resource_id: le_u32(s, at + 12),
        }
    }

    open spec fn zeroed() -> Self {
        kumquat_gpu_protocol_ctx_resource {
            hdr: kumquat_gpu_protocol_ctrl_hdr::zeroed(),
            ctx_id: 0,
            resource_id: 0,
        }
    }

    proof fn lemma_zeroed_wire() {
        lemma_zero_bytes();
        kumquat_gpu_protocol_ctrl_hdr::lemma_zeroed_wire();
        assert(Self::zeroed().wire() =~= Seq::new(16, |i: int| 0u8));
    }

    proof fn lemma_wire_len(&self) {
        self.hdr.lemma_wire_len();
    }

    proof fn lemma_placed(s: Seq<u8>, at: int, v: Self) {
        v.lemma_wire_len();
        let w = s.subrange(at, at + 16);
        v.hdr.lemma_wire_len();
        assert(s.subrange(at, at + 8) =~= w.subrange(0, 8));
        assert(w.subrange(0, 8) =~= v.hdr.wire());
        kumquat_gpu_protocol_ctrl_hdr::lemma_placed(s, at, v.hdr);
        assert(s.subrange(at + 8, at + 12) =~= w.subrange(8, 12));
        assert(w.subrange(8, 12) =~= u32_le(v.ctx_id));
        lemma_u32_placed(s, at + 8, v.ctx_id);
        assert(s.subrange(at + 12, at + 16) =~= w.subrange(12, 16));
        assert(w.subrange(12, 16) =~= u32_le(v.resource_id));
        lemma_u32_placed(s, at + 12, v.resource_id);
    }

    proof fn lemma_rewritten(s: Seq<u8>, at: int) {
        kumquat_gpu_protocol_ctrl_hdr::lemma_rewritten(s, at);
        lemma_u32_rewritten(s, at + 8);
        lemma_u32_rewritten(s, at + 12);
        assert(Self::read(s, at).wire() =~= s.subrange(at, at + 16));
    }

    fn size() -> (n: usize) {
        16
    }

    fn encode_into(&self, out: &mut Vec<u8>) {
        self.hdr.encode_into(out);
        put_u32(out, self.ctx_id);
        put_u32(out, self.resource_id);
        assert(out@ =~= old(out)@ + self.wire());
    }

    fn decode_at(bytes: &[u8], at: usize) -> (v: Self) {
        kumquat_gpu_protocol_ctx_resource {
            hdr: kumquat_gpu_protocol_ctrl_hdr::decode_at(bytes, at),
            ctx_id: get_u32(bytes, at + 8),
            resource_id: get_u32(bytes, at + 12),
        }
    }
}

/// Submission of a command buffer. After the struct come `num_in_fences`
/// fence ids of eight bytes each, then `size` bytes of commands: the fence
/// ids first, so that they stay aligned to eight bytes in the frame.
#[allow(non_camel_case_types)]
#[derive(Copy, Clone, Debug, PartialEq, Eq)]
pub struct kumquat_gpu_protocol_cmd_submit {
    pub hdr: kumquat_gpu_protocol_ctrl_hdr,
    pub ctx_id: u32,
    pub pad: u32,
    pub size: u32,
    pub num_in_fences: u32,
    pub flags: u32,
    pub ring_idx: u8,
    pub padding: [u8; 3],
}

impl Default for kumquat_gpu_protocol_cmd_submit {
    fn default() -> (r: Self)
        ensures
            r == Self::zeroed(),
    {
        kumquat_gpu_protocol_cmd_submit {
            hdr: kumquat_gpu_protocol_ctrl_hdr::default(),
            ctx_id: 0,
            pad: 0,
            size: 0,
            num_in_fences: 0,
            flags: 0,
            ring_idx: 0,
            padding: [0u8; 3],
        }
    }
}

impl WireLayout for kumquat_gpu_protocol_cmd_submit {
    open spec fn wire_len() -> nat {
        32
    }

    open spec fn wire(&self) -> Seq<u8> {
        self.hdr.wire() + u32_le(self.ctx_id) + u32_le(self.pad) + u32_le(self.size)
            + u32_le(self.num_in_fences) + u32_le(self.flags) + seq![self.ring_idx] + self.padding@
    }

    open spec fn read(s: Seq<u8>, at: int) -> Self {
        kumquat_gpu_protocol_cmd_submit {
            hdr: kumquat_gpu_protocol_ctrl_hdr::read(s, at),
            ctx_id: le_u32(s, at + 8),
            pad: le_u32(s, at + 12),
            size: le_u32(s, at + 16),
            num_in_fences: le_u32(s, at + 20),
            flags: le_u32(s, at + 24),
            ring_idx: s[at + 28],
            padding: le_array(s, at + 29),
        }
    }

    open spec fn zeroed() -> Self {
        kumquat_gpu_protocol_cmd_submit {
            hdr: kumquat_gpu_protocol_ctrl_hdr::zeroed(),
            ctx_id: 0,
            pad: 0,
            size: 0,
            num_in_fences: 0,
            flags: 0,
            ring_idx: 0,
            padding: zeros(),
        }
    }

    proof fn lemma_zeroed_wire() {
        lemma_zero_bytes();
        kumquat_gpu_protocol_ctrl_hdr::lemma_zeroed_wire();
        lemma_zeros_view::<3>();
        assert(Self::zeroed().wire() =~= Seq::new(32, |i: int| 0u8));
    }

    proof fn lemma_wire_len(&self) {
        self.hdr.lemma_wire_len();
    }

    proof fn lemma_placed(s: Seq<u8>, at: int, v: Self) {
        v.lemma_wire_len();
        let w = s.subrange(at, at + 32);
        v.hdr.lemma_wire_len();
        assert(s.subrange(at, at + 8) =~= w.subrange(0, 8));
        assert(w.subrange(0, 8) =~= v.hdr.wire());
        kumquat_gpu_protocol_ctrl_hdr::lemma_placed(s, at, v.hdr);
        assert(s.subrange(at + 8, at + 12) =~= w.subrange(8, 12));
        assert(w.subrange(8, 12) =~= u32_le(v.ctx_id));
        lemma_u32_placed(s, at + 8, v.ctx_id);
        assert(s.subrange(at + 12, at + 16) =~= w.subrange(12, 16));
        assert(w.subrange(12, 16) =~= u32_le(v.pad));
        lemma_u32_placed(s, at + 12, v.pad);
        assert(s.subrange(at + 16, at + 20) =~= w.subrange(16, 20));
        assert(w.subrange(16, 20) =~= u32_le(v.size));
        lemma_u32_placed(s, at + 16, v.size);
        assert(s.subrange(at + 20, at + 24) =~= w.subrange(20, 24));
        assert(w.subrange(20, 24) =~= u32_le(v.num_in_fences));
        lemma_u32_placed(s, at + 20, v.num_in_fences);
        assert(s.subrange(at + 24, at + 28) =~= w.subrange(24, 28));
        assert(w.subrange(24, 28) =~= u32_le(v.flags));
        lemma_u32_placed(s, at + 24, v.flags);
        assert(s[at + 28] == w[28]);
        assert(s.subrange(at + 29, at + 32) =~= w.subrange(29, 32));
        assert(w.subrange(29, 32) =~= v.padding@);
        lemma_array_placed(s, at + 29, v.padding);
    }

    proof fn lemma_rewritten(s: Seq<u8>, at: int) {
        kumquat_gpu_protocol_ctrl_hdr::lemma_rewritten(s, at);
        lemma_u32_rewritten(s, at + 8);
        lemma_u32_rewritten(s, at + 12);
        lemma_u32_rewritten(s, at + 16);
        lemma_u32_rewritten(s, at + 20);
        lemma_u32_rewritten(s, at + 24);
        lemma_array_rewritten::<3>(s, at + 29);
        assert(Self::read(s, at).wire() =~= s.subrange(at, at + 32));
    }

    fn size() -> (n: usize) {
        32
    }

    fn encode_into(&self, out: &mut Vec<u8>) {
        self.hdr.encode_into(out);
        put_u32(out, self.ctx_id);
        put_u32(out, self.pad);
        put_u32(out, self.size);
        put_u32(out, self.num_in_fences);
        put_u32(out, self.flags);
        out.push(self.ring_idx);
        put_bytes(out, self.padding.as_slice());
        assert(out@ =~= old(out)@ + self.wire());
    }

    fn decode_at(bytes: &[u8], at: usize) -> (v: Self) {
        kumquat_gpu_protocol_cmd_submit {
            hdr: kumquat_gpu_protocol_ctrl_hdr::decode_at(bytes, at),
            ctx_id: get_u32(bytes, at + 8),
            pad: get_u32(bytes, at + 12),
            size: get_u32(bytes, at + 16),
            num_in_fences: get_u32(bytes, at + 20),
            flags: get_u32(bytes, at + 24),
            ring_idx: bytes[at + 28],
            padding: get_array(bytes, at + 29),
        }
    }
}

/// Request for the contents of one capability set.
#[allow(non_camel_case_types)]
#[derive(Copy, Clone, Debug, PartialEq, Eq)]
pub struct kumquat_gpu_protocol_get_capset {
    pub hdr: kumquat_gpu_protocol_ctrl_hdr,
    pub capset_id: u32,
    pub capset_version: u32,
}

impl Default for kumquat_gpu_protocol_get_capset {
    fn default() -> (r: Self)
        ensures
            r == Self::zeroed(),
    {
        kumquat_gpu_protocol_get_capset {
            hdr: kumquat_gpu_protocol_ctrl_hdr::default(),
            capset_id: 0,
            capset_version: 0,
        }
    }
}

impl WireLayout for kumquat_gpu_protocol_get_capset {
    open spec fn wire_len() -> nat {
        16
    }

    open spec fn wire(&self) -> Seq<u8> {
        self.hdr.wire() + u32_le(self.capset_id) + u32_le(self.capset_version)
    }

    open spec fn read(s: Seq<u8>, at: int) -> Self {
        kumquat_gpu_protocol_get_capset {
            hdr: kumquat_gpu_protocol_ctrl_hdr::read(s, at),
            capset_id: le_u32(s, at + 8),
            capset_version: le_u32(s, at + 12),
        }
    }

    open spec fn zeroed() -> Self {
        kumquat_gpu_protocol_get_capset {
            hdr: kumquat_gpu_protocol_ctrl_hdr::zeroed(),
            capset_id: 0,
            capset_version: 0,
        }
    }

    proof fn lemma_zeroed_wire() {
        lemma_zero_bytes();
        kumquat_gpu_protocol_ctrl_hdr::lemma_zeroed_wire();
        assert(Self::zeroed().wire() =~= Seq::new(16, |i: int| 0u8));
    }

    proof fn lemma_wire_len(&self) {
        self.hdr.lemma_wire_len();
    }

    proof fn lemma_placed(s: Seq<u8>, at: int, v: Self) {
        v.lemma_wire_len();
        let w = s.subrange(at, at + 16);
        v.hdr.lemma_wire_len();
        assert(s.subrange(at, at + 8) =~= w.subrange(0, 8));
        assert(w.subrange(0, 8) =~= v.hdr.wire());
        kumquat_gpu_protocol_ctrl_hdr::lemma_placed(s, at, v.hdr);
        assert(s.subrange(at + 8, at + 12) =~= w.subrange(8, 12));
        assert(w.subrange(8, 12) =~= u32_le(v.capset_id));
        lemma_u32_placed(s, at + 8, v.capset_id);
        assert(s.subrange(at + 12, at + 16) =~= w.subrange(12, 16));
        assert(w.subrange(12, 16) =~= u32_le(v.capset_version));
        lemma_u32_placed(s, at + 12, v.capset_version);
    }

    proof fn lemma_rewritten(s: Seq<u8>, at: int) {
        kumquat_gpu_protocol_ctrl_hdr::lemma_rewritten(s, at);
        lemma_u32_rewritten(s, at + 8);
        lemma_u32_rewritten(s, at + 12);
        assert(Self::read(s, at).wire() =~= s.subrange(at, at + 16));
    }

    fn size() -> (n: usize) {
        16
    }

    fn encode_into(&self, out: &mut Vec<u8>) {
        self.hdr.encode_into(out);
        put_u32(out, self.capset_id);
        put_u32(out, self.capset_version);
        assert(out@ =~= old(out)@ + self.wire());
    }

    fn decode_at(bytes: &[u8], at: usize) -> (v: Self) {
        kumquat_gpu_protocol_get_capset {
            hdr: kumquat_gpu_protocol_ctrl_hdr::decode_at(bytes, at),
            capset_id: get_u32(bytes, at + 8),
            capset_version: get_u32(bytes, at + 12),
        }
    }
}

/// Creation of a blob resource.
#[allow(non_camel_case_types)]
#[derive(Copy, Clone, Debug, PartialEq, Eq)]
pub struct kumquat_gpu_protocol_resource_create_blob {
    pub hdr: kumquat_gpu_protocol_ctrl_hdr,
    pub ctx_id: u32,
    pub blob_mem: u32,
    pub blob_flags: u32,
    pub padding: u32,
    pub blob_id: u64,
    pub size: u64,
}

impl Default for kumquat_gpu_protocol_resource_create_blob {
    fn default() -> (r: Self)
        ensures
            r == Self::zeroed(),
    {
        kumquat_gpu_protocol_resource_create_blob {
            hdr: kumquat_gpu_protocol_ctrl_hdr::default(),
            ctx_id: 0,
            blob_mem: 0,
            blob_flags: 0,
            padding: 0,
            blob_id: 0,
            size: 0,
        }
    }
}

impl WireLayout for kumquat_gpu_protocol_resource_create_blob {
    open spec fn wire_len() -> nat {
        40
    }

    open spec fn wire(&self) -> Seq<u8> {
        self.hdr.wire() + u32_le(self.ctx_id) + u32_le(self.blob_mem) + u32_le(self.blob_flags)
            + u32_le(self.padding) + u64_le(self.blob_id) + u64_le(self.size)
    }

    open spec fn read(s: Seq<u8>, at: int) -> Self {
        kumquat_gpu_protocol_resource_create_blob {
            hdr: kumquat_gpu_protocol_ctrl_hdr::read(s, at),
            ctx_id: le_u32(s, at + 8),
            blob_mem: le_u32(s, at + 12),
            blob_flags: le_u32(s, at + 16),
            padding: le_u32(s, at + 20),
            blob_id: le_u64(s, at + 24),
            size: le_u64(s, at + 32),
        }
    }

    open spec fn zeroed() -> Self {
        kumquat_gpu_protocol_resource_create_blob {
            hdr: kumquat_gpu_protocol_ctrl_hdr::zeroed(),
            ctx_id: 0,
            blob_mem: 0,
            blob_flags: 0,
            padding: 0,
            blob_id: 0,
            size: 0,
        }
    }

    proof fn lemma_zeroed_wire() {
        lemma_zero_bytes();
        kumquat_gpu_protocol_ctrl_hdr::lemma_zeroed_wire();
        assert(Self::zeroed().wire() =~= Seq::new(40, |i: int| 0u8));
    }

    proof fn lemma_wire_len(&self) {
        self.hdr.lemma_wire_len();
    }

    proof fn lemma_placed(s: Seq<u8>, at: int, v: Self) {
        v.lemma_wire_len();
        let w = s.subrange(at, at + 40);
        v.hdr.lemma_wire_len();
        assert(s.subrange(at, at + 8) =~= w.subrange(0, 8));
        assert(w.subrange(0, 8) =~= v.hdr.wire());
        kumquat_gpu_protocol_ctrl_hdr::lemma_placed(s, at, v.hdr);
        assert(s.subrange(at + 8, at + 12) =~= w.subrange(8, 12));
        assert(w.subrange(8, 12) =~= u32_le(v.ctx_id));
        lemma_u32_placed(s, at + 8, v.ctx_id);
        assert(s.subrange(at + 12, at + 16) =~= w.subrange(12, 16));
        assert(w.subrange(12, 16) =~= u32_le(v.blob_mem));
        lemma_u32_placed(s, at + 12, v.blob_mem);
        assert(s.subrange(at + 16, at + 20) =~= w.subrange(16, 20));
        assert(w.subrange(16, 20) =~= u32_le(v.blob_flags));
        lemma_u32_placed(s, at + 16, v.blob_flags);
        assert(s.subrange(at + 20, at + 24) =~= w.subrange(20, 24));
        assert(w.subrange(20, 24) =~= u32_le(v.padding));
        lemma_u32_placed(s, at + 20, v.padding);
        assert(s.subrange(at + 24, at + 32) =~= w.subrange(24, 32));
        assert(w.subrange(24, 32) =~= u64_le(v.blob_id));
        lemma_u64_placed(s, at + 24, v.blob_id);
        assert(s.subrange(at + 32, at + 40) =~= w.subrange(32, 40));
        assert(w.subrange(32, 40) =~= u64_le(v.size));
        lemma_u64_placed(s, at + 32, v.size);
    }

    proof fn lemma_rewritten(s: Seq<u8>, at: int) {
        kumquat_gpu_protocol_ctrl_hdr::lemma_rewritten(s, at);
        lemma_u32_rewritten(s, at + 8);
        lemma_u32_rewritten(s, at + 12);
        lemma_u32_rewritten(s, at + 16);
        lemma_u32_rewritten(s, at + 20);
        lemma_u64_rewritten(s, at + 24);
        lemma_u64_rewritten(s, at + 32);
        assert(Self::read(s, at).wire() =~= s.subrange(at, at + 40));
    }

    fn size() -> (n: usize) {
        40
    }

    fn encode_into(&self, out: &mut Vec<u8>) {
        self.hdr.encode_into(out);
        put_u32(out, self.ctx_id);
        put_u32(out, self.blob_mem);
        put_u32(out, self.blob_flags);
        put_u32(out, self.padding);
        put_u64(out, self.blob_id);
        put_u64(out, self.size);
        assert(out@ =~= old(out)@ + self.wire());
    }

    fn decode_at(bytes: &[u8], at: usize) -> (v: Self) {
        kumquat_gpu_protocol_resource_create_blob {
            hdr: kumquat_gpu_protocol_ctrl_hdr::decode_at(bytes, at),
            ctx_id: get_u32(bytes, at + 8),
            blob_mem: get_u32(bytes, at + 12),
            blob_flags: get_u32(bytes, at + 16),
            padding: get_u32(bytes, at + 20),
            blob_id: get_u64(bytes, at + 24),
            size: get_u64(bytes, at + 32),
        }
    }
}

} // verus!
