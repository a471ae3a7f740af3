//! The fixed-size structs of the responses.

use vstd::prelude::*;
use crate::device::VulkanInfo;
use crate::header::kumquat_gpu_protocol_ctrl_hdr;
use crate::layout::WireLayout;
use crate::le::{
    get_u32, get_u64, le_u32, le_u64, lemma_u32_placed, lemma_u32_rewritten, lemma_u64_placed,
    lemma_u64_rewritten, lemma_zero_bytes, put_u32, put_u64, u32_le, u64_le,
};

verus! {

/// Answer to a query for one capability set: its id, version and size.
#[allow(non_camel_case_types)]
#[derive(Copy, Clone, Debug, PartialEq, Eq)]
pub struct kumquat_gpu_protocol_resp_capset_info {
    pub hdr: kumquat_gpu_protocol_ctrl_hdr,
    pub capset_id: u32,
    pub version: u32,
    pub size: u32,
    pub padding: u32,
}

impl Default for kumquat_gpu_protocol_resp_capset_info {
    fn default() -> (r: Self)
        ensures
            r == Self::zeroed(),
    {
        kumquat_gpu_protocol_resp_capset_info {
            hdr: kumquat_gpu_protocol_ctrl_hdr::default(),
            capset_id: 0,
            version: 0,
            size: 0,
            padding: 0,
        }
    }
}

impl WireLayout for kumquat_gpu_protocol_resp_capset_info {
    open spec fn wire_len() -> nat {
        24
    }

    open spec fn wire(&self) -> Seq<u8> {
        self.hdr.wire() + u32_le(self.capset_id) + u32_le(self.version) + u32_le(self.size)
            + u32_le(self.padding)
    }

    open spec fn read(s: Seq<u8>, at: int) -> Self {
        kumquat_gpu_protocol_resp_capset_info {
            hdr: kumquat_gpu_protocol_ctrl_hdr::read(s, at),
            capset_id: le_u32(s, at + 8),
            version: le_u32(s, at + 12),
            size: le_u32(s, at + 16),
            padding: le_u32(s, at + 20),
        }
    }

    open spec fn zeroed() -> Self {
        kumquat_gpu_protocol_resp_capset_info {
            hdr: kumquat_gpu_protocol_ctrl_hdr::zeroed(),
            capset_id: 0,
            version: 0,
            size: 0,
            padding: 0,
        }
    }

    proof fn lemma_zeroed_wire() {
        lemma_zero_bytes();
        kumquat_gpu_protocol_ctrl_hdr::lemma_zeroed_wire();
        assert(Self::zeroed().wire() =~= Seq::new(24, |i: int| 0u8));
    }

    proof fn lemma_wire_len(&self) {
        self.hdr.lemma_wire_len();
    }

    proof fn lemma_placed(s: Seq<u8>, at: int, v: Self) {
        v.lemma_wire_len();
        let w = s.subrange(at, at + 24);
        v.hdr.lemma_wire_len();
        assert(s.subrange(at, at + 8) =~= w.subrange(0, 8));
        assert(w.subrange(0, 8) =~= v.hdr.wire());
        kumquat_gpu_protocol_ctrl_hdr::lemma_placed(s, at, v.hdr);
        assert(s.subrange(at + 8, at + 12) =~= w.subrange(8, 12));
        assert(w.subrange(8, 12) =~= u32_le(v.capset_id));
        lemma_u32_placed(s, at + 8, v.capset_id);
        assert(s.subrange(at + 12, at + 16) =~= w.subrange(12, 16));
        assert(w.subrange(12, 16) =~= u32_le(v.version));
        lemma_u32_placed(s, at + 12, v.version);
        assert(s.subrange(at + 16, at + 20) =~= w.subrange(16, 20));
        assert(w.subrange(16, 20) =~= u32_le(v.size));
        lemma_u32_placed(s, at + 16, v.size);
        assert(s.subrange(at + 20, at + 24) =~= w.subrange(20, 24));
        assert(w.subrange(20, 24) =~= u32_le(v.padding));
        lemma_u32_placed(s, at + 20, v.padding);
    }

    proof fn lemma_rewritten(s: Seq<u8>, at: int) {
        kumquat_gpu_protocol_ctrl_hdr::lemma_rewritten(s, at);
        lemma_u32_rewritten(s, at + 8);
        lemma_u32_rewritten(s, at + 12);
        lemma_u32_rewritten(s, at + 16);
        lemma_u32_rewritten(s, at + 20);
        assert(Self::read(s, at).wire() =~= s.subrange(at, at + 24));
    }

    fn size() -> (n: usize) {
        24
    }

    fn encode_into(&self, out: &mut Vec<u8>) {
        self.hdr.encode_into(out);
        put_u32(out, self.capset_id);
        put_u32(out, self.version);
        put_u32(out, self.size);
        put_u32(out, self.padding);
        assert(out@ =~= old(out)@ + self.wire());
    }

    fn decode_at(bytes: &[u8], at: usize) -> (v: Self) {
        kumquat_gpu_protocol_resp_capset_info {
            hdr: kumquat_gpu_protocol_ctrl_hdr::decode_at(bytes, at),
            capset_id: get_u32(bytes, at + 8),
            version: get_u32(bytes, at + 12),
            size: get_u32(bytes, at + 16),
            padding: get_u32(bytes, at + 20),
        }
    }
}

/// Answer to the creation of a resource. The handle itself travels beside
/// the frame.
#[allow(non_camel_case_types)]
#[derive(Copy, Clone, Debug, PartialEq, Eq)]
pub struct kumquat_gpu_protocol_resp_resource_create {
    pub hdr: kumquat_gpu_protocol_ctrl_hdr,
    pub resource_id: u32,
    pub handle_type: u32,
    pub vulkan_info: VulkanInfo,
}

impl Default for kumquat_gpu_protocol_resp_resource_create {
    fn default() -> (r: Self)
        ensures
            r == Self::zeroed(),
    {
        kumquat_gpu_protocol_resp_resource_create {
            hdr: kumquat_gpu_protocol_ctrl_hdr::default(),
            resource_id: 0,
            handle_type: 0,
            vulkan_info: VulkanInfo::default(),
        }
    }
}

impl WireLayout for kumquat_gpu_protocol_resp_resource_create {
    open spec fn wire_len() -> nat {
        52
    }

    open spec fn wire(&self) -> Seq<u8> {
        self.hdr.wire() + u32_le(self.resource_id) + u32_le(self.handle_type)
            + self.vulkan_info.wire()
    }

    open spec fn read(s: Seq<u8>, at: int) -> Self {
        kumquat_gpu_protocol_resp_resource_create {
            hdr: kumquat_gpu_protocol_ctrl_hdr::read(s, at),
            resource_id: le_u32(s, at + 8),
            handle_type: le_u32(s, at + 12),
            vulkan_info: VulkanInfo::read(s, at + 16),
        }
    }

    open spec fn zeroed() -> Self {
        kumquat_gpu_protocol_resp_resource_create {
            hdr: kumquat_gpu_protocol_ctrl_hdr::zeroed(),
            resource_id: 0,
            handle_type: 0,
            vulkan_info: VulkanInfo::zeroed(),
        }
    }

    proof fn lemma_zeroed_wire() {
        lemma_zero_bytes();
        kumquat_gpu_protocol_ctrl_hdr::lemma_zeroed_wire();
        VulkanInfo::lemma_zeroed_wire();
        assert(Self::zeroed().wire() =~= Seq::new(52, |i: int| 0u8));
    }

    proof fn lemma_wire_len(&self) {
        self.hdr.lemma_wire_len();
        self.vulkan_info.lemma_wire_len();
    }

    proof fn lemma_placed(s: Seq<u8>, at: int, v: Self) {
        v.lemma_wire_len();
        let w = s.subrange(at, at + 52);
        v.hdr.lemma_wire_len();
        assert(s.subrange(at, at + 8) =~= w.subrange(0, 8));
        assert(w.subrange(0, 8) =~= v.hdr.wire());
        kumquat_gpu_protocol_ctrl_hdr::lemma_placed(s, at, v.hdr);
        assert(s.subrange(at + 8, at + 12) =~= w.subrange(8, 12));
        assert(w.subrange(8, 12) =~= u32_le(v.resource_id));
        lemma_u32_placed(s, at + 8, v.resource_id);
        assert(s.subrange(at + 12, at + 16) =~= w.subrange(12, 16));
        assert(w.subrange(12, 16) =~= u32_le(v.handle_type));
        lemma_u32_placed(s, at + 12, v.handle_type);
        v.vulkan_info.lemma_wire_len();
        assert(s.subrange(at + 16, at + 52) =~= w.subrange(16, 52));
        assert(w.subrange(16, 52) =~= v.vulkan_info.wire());
        VulkanInfo::lemma_placed(s, at + 16, v.vulkan_info);
    }

    proof fn lemma_rewritten(s: Seq<u8>, at: int) {
        kumquat_gpu_protocol_ctrl_hdr::lemma_rewritten(s, at);
        lemma_u32_rewritten(s, at + 8);
        lemma_u32_rewritten(s, at + 12);
        VulkanInfo::lemma_rewritten(s, at + 16);
        assert(Self::read(s, at).wire() =~= s.subrange(at, at + 52));
    }

    fn size() -> (n: usize) {
        52
    }

    fn encode_into(&self, out: &mut Vec<u8>) {
        self.hdr.encode_into(out);
        put_u32(out, self.resource_id);
        put_u32(out, self.handle_type);
        self.vulkan_info.encode_into(out);
        assert(out@ =~= old(out)@ + self.wire());
    }

    fn decode_at(bytes: &[u8], at: usize) -> (v: Self) {
        kumquat_gpu_protocol_resp_resource_create {
            hdr: kumquat_gpu_protocol_ctrl_hdr::decode_at(bytes, at),
            resource_id: get_u32(bytes, at + 8),
            handle_type: get_u32(bytes, at + 12),
            vulkan_info: VulkanInfo::decode_at(bytes, at + 16),
        }
    }
}

/// Answer to a submission: the fence that it will signal. The fence's
/// handle travels beside the frame.
#[allow(non_camel_case_types)]
#[derive(Copy, Clone, Debug, PartialEq, Eq)]
pub struct kumquat_gpu_protocol_resp_cmd_submit_3d {
    pub hdr: kumquat_gpu_protocol_ctrl_hdr,
    pub fence_id: u64,
    pub handle_type: u32,
    pub padding: u32,
}

impl Default for kumquat_gpu_protocol_resp_cmd_submit_3d {
    fn default() -> (r: Self)
        ensures
            r == Self::zeroed(),
    {
        kumquat_gpu_protocol_resp_cmd_submit_3d {
            hdr: kumquat_gpu_protocol_ctrl_hdr::default(),
            fence_id: 0,
            handle_type: 0,
            padding: 0,
        }
    }
}

impl WireLayout for kumquat_gpu_protocol_resp_cmd_submit_3d {
    open spec fn wire_len() -> nat {
        24
    }

    open spec fn wire(&self) -> Seq<u8> {
        self.hdr.wire() + u64_le(self.fence_id) + u32_le(self.handle_type) + u32_le(self.padding)
    }

    open spec fn read(s: Seq<u8>, at: int) -> Self {
        kumquat_gpu_protocol_resp_cmd_submit_3d {
            hdr: kumquat_gpu_protocol_ctrl_hdr::read(s, at),
            fence_id: le_u64(s, at + 8),
            handle_type: le_u32(s, at + 16),
            padding: le_u32(s, at + 20),
        }
    }

    open spec fn zeroed() -> Self {
        kumquat_gpu_protocol_resp_cmd_submit_3d {
            hdr: kumquat_gpu_protocol_ctrl_hdr::zeroed(),
            fence_id: 0,
            handle_type: 0,
            padding: 0,
        }
    }

    proof fn lemma_zeroed_wire() {
        lemma_zero_bytes();
        kumquat_gpu_protocol_ctrl_hdr::lemma_zeroed_wire();
        assert(Self::zeroed().wire() =~= Seq::new(24, |i: int| 0u8));
    }

    proof fn lemma_wire_len(&self) {
        self.hdr.lemma_wire_len();
    }

    proof fn lemma_placed(s: Seq<u8>, at: int, v: Self) {
        v.lemma_wire_len();
        let w = s.subrange(at, at + 24);
        v.hdr.lemma_wire_len();
        assert(s.subrange(at, at + 8) =~= w.subrange(0, 8));
        assert(w.subrange(0, 8) =~= v.hdr.wire());
        kumquat_gpu_protocol_ctrl_hdr::lemma_placed(s, at, v.hdr);
        assert(s.subrange(at + 8, at + 16) =~= w.subrange(8, 16));
        assert(w.subrange(8, 16) =~= u64_le(v.fence_id));
        lemma_u64_placed(s, at + 8, v.fence_id);
        assert(s.subrange(at + 16, at + 20) =~= w.subrange(16, 20));
        assert(w.subrange(16, 20) =~= u32_le(v.handle_type));
        lemma_u32_placed(s, at + 16, v.handle_type);
        assert(s.subrange(at + 20, at + 24) =~= w.subrange(20, 24));
        assert(w.subrange(20, 24) =~= u32_le(v.padding));
        lemma_u32_placed(s, at + 20, v.padding);
    }

    proof fn lemma_rewritten(s: Seq<u8>, at: int) {
        kumquat_gpu_protocol_ctrl_hdr::lemma_rewritten(s, at);
        lemma_u64_rewritten(s, at + 8);
        lemma_u32_rewritten(s, at + 16);
        lemma_u32_rewritten(s, at + 20);
        assert(Self::read(s, at).wire() =~= s.subrange(at, at + 24));
    }

    fn size() -> (n: usize) {
        24
    }

    fn encode_into(&self, out: &mut Vec<u8>) {
        self.hdr.encode_into(out);
        put_u64(out, self.fence_id);
        put_u32(out, self.handle_type);
        put_u32(out, self.padding);
        assert(out@ =~= old(out)@ + self.wire());
    }

    fn decode_at(bytes: &[u8], at: usize) -> (v: Self) {
        kumquat_gpu_protocol_resp_cmd_submit_3d {
            hdr: kumquat_gpu_protocol_ctrl_hdr::decode_at(bytes, at),
            fence_id: get_u64(bytes, at + 8),
            handle_type: get_u32(bytes, at + 16),
            padding: get_u32(bytes, at + 20),
        }
    }
}

} // verus!
