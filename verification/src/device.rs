//! Identification of the device whose memory backs a resource.

use vstd::prelude::*;
use crate::layout::WireLayout;
use crate::le::{
    get_array, get_u32, le_array, le_u32, lemma_array_placed, lemma_array_rewritten,
    lemma_u32_placed, lemma_u32_rewritten, lemma_zero_bytes, lemma_zeros_view, put_bytes, put_u32,
    u32_le, zeros,
};

verus! {

/// A unique identifier for a device: the device's UUID within the namespace
/// of its driver's UUID.
#[allow(non_camel_case_types)]
#[derive(Copy, Clone, Debug, PartialEq, Eq, PartialOrd, Ord, Hash)]
pub struct DeviceId {
    pub device_uuid: [u8; 16],
    pub driver_uuid: [u8; 16],
}

impl Default for DeviceId {
    fn default() -> (r: Self)
        ensures
            r == Self::zeroed(),
    {
        DeviceId {
            device_uuid: [0u8; 16],
            driver_uuid: [0u8; 16],
        }
    }
}

impl WireLayout for DeviceId {
    open spec fn wire_len() -> nat {
        32
    }

    open spec fn wire(&self) -> Seq<u8> {
        self.device_uuid@ + self.driver_uuid@
    }

    open spec fn read(s: Seq<u8>, at: int) -> Self {
        DeviceId {
            device_uuid: le_array(s, at),
            driver_uuid: le_array(s, at + 16),
        }
    }

    open spec fn zeroed() -> Self {
        DeviceId {
            device_uuid: zeros(),
            driver_uuid: zeros(),
        }
    }

    proof fn lemma_zeroed_wire() {
        lemma_zero_bytes();
        lemma_zeros_view::<16>();
        assert(Self::zeroed().wire() =~= Seq::new(32, |i: int| 0u8));
    }

    proof fn lemma_wire_len(&self) {
    }

    proof fn lemma_placed(s: Seq<u8>, at: int, v: Self) {
        v.lemma_wire_len();
        let w = s.subrange(at, at + 32);
        assert(s.subrange(at, at + 16) =~= w.subrange(0, 16));
        assert(w.subrange(0, 16) =~= v.device_uuid@);
        lemma_array_placed(s, at, v.device_uuid);
        assert(s.subrange(at + 16, at + 32) =~= w.subrange(16, 32));
        assert(w.subrange(16, 32) =~= v.driver_uuid@);
        lemma_array_placed(s, at + 16, v.driver_uuid);
    }

    proof fn lemma_rewritten(s: Seq<u8>, at: int) {
        lemma_array_rewritten::<16>(s, at);
        lemma_array_rewritten::<16>(s, at + 16);
        assert(Self::read(s, at).wire() =~= s.subrange(at, at + 32));
    }

    fn size() -> (n: usize) {
        32
    }

    fn encode_into(&self, out: &mut Vec<u8>) {
        put_bytes(out, self.device_uuid.as_slice());
        put_bytes(out, self.driver_uuid.as_slice());
        assert(out@ =~= old(out)@ + self.wire());
    }

    fn decode_at(bytes: &[u8], at: usize) -> (v: Self) {
        DeviceId {
            device_uuid: get_array(bytes, at),
            driver_uuid: get_array(bytes, at + 16),
        }
    }
}

/// Memory index and physical device id of the device memory that backs a
/// resource.
#[allow(non_camel_case_types)]
#[derive(Copy, Clone, Debug, PartialEq, Eq, PartialOrd, Ord, Hash)]
pub struct VulkanInfo {
    pub memory_idx: u32,
    pub device_id: DeviceId,
}

impl Default for VulkanInfo {
    fn default() -> (r: Self)
        ensures
            r == Self::zeroed(),
    {
        VulkanInfo {
            memory_idx: 0,
            device_id: DeviceId::default(),
        }
    }
}

impl WireLayout for VulkanInfo {
    open spec fn wire_len() -> nat {
        36
    }

    open spec fn wire(&self) -> Seq<u8> {
        u32_le(self.memory_idx) + self.device_id.wire()
    }

    open spec fn read(s: Seq<u8>, at: int) -> Self {
        VulkanInfo {
            memory_idx: le_u32(s, at),
            device_id: DeviceId::read(s, at + 4),
        }
    }

    open spec fn zeroed() -> Self {
        VulkanInfo {
            memory_idx: 0,
            device_id: DeviceId::zeroed(),
        }
    }

    proof fn lemma_zeroed_wire() {
        lemma_zero_bytes();
        DeviceId::lemma_zeroed_wire();
        assert(Self::zeroed().wire() =~= Seq::new(36, |i: int| 0u8));
    }

    proof fn lemma_wire_len(&self) {
        self.device_id.lemma_wire_len();
    }

    proof fn lemma_placed(s: Seq<u8>, at: int, v: Self) {
        v.lemma_wire_len();
        let w = s.subrange(at, at + 36);
        assert(s.subrange(at, at + 4) =~= w.subrange(0, 4));
        assert(w.subrange(0, 4) =~= u32_le(v.memory_idx));
        lemma_u32_placed(s, at, v.memory_idx);
        v.device_id.lemma_wire_len();
        assert(s.subrange(at + 4, at + 36) =~= w.subrange(4, 36));
        assert(w.subrange(4, 36) =~= v.device_id.wire());
        DeviceId::lemma_placed(s, at + 4, v.device_id);
    }

    proof fn lemma_rewritten(s: Seq<u8>, at: int) {
        lemma_u32_rewritten(s, at);
        DeviceId::lemma_rewritten(s, at + 4);
        assert(Self::read(s, at).wire() =~= s.subrange(at, at + 36));
    }

    fn size() -> (n: usize) {
        36
    }

    fn encode_into(&self, out: &mut Vec<u8>) {
        put_u32(out, self.memory_idx);
        self.device_id.encode_into(out);
        assert(out@ =~= old(out)@ + self.wire());
    }

    fn decode_at(bytes: &[u8], at: usize) -> (v: Self) {
        VulkanInfo {
            memory_idx: get_u32(bytes, at),
            device_id: DeviceId::decode_at(bytes, at + 4),
        }
    }
}

} // verus!
