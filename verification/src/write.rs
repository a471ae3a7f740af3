//! The write envelope: what a sender hands over to have one frame made.
//!
//! A sender has the command's struct and at most one thing beside it, so the
//! write envelope has three shapes only. The frame is the struct's wire
//! image, followed by the data where there is some; a handle is not part of
//! the frame and is handed back to travel beside it.

use vstd::prelude::*;
use mesa3d_util::MesaHandle;
use crate::layout::WireLayout;
use crate::le::{put_bytes, put_u64, u64_le};

verus! {

/// A command on its way out: its struct alone, with a handle, or with
/// trailing data.
pub enum KumquatGpuProtocolWrite<T: WireLayout> {
    Cmd(T),
    CmdWithHandle(T, MesaHandle),
    CmdWithData(T, Vec<u8>),
}

impl<T: WireLayout> KumquatGpuProtocolWrite<T> {
    /// The struct that the envelope holds.
    pub open spec fn payload(&self) -> T {
        match *self {
            KumquatGpuProtocolWrite::Cmd(c) => c,
            KumquatGpuProtocolWrite::CmdWithHandle(c, _) => c,
            KumquatGpuProtocolWrite::CmdWithData(c, _) => c,
        }
    }

    /// The data that trails the struct; none but for `CmdWithData`.
    pub open spec fn data(&self) -> Seq<u8> {
        match *self {
            KumquatGpuProtocolWrite::CmdWithData(_, data) => data@,
            _ => Seq::empty(),
        }
    }

    /// The handle that travels beside the frame; none but for
    /// `CmdWithHandle`.
    pub open spec fn handle(&self) -> Option<MesaHandle> {
        match *self {
            KumquatGpuProtocolWrite::CmdWithHandle(_, h) => Some(h),
            _ => None,
        }
    }

    /// The frame: the struct's wire image, then the data.
    pub open spec fn frame(&self) -> Seq<u8> {
        self.payload().wire() + self.data()
    }

    /// Makes the frame, and hands back the handle that has to travel with
    /// it.
    pub fn encode(self) -> (r: (Vec<u8>, Option<MesaHandle>))
        ensures
            r.0@ == self.frame(),
            r.1 == self.handle(),
    {
        let mut out: Vec<u8> = Vec::new();
        match self {
            KumquatGpuProtocolWrite::Cmd(c) => {
                c.encode_into(&mut out);
                assert(out@ =~= self.frame());
                (out, None)
            },
            KumquatGpuProtocolWrite::CmdWithHandle(c, h) => {
                c.encode_into(&mut out);
                assert(out@ =~= self.frame());
                (out, Some(h))
            },
            KumquatGpuProtocolWrite::CmdWithData(c, data) => {
                c.encode_into(&mut out);
                put_bytes(&mut out, data.as_slice());
                assert(out@ =~= self.frame());
                (out, None)
            },
        }
    }
}

/// The wire image of a run of fence ids: eight bytes each, in order.
pub open spec fn u64s_le(v: Seq<u64>) -> Seq<u8>
    decreases v.len(),
{
    if v.len() == 0 {
        Seq::empty()
    } else {
        u64s_le(v.drop_last()) + u64_le(v.last())
    }
}

/// What trails the struct of a submission: the fence ids, then the command
/// buffer.
pub fn submit_trailer(fence_ids: &[u64], cmd_buf: &[u8]) -> (out: Vec<u8>)
    ensures
        out@ == u64s_le(fence_ids@) + cmd_buf@,
{
    let mut out: Vec<u8> = Vec::new();
    let mut i: usize = 0;
    while i < fence_ids.len()
        invariant
            i <= fence_ids.len(),
            out@ == u64s_le(fence_ids@.take(i as int)),
        decreases fence_ids.len() - i,
    {
        put_u64(&mut out, fence_ids[i]);
        i += 1;
        assert(fence_ids@.take(i as int).drop_last() =~= fence_ids@.take(i - 1));
    }
    assert(fence_ids@.take(i as int) =~= fence_ids@);
    put_bytes(&mut out, cmd_buf);
    out
}

} // verus!
