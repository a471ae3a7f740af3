//! What holds of the codec as a whole, stated over the functions that the
//! contracts of `decode` and `encode` are written in.

use vstd::prelude::*;
use mesa3d_util::MesaHandle;
use crate::commands::kumquat_gpu_protocol_cmd_submit;
use crate::envelope::{le_u64s, parse_frame, KumquatGpuProtocolView};
use crate::error::ProtocolError;
use crate::header::kumquat_gpu_protocol_ctrl_hdr;
use crate::ids::{
    carries_handle, fixed_len, is_command, is_response, recognized,
    KUMQUAT_GPU_PROTOCOL_RESP_CAPSET, KUMQUAT_GPU_PROTOCOL_SUBMIT_3D,
};
use crate::layout::{parse, WireLayout};
use crate::le::{le_u32, lemma_u64_placed, u64_le};
use crate::write::{u64s_le, KumquatGpuProtocolWrite};

verus! {

/// Decoding the wire image of a struct gives the struct again, whatever
/// follows the image in the buffer.
pub proof fn lemma_round_trip<T: WireLayout>(v: T, rest: Seq<u8>)
    ensures
        parse::<T>(v.wire() + rest) == Ok::<T, ProtocolError>(v),
{
    v.lemma_wire_len();
    let s = v.wire() + rest;
    assert(s.subrange(0, T::wire_len() as int) =~= v.wire());
    T::lemma_placed(s, 0, v);
}

/// A buffer of zero bytes decodes to the zero struct, the one that
/// `default()` gives: the pattern of all zero bits is a value of every
/// struct.
pub proof fn lemma_zero_image<T: WireLayout>()
    ensures
        parse::<T>(Seq::new(T::wire_len(), |i: int| 0u8)) == Ok::<T, ProtocolError>(T::zeroed()),
{
    T::lemma_zeroed_wire();
    lemma_round_trip(T::zeroed(), Seq::empty());
    assert(T::zeroed().wire() + Seq::<u8>::empty() =~= T::zeroed().wire());
}

/// Two structs with the same wire image are the same struct.
pub proof fn lemma_wire_injective<T: WireLayout>(a: T, b: T)
    requires
        a.wire() == b.wire(),
    ensures
        a == b,
{
    lemma_round_trip(a, Seq::empty());
    lemma_round_trip(b, Seq::empty());
}

/// Decoding a struct fails exactly on the buffers that are shorter than its
/// wire image, and then with `Truncated`: a struct is never decoded from a
/// part of its image.
pub proof fn lemma_truncation<T: WireLayout>(bytes: Seq<u8>)
    ensures
        bytes.len() < T::wire_len() <==> parse::<T>(bytes) is Err,
        parse::<T>(bytes) is Err ==> parse::<T>(bytes) == Err::<T, ProtocolError>(
            ProtocolError::Truncated,
        ),
{
}

/// Encoding what was decoded gives the bytes again: a buffer that is long
/// enough decodes to the one struct whose wire image the buffer starts
/// with.
pub proof fn lemma_reencode<T: WireLayout>(bytes: Seq<u8>)
    requires
        bytes.len() >= T::wire_len(),
    ensures
        parse::<T>(bytes) matches Ok(v) && v.wire() == bytes.take(T::wire_len() as int),
{
    T::lemma_rewritten(bytes, 0);
}

/// Every proper prefix of a wire image is refused as `Truncated`.
pub proof fn lemma_prefix_truncated<T: WireLayout>(v: T, k: int)
    requires
        0 <= k < T::wire_len(),
    ensures
        parse::<T>(v.wire().take(k)) == Err::<T, ProtocolError>(ProtocolError::Truncated),
{
    v.lemma_wire_len();
}

/// The struct that a write envelope holds can be read back from the start
/// of its frame, and the rest of the frame is the envelope's data.
pub proof fn lemma_written_payload_reads_back<T: WireLayout>(w: KumquatGpuProtocolWrite<T>)
    ensures
        parse::<T>(w.frame()) == Ok::<T, ProtocolError>(w.payload()),
        w.frame().skip(T::wire_len() as int) == w.data(),
{
    w.payload().lemma_wire_len();
    lemma_round_trip(w.payload(), w.data());
    assert(w.frame().skip(T::wire_len() as int) =~= w.data());
}

/// No identifier is a command's and a response's at once, and every
/// identifier that is recognized is one of the two.
pub proof fn lemma_commands_and_responses_apart(id: u32)
    ensures
        !(is_command(id) && is_response(id)),
        recognized(id) ==> is_command(id) || is_response(id),
{
}

/// A decoded command is the one that the frame's header names: its variant
/// goes with the header's identifier, the header inside its struct is the
/// frame's header, and a submission's trailing data has the lengths that
/// its struct announces.
pub proof fn lemma_decoded_agrees_with_header(bytes: Seq<u8>, handle: Option<MesaHandle>)
    ensures
        parse_frame(bytes, handle) matches Ok(c) ==> {
            &&& c.type_id() == le_u32(bytes, 0)
            &&& c.well_formed()
            &&& c.embedded_header() matches Some(hdr) ==> hdr
                == kumquat_gpu_protocol_ctrl_hdr::read(bytes, 0)
        },
{
}

/// A frame whose identifier is not recognized is refused as
/// `UnknownCommand`, whatever else it holds.
pub proof fn lemma_unrecognized_refused(bytes: Seq<u8>, handle: Option<MesaHandle>)
    requires
        bytes.len() >= 8,
        !recognized(le_u32(bytes, 0)),
    ensures
        parse_frame(bytes, handle) == Err::<KumquatGpuProtocolView, ProtocolError>(
            ProtocolError::UnknownCommand,
        ),
{
}

/// A frame that has the length of one command and the identifier of
/// another, whose fixed-size part has a different length, is refused: as
/// `Truncated` where it is too short for what the identifier names, and,
/// with the handle as the identifier wants it, as `Malformed` where it is
/// too long. The two commands that trail data of free length are left out.
pub proof fn lemma_wrong_length_refused(bytes: Seq<u8>, handle: Option<MesaHandle>)
    requires
        bytes.len() >= 8,
        recognized(le_u32(bytes, 0)),
        le_u32(bytes, 0) != KUMQUAT_GPU_PROTOCOL_SUBMIT_3D,
        le_u32(bytes, 0) != KUMQUAT_GPU_PROTOCOL_RESP_CAPSET,
        bytes.len() != fixed_len(le_u32(bytes, 0)),
    ensures
        parse_frame(bytes, handle) is Err,
        bytes.len() < fixed_len(le_u32(bytes, 0)) ==> parse_frame(bytes, handle) == Err::<
            KumquatGpuProtocolView,
            ProtocolError,
        >(ProtocolError::Truncated),
        bytes.len() > fixed_len(le_u32(bytes, 0)) && (carries_handle(le_u32(bytes, 0))
            <==> handle is Some) ==> parse_frame(bytes, handle) == Err::<
            KumquatGpuProtocolView,
            ProtocolError,
        >(ProtocolError::Malformed),
{
}

/// Cutting a frame that decodes to fewer bytes than its fixed-size part has
/// gives a frame that is refused as `Truncated`: nothing is decoded from a
/// part of a struct.
pub proof fn lemma_cut_frame_truncated(bytes: Seq<u8>, handle: Option<MesaHandle>, k: int)
    requires
        parse_frame(bytes, handle) is Ok,
        0 <= k < fixed_len(le_u32(bytes, 0)),
    ensures
        parse_frame(bytes.take(k), handle) == Err::<KumquatGpuProtocolView, ProtocolError>(
            ProtocolError::Truncated,
        ),
{
    if k >= 8 {
        assert(le_u32(bytes.take(k), 0) == le_u32(bytes, 0));
    }
}

/// Handles go with the commands that carry one, and with no others. Of a
/// frame that is whole and recognized: without a handle it is refused as
/// `MissingHandle` where its command carries one, with a handle it is
/// refused as `HandleNotExpected` where its command carries none, and a
/// command that is decoded holds the very handle that came with the frame.
pub proof fn lemma_handle_discipline(bytes: Seq<u8>, handle: Option<MesaHandle>)
    requires
        bytes.len() >= 8,
        recognized(le_u32(bytes, 0)),
        bytes.len() >= fixed_len(le_u32(bytes, 0)),
    ensures
        carries_handle(le_u32(bytes, 0)) && handle is None ==> parse_frame(bytes, handle) == Err::<
            KumquatGpuProtocolView,
            ProtocolError,
        >(ProtocolError::MissingHandle),
        !carries_handle(le_u32(bytes, 0)) && handle is Some ==> parse_frame(bytes, handle) == Err::<
            KumquatGpuProtocolView,
            ProtocolError,
        >(ProtocolError::HandleNotExpected),
        parse_frame(bytes, handle) matches Ok(c) ==> c.handle() == handle,
{
}

/// The wire image of `n` fence ids has `8 * n` bytes.
pub proof fn lemma_u64s_le_len(v: Seq<u64>)
    ensures
        u64s_le(v).len() == 8 * v.len(),
    decreases v.len(),
{
    if v.len() > 0 {
        lemma_u64s_le_len(v.drop_last());
    }
}

/// Wherever in a buffer the wire image of a run of fence ids stands,
/// reading as many numbers there gives the fence ids.
pub proof fn lemma_u64s_placed(s: Seq<u8>, at: int, v: Seq<u64>)
    requires
        0 <= at,
        at + 8 * v.len() <= s.len(),
        s.subrange(at, at + 8 * v.len()) == u64s_le(v),
    ensures
        le_u64s(s, at, v.len()) == v,
    decreases v.len(),
{
    let n = v.len() as int;
    if n > 0 {
        let front = v.drop_last();
        lemma_u64s_le_len(front);
        let w = s.subrange(at, at + 8 * n);
        assert(s.subrange(at, at + 8 * (n - 1)) =~= w.subrange(0, 8 * (n - 1)));
        assert(w.subrange(0, 8 * (n - 1)) =~= u64s_le(front));
        lemma_u64s_placed(s, at, front);
        assert(s.subrange(at + 8 * (n - 1), at + 8 * n) =~= w.subrange(8 * (n - 1), 8 * n));
        assert(w.subrange(8 * (n - 1), 8 * n) =~= u64_le(v.last()));
        lemma_u64_placed(s, at + 8 * (n - 1), v.last());
        assert forall|i: int| 0 <= i < n implies le_u64s(s, at, n as nat)[i] == v[i] by {
            if i < n - 1 {
                assert(le_u64s(s, at, (n - 1) as nat)[i] == front[i]);
            }
        }
    }
    assert(le_u64s(s, at, v.len()) =~= v);
}

/// A submission comes back whole: the struct, then its fence ids, then its
/// command buffer, decode to the submission with these fence ids and this
/// buffer, for every number of fence ids and every length of the buffer
/// that the struct announces.
pub proof fn lemma_submit_round_trip(
    cmd: kumquat_gpu_protocol_cmd_submit,
    fences: Seq<u64>,
    buf: Seq<u8>,
)
    requires
        cmd.hdr.type_ == KUMQUAT_GPU_PROTOCOL_SUBMIT_3D,
        fences.len() == cmd.num_in_fences,
        buf.len() == cmd.size,
    ensures
        parse_frame(cmd.wire() + u64s_le(fences) + buf, None) == Ok::<
            KumquatGpuProtocolView,
            ProtocolError,
        >(KumquatGpuProtocolView::CmdSubmit3d(cmd, buf, fences)),
{
    let frame = cmd.wire() + u64s_le(fences) + buf;
    let n = fences.len() as int;
    cmd.lemma_wire_len();
    lemma_u64s_le_len(fences);
    lemma_frame_starts_with(cmd, u64s_le(fences) + buf);
    assert(frame =~= cmd.wire() + (u64s_le(fences) + buf));
    assert(frame.subrange(32, 32 + 8 * n) =~= u64s_le(fences));
    lemma_u64s_placed(frame, 32, fences);
    assert(frame.subrange(32 + 8 * n, frame.len() as int) =~= buf);
}

/// A submission whose trailing data is one byte, or any number of bytes,
/// shorter or longer than its struct announces is refused as `Malformed`.
pub proof fn lemma_submit_wrong_tail(cmd: kumquat_gpu_protocol_cmd_submit, tail: Seq<u8>)
    requires
        cmd.hdr.type_ == KUMQUAT_GPU_PROTOCOL_SUBMIT_3D,
        tail.len() != 8 * cmd.num_in_fences + cmd.size,
    ensures
        parse_frame(cmd.wire() + tail, None) == Err::<KumquatGpuProtocolView, ProtocolError>(
            ProtocolError::Malformed,
        ),
{
    cmd.lemma_wire_len();
    lemma_frame_starts_with(cmd, tail);
}

/// A capability set comes back whole: the header and then the blob decode
/// to the blob, of whatever length it is. No length is written into the
/// frame; the blob ends where the frame does.
pub proof fn lemma_capset_round_trip(hdr: kumquat_gpu_protocol_ctrl_hdr, blob: Seq<u8>)
    requires
        hdr.type_ == KUMQUAT_GPU_PROTOCOL_RESP_CAPSET,
    ensures
        parse_frame(hdr.wire() + blob, None) == Ok::<KumquatGpuProtocolView, ProtocolError>(
            KumquatGpuProtocolView::RespCapset(blob),
        ),
{
    let frame = hdr.wire() + blob;
    lemma_frame_starts_with(hdr, blob);
    assert(frame.subrange(8, frame.len() as int) =~= blob);
}

/// A frame that starts with the wire image of a struct reads as that
/// struct at index 0.
proof fn lemma_frame_starts_with<T: WireLayout>(v: T, rest: Seq<u8>)
    ensures
        T::read(v.wire() + rest, 0) == v,
        (v.wire() + rest).len() == T::wire_len() + rest.len(),
{
    v.lemma_wire_len();
    lemma_round_trip(v, rest);
}

} // verus!
