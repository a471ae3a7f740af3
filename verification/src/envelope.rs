//! The command envelope: one value per frame, with the handle and the
//! trailing data that belong to it.
//!
//! A frame is the command's fixed-size struct, which starts with the control
//! header, and then whatever the command trails: `CmdSubmit3d` its fence ids
//! and command buffer, `RespCapset` its blob; all others nothing. A command
//! that has no struct of its own is the bare header, and one whose payload is
//! a single number has it in the header's auxiliary word.

use vstd::prelude::*;
use vstd::slice::{slice_subrange, slice_to_vec};
use mesa3d_util::MesaHandle;
use crate::commands::{
    kumquat_gpu_protocol_cmd_submit, kumquat_gpu_protocol_ctx_create,
    kumquat_gpu_protocol_ctx_resource, kumquat_gpu_protocol_get_capset,
    kumquat_gpu_protocol_resource_create_3d, kumquat_gpu_protocol_resource_create_blob,
    kumquat_gpu_protocol_transfer_host_3d,
};
use crate::error::ProtocolError;
use crate::header::kumquat_gpu_protocol_ctrl_hdr;
use crate::ids::{
    carries_handle, expects_handle, fixed_len, fixed_size, recognized,
    KUMQUAT_GPU_PROTOCOL_CTX_ATTACH_RESOURCE, KUMQUAT_GPU_PROTOCOL_CTX_CREATE,
    KUMQUAT_GPU_PROTOCOL_CTX_DESTROY, KUMQUAT_GPU_PROTOCOL_CTX_DETACH_RESOURCE,
    KUMQUAT_GPU_PROTOCOL_GET_CAPSET, KUMQUAT_GPU_PROTOCOL_GET_CAPSET_INFO,
    KUMQUAT_GPU_PROTOCOL_GET_NUM_CAPSETS, KUMQUAT_GPU_PROTOCOL_RESOURCE_CREATE_3D,
    KUMQUAT_GPU_PROTOCOL_RESOURCE_CREATE_BLOB, KUMQUAT_GPU_PROTOCOL_RESP_CAPSET,
    KUMQUAT_GPU_PROTOCOL_RESP_CAPSET_INFO, KUMQUAT_GPU_PROTOCOL_RESP_CMD_SUBMIT_3D,
    KUMQUAT_GPU_PROTOCOL_RESP_CONTEXT_CREATE, KUMQUAT_GPU_PROTOCOL_RESP_NODATA,
    KUMQUAT_GPU_PROTOCOL_RESP_NUM_CAPSETS, KUMQUAT_GPU_PROTOCOL_RESP_OK_SNAPSHOT,
    KUMQUAT_GPU_PROTOCOL_RESP_RESOURCE_CREATE, KUMQUAT_GPU_PROTOCOL_SNAPSHOT_RESTORE,
    KUMQUAT_GPU_PROTOCOL_SNAPSHOT_SAVE, KUMQUAT_GPU_PROTOCOL_SUBMIT_3D,
    KUMQUAT_GPU_PROTOCOL_TRANSFER_FROM_HOST_3D, KUMQUAT_GPU_PROTOCOL_TRANSFER_TO_HOST_3D,
};
use crate::layout::WireLayout;
use crate::le::{get_u64, le_u32, le_u64};
use crate::responses::{
    kumquat_gpu_protocol_resp_capset_info, kumquat_gpu_protocol_resp_cmd_submit_3d,
    kumquat_gpu_protocol_resp_resource_create,
};

verus! {

/// A command or response, with what travels beside its fixed-size struct.
#[derive(Debug)]
pub enum KumquatGpuProtocol {
    OkNoData,
    GetNumCapsets,
    GetCapsetInfo(u32),
    GetCapset(kumquat_gpu_protocol_get_capset),
    CtxCreate(kumquat_gpu_protocol_ctx_create),
    CtxDestroy(u32),
    CtxAttachResource(kumquat_gpu_protocol_ctx_resource),
    CtxDetachResource(kumquat_gpu_protocol_ctx_resource),
    ResourceCreate3d(kumquat_gpu_protocol_resource_create_3d),
    TransferToHost3d(kumquat_gpu_protocol_transfer_host_3d, MesaHandle),
    TransferFromHost3d(kumquat_gpu_protocol_transfer_host_3d, MesaHandle),
    CmdSubmit3d(kumquat_gpu_protocol_cmd_submit, Vec<u8>, Vec<u64>),
    ResourceCreateBlob(kumquat_gpu_protocol_resource_create_blob),
    SnapshotSave,
    SnapshotRestore,
    RespNumCapsets(u32),
    RespCapsetInfo(kumquat_gpu_protocol_resp_capset_info),
    RespCapset(Vec<u8>),
    RespContextCreate(u32),
    RespResourceCreate(kumquat_gpu_protocol_resp_resource_create, MesaHandle),
    RespCmdSubmit3d(u64, MesaHandle),
    RespOkSnapshot,
}

/// What a `KumquatGpuProtocol` is to a contract: the same variants, with
/// sequences in place of vectors.
pub enum KumquatGpuProtocolView {
    OkNoData,
    GetNumCapsets,
    GetCapsetInfo(u32),
    GetCapset(kumquat_gpu_protocol_get_capset),
    CtxCreate(kumquat_gpu_protocol_ctx_create),
    CtxDestroy(u32),
    CtxAttachResource(kumquat_gpu_protocol_ctx_resource),
    CtxDetachResource(kumquat_gpu_protocol_ctx_resource),
    ResourceCreate3d(kumquat_gpu_protocol_resource_create_3d),
    TransferToHost3d(kumquat_gpu_protocol_transfer_host_3d, MesaHandle),
    TransferFromHost3d(kumquat_gpu_protocol_transfer_host_3d, MesaHandle),
    CmdSubmit3d(kumquat_gpu_protocol_cmd_submit, Seq<u8>, Seq<u64>),
    ResourceCreateBlob(kumquat_gpu_protocol_resource_create_blob),
    SnapshotSave,
    SnapshotRestore,
    RespNumCapsets(u32),
    RespCapsetInfo(kumquat_gpu_protocol_resp_capset_info),
    RespCapset(Seq<u8>),
    RespContextCreate(u32),
    RespResourceCreate(kumquat_gpu_protocol_resp_resource_create, MesaHandle),
    RespCmdSubmit3d(u64, MesaHandle),
    RespOkSnapshot,
}

impl View for KumquatGpuProtocol {
    type V = KumquatGpuProtocolView;

    open spec fn view(&self) -> KumquatGpuProtocolView {
        match *self {
            KumquatGpuProtocol::OkNoData => KumquatGpuProtocolView::OkNoData,
            KumquatGpuProtocol::GetNumCapsets => KumquatGpuProtocolView::GetNumCapsets,
            KumquatGpuProtocol::GetCapsetInfo(id) => KumquatGpuProtocolView::GetCapsetInfo(id),
            KumquatGpuProtocol::GetCapset(c) => KumquatGpuProtocolView::GetCapset(c),
            KumquatGpuProtocol::CtxCreate(c) => KumquatGpuProtocolView::CtxCreate(c),
            KumquatGpuProtocol::CtxDestroy(id) => KumquatGpuProtocolView::CtxDestroy(id),
            KumquatGpuProtocol::CtxAttachResource(c) => KumquatGpuProtocolView::CtxAttachResource(c),
            KumquatGpuProtocol::CtxDetachResource(c) => KumquatGpuProtocolView::CtxDetachResource(c),
            KumquatGpuProtocol::ResourceCreate3d(c) => KumquatGpuProtocolView::ResourceCreate3d(c),
            KumquatGpuProtocol::TransferToHost3d(c, h) => KumquatGpuProtocolView::TransferToHost3d(
                c,
                h,
            ),
            KumquatGpuProtocol::TransferFromHost3d(
                c,
                h,
            ) => KumquatGpuProtocolView::TransferFromHost3d(c, h),
            KumquatGpuProtocol::CmdSubmit3d(c, buf, fences) => KumquatGpuProtocolView::CmdSubmit3d(
                c,
                buf@,
                fences@,
            ),
            KumquatGpuProtocol::ResourceCreateBlob(c) => KumquatGpuProtocolView::ResourceCreateBlob(
                c,
            ),
            KumquatGpuProtocol::SnapshotSave => KumquatGpuProtocolView::SnapshotSave,
            KumquatGpuProtocol::SnapshotRestore => KumquatGpuProtocolView::SnapshotRestore,
            KumquatGpuProtocol::RespNumCapsets(n) => KumquatGpuProtocolView::RespNumCapsets(n),
            KumquatGpuProtocol::RespCapsetInfo(c) => KumquatGpuProtocolView::RespCapsetInfo(c),
            KumquatGpuProtocol::RespCapset(blob) => KumquatGpuProtocolView::RespCapset(blob@),
            KumquatGpuProtocol::RespContextCreate(id) => KumquatGpuProtocolView::RespContextCreate(
                id,
            ),
            KumquatGpuProtocol::RespResourceCreate(
                c,
                h,
            ) => KumquatGpuProtocolView::RespResourceCreate(c, h),
            KumquatGpuProtocol::RespCmdSubmit3d(fence, h) => KumquatGpuProtocolView::RespCmdSubmit3d(
                fence,
                h,
            ),
            KumquatGpuProtocol::RespOkSnapshot => KumquatGpuProtocolView::RespOkSnapshot,
        }
    }
}

impl KumquatGpuProtocolView {
    /// The identifier that heads the frame of this command.
    pub open spec fn type_id(self) -> u32 {
        match self {
            KumquatGpuProtocolView::OkNoData => KUMQUAT_GPU_PROTOCOL_RESP_NODATA,
            KumquatGpuProtocolView::GetNumCapsets => KUMQUAT_GPU_PROTOCOL_GET_NUM_CAPSETS,
            KumquatGpuProtocolView::GetCapsetInfo(_) => KUMQUAT_GPU_PROTOCOL_GET_CAPSET_INFO,
            KumquatGpuProtocolView::GetCapset(_) => KUMQUAT_GPU_PROTOCOL_GET_CAPSET,
            KumquatGpuProtocolView::CtxCreate(_) => KUMQUAT_GPU_PROTOCOL_CTX_CREATE,
            KumquatGpuProtocolView::CtxDestroy(_) => KUMQUAT_GPU_PROTOCOL_CTX_DESTROY,
            KumquatGpuProtocolView::CtxAttachResource(_) => KUMQUAT_GPU_PROTOCOL_CTX_ATTACH_RESOURCE,
            KumquatGpuProtocolView::CtxDetachResource(_) => KUMQUAT_GPU_PROTOCOL_CTX_DETACH_RESOURCE,
            KumquatGpuProtocolView::ResourceCreate3d(_) => KUMQUAT_GPU_PROTOCOL_RESOURCE_CREATE_3D,
            KumquatGpuProtocolView::TransferToHost3d(_, _) => KUMQUAT_GPU_PROTOCOL_TRANSFER_TO_HOST_3D,
            KumquatGpuProtocolView::TransferFromHost3d(
                _,
                _,
            ) => KUMQUAT_GPU_PROTOCOL_TRANSFER_FROM_HOST_3D,
            KumquatGpuProtocolView::CmdSubmit3d(_, _, _) => KUMQUAT_GPU_PROTOCOL_SUBMIT_3D,
            KumquatGpuProtocolView::ResourceCreateBlob(_) => KUMQUAT_GPU_PROTOCOL_RESOURCE_CREATE_BLOB,
            KumquatGpuProtocolView::SnapshotSave => KUMQUAT_GPU_PROTOCOL_SNAPSHOT_SAVE,
            KumquatGpuProtocolView::SnapshotRestore => KUMQUAT_GPU_PROTOCOL_SNAPSHOT_RESTORE,
            KumquatGpuProtocolView::RespNumCapsets(_) => KUMQUAT_GPU_PROTOCOL_RESP_NUM_CAPSETS,
            KumquatGpuProtocolView::RespCapsetInfo(_) => KUMQUAT_GPU_PROTOCOL_RESP_CAPSET_INFO,
            KumquatGpuProtocolView::RespCapset(_) => KUMQUAT_GPU_PROTOCOL_RESP_CAPSET,
            KumquatGpuProtocolView::RespContextCreate(_) => KUMQUAT_GPU_PROTOCOL_RESP_CONTEXT_CREATE,
            KumquatGpuProtocolView::RespResourceCreate(
                _,
                _,
            ) => KUMQUAT_GPU_PROTOCOL_RESP_RESOURCE_CREATE,
            KumquatGpuProtocolView::RespCmdSubmit3d(_, _) => KUMQUAT_GPU_PROTOCOL_RESP_CMD_SUBMIT_3D,
            KumquatGpuProtocolView::RespOkSnapshot => KUMQUAT_GPU_PROTOCOL_RESP_OK_SNAPSHOT,
        }
    }

    /// The handle that the command carries, if it carries one.
    pub open spec fn handle(self) -> Option<MesaHandle> {
        match self {
            KumquatGpuProtocolView::TransferToHost3d(_, h) => Some(h),
            KumquatGpuProtocolView::TransferFromHost3d(_, h) => Some(h),
            KumquatGpuProtocolView::RespResourceCreate(_, h) => Some(h),
            KumquatGpuProtocolView::RespCmdSubmit3d(_, h) => Some(h),
            _ => None,
        }
    }

    /// The header that a command's struct starts with, where the command has
    /// a struct in the envelope.
    pub open spec fn embedded_header(self) -> Option<kumquat_gpu_protocol_ctrl_hdr> {
        match self {
            KumquatGpuProtocolView::GetCapset(c) => Some(c.hdr),
            KumquatGpuProtocolView::CtxCreate(c) => Some(c.hdr),
            KumquatGpuProtocolView::CtxAttachResource(c) => Some(c.hdr),
            KumquatGpuProtocolView::CtxDetachResource(c) => Some(c.hdr),
            KumquatGpuProtocolView::ResourceCreate3d(c) => Some(c.hdr),
            KumquatGpuProtocolView::TransferToHost3d(c, _) => Some(c.hdr),
            KumquatGpuProtocolView::TransferFromHost3d(c, _) => Some(c.hdr),
            KumquatGpuProtocolView::CmdSubmit3d(c, _, _) => Some(c.hdr),
            KumquatGpuProtocolView::ResourceCreateBlob(c) => Some(c.hdr),
            KumquatGpuProtocolView::RespCapsetInfo(c) => Some(c.hdr),
            KumquatGpuProtocolView::RespResourceCreate(c, _) => Some(c.hdr),
            _ => None,
        }
    }

    /// The variant and what it holds agree: the header inside the struct
    /// names the variant, and the data trailing a submission is as long as
    /// its struct says.
    pub open spec fn well_formed(self) -> bool {
        &&& self.embedded_header() matches Some(hdr) ==> hdr.type_ == self.type_id()
        &&& self matches KumquatGpuProtocolView::CmdSubmit3d(c, buf, fences) ==> buf.len() == c.size
            && fences.len() == c.num_in_fences
    }
}

/// The `n` numbers of eight bytes each that stand in `s` from index `at` on.
pub open spec fn le_u64s(s: Seq<u8>, at: int, n: nat) -> Seq<u64> {
    Seq::new(n, |i: int| le_u64(s, at + 8 * i))
}

/// Whether what follows the fixed-size part of a frame headed by `id` is
/// what the command trails: for a submission as many bytes as its struct
/// announces, for a capability set anything, for all others nothing.
pub open spec fn tail_fits(id: u32, bytes: Seq<u8>) -> bool {
    if id == KUMQUAT_GPU_PROTOCOL_SUBMIT_3D {
        let cmd = kumquat_gpu_protocol_cmd_submit::read(bytes, 0);
        bytes.len() - 32 == 8 * cmd.num_in_fences + cmd.size
    } else if id == KUMQUAT_GPU_PROTOCOL_RESP_CAPSET {
        true
    } else {
        bytes.len() == fixed_len(id)
    }
}

/// The command that a frame headed by the recognized identifier `id` holds,
/// where the frame is long enough, its tail fits and `handle` is there if
/// and only if the command carries one.
pub open spec fn command_in(
    id: u32,
    bytes: Seq<u8>,
    handle: Option<MesaHandle>,
) -> KumquatGpuProtocolView {
    let aux = le_u32(bytes, 4);
    if id == KUMQUAT_GPU_PROTOCOL_GET_NUM_CAPSETS {
        KumquatGpuProtocolView::GetNumCapsets
    } else if id == KUMQUAT_GPU_PROTOCOL_GET_CAPSET_INFO {
        KumquatGpuProtocolView::GetCapsetInfo(aux)
    } else if id == KUMQUAT_GPU_PROTOCOL_GET_CAPSET {
        KumquatGpuProtocolView::GetCapset(WireLayout::read(bytes, 0))
    } else if id == KUMQUAT_GPU_PROTOCOL_RESOURCE_CREATE_BLOB {
        KumquatGpuProtocolView::ResourceCreateBlob(WireLayout::read(bytes, 0))
    } else if id == KUMQUAT_GPU_PROTOCOL_CTX_CREATE {
        KumquatGpuProtocolView::CtxCreate(WireLayout::read(bytes, 0))
    } else if id == KUMQUAT_GPU_PROTOCOL_CTX_DESTROY {
        KumquatGpuProtocolView::CtxDestroy(aux)
    } else if id == KUMQUAT_GPU_PROTOCOL_CTX_ATTACH_RESOURCE {
        KumquatGpuProtocolView::CtxAttachResource(WireLayout::read(bytes, 0))
    } else if id == KUMQUAT_GPU_PROTOCOL_CTX_DETACH_RESOURCE {
        KumquatGpuProtocolView::CtxDetachResource(WireLayout::read(bytes, 0))
    } else if id == KUMQUAT_GPU_PROTOCOL_RESOURCE_CREATE_3D {
        KumquatGpuProtocolView::ResourceCreate3d(WireLayout::read(bytes, 0))
    } else if id == KUMQUAT_GPU_PROTOCOL_TRANSFER_TO_HOST_3D {
        KumquatGpuProtocolView::TransferToHost3d(WireLayout::read(bytes, 0), handle->0)
    } else if id == KUMQUAT_GPU_PROTOCOL_TRANSFER_FROM_HOST_3D {
        KumquatGpuProtocolView::TransferFromHost3d(WireLayout::read(bytes, 0), handle->0)
    } else if id == KUMQUAT_GPU_PROTOCOL_SUBMIT_3D {
        let cmd = kumquat_gpu_protocol_cmd_submit::read(bytes, 0);
        let fences = le_u64s(bytes, 32, cmd.num_in_fences as nat);
        let buf = bytes.subrange(32 + 8 * cmd.num_in_fences, bytes.len() as int);
        KumquatGpuProtocolView::CmdSubmit3d(cmd, buf, fences)
    } else if id == KUMQUAT_GPU_PROTOCOL_SNAPSHOT_SAVE {
        KumquatGpuProtocolView::SnapshotSave
    } else if id == KUMQUAT_GPU_PROTOCOL_SNAPSHOT_RESTORE {
        KumquatGpuProtocolView::SnapshotRestore
    } else if id == KUMQUAT_GPU_PROTOCOL_RESP_NODATA {
        KumquatGpuProtocolView::OkNoData
    } else if id == KUMQUAT_GPU_PROTOCOL_RESP_NUM_CAPSETS {
        KumquatGpuProtocolView::RespNumCapsets(aux)
    } else if id == KUMQUAT_GPU_PROTOCOL_RESP_CAPSET_INFO {
        KumquatGpuProtocolView::RespCapsetInfo(WireLayout::read(bytes, 0))
    } else if id == KUMQUAT_GPU_PROTOCOL_RESP_CAPSET {
        KumquatGpuProtocolView::RespCapset(bytes.subrange(8, bytes.len() as int))
    } else if id == KUMQUAT_GPU_PROTOCOL_RESP_CONTEXT_CREATE {
        KumquatGpuProtocolView::RespContextCreate(aux)
    } else if id == KUMQUAT_GPU_PROTOCOL_RESP_RESOURCE_CREATE {
        KumquatGpuProtocolView::RespResourceCreate(WireLayout::read(bytes, 0), handle->0)
    } else if id == KUMQUAT_GPU_PROTOCOL_RESP_CMD_SUBMIT_3D {
        let resp = kumquat_gpu_protocol_resp_cmd_submit_3d::read(bytes, 0);
        KumquatGpuProtocolView::RespCmdSubmit3d(resp.fence_id, handle->0)
    } else {
        KumquatGpuProtocolView::RespOkSnapshot
    }
}

/// What decoding the frame `bytes` gives when `handle` came with it. The
/// checks are made in this order, and the first that fails decides the
/// error: the header is whole; its identifier is recognized; the command's
/// fixed-size struct is whole; a handle came if and only if the command
/// carries one; the tail fits.
pub open spec fn parse_frame(bytes: Seq<u8>, handle: Option<MesaHandle>) -> Result<
    KumquatGpuProtocolView,
    ProtocolError,
> {
    let id = le_u32(bytes, 0);
    if bytes.len() < 8 {
        Err(ProtocolError::Truncated)
    } else if !recognized(id) {
        Err(ProtocolError::UnknownCommand)
    } else if bytes.len() < fixed_len(id) {
        Err(ProtocolError::Truncated)
    } else if carries_handle(id) && handle is None {
        Err(ProtocolError::MissingHandle)
    } else if !carries_handle(id) && handle is Some {
        Err(ProtocolError::HandleNotExpected)
    } else if !tail_fits(id, bytes) {
        Err(ProtocolError::Malformed)
    } else {
        Ok(command_in(id, bytes, handle))
    }
}

/// Reads the `n` fence ids that stand at index `at` of `bytes`.
fn decode_fences(bytes: &[u8], at: usize, n: usize) -> (fences: Vec<u64>)
    requires
        at + 8 * n <= bytes.len(),
    ensures
        fences@ == le_u64s(bytes@, at as int, n as nat),
{
    let mut fences: Vec<u64> = Vec::with_capacity(n);
    let mut i: usize = 0;
    while i < n
        invariant
            i <= n,
            at + 8 * n <= bytes.len(),
            fences@ == le_u64s(bytes@, at as int, i as nat),
        decreases n - i,
    {
        fences.push(get_u64(bytes, at + 8 * i));
        i += 1;
        assert(fences@ =~= le_u64s(bytes@, at as int, i as nat));
    }
    fences
}

/// Decodes a submission, whose frame is known to hold the whole struct.
fn decode_submit(bytes: &[u8]) -> (r: Result<KumquatGpuProtocol, ProtocolError>)
    requires
        32 <= bytes.len(),
    ensures
        match r {
            Ok(c) => tail_fits(KUMQUAT_GPU_PROTOCOL_SUBMIT_3D, bytes@) && c@ == command_in(
                KUMQUAT_GPU_PROTOCOL_SUBMIT_3D,
                bytes@,
                None,
            ),
            Err(e) => !tail_fits(KUMQUAT_GPU_PROTOCOL_SUBMIT_3D, bytes@) && e
                == ProtocolError::Malformed,
        },
{
    let cmd = kumquat_gpu_protocol_cmd_submit::decode_at(bytes, 0);
    let rest: u64 = (bytes.len() - 32) as u64;
    let announced: u64 = 8 * (cmd.num_in_fences as u64) + cmd.size as u64;
    if rest != announced {
        return Err(ProtocolError::Malformed);
    }
    let n: usize = cmd.num_in_fences as usize;
    let fences = decode_fences(bytes, 32, n);
    let buf = slice_to_vec(slice_subrange(bytes, 32 + 8 * n, bytes.len()));
    Ok(KumquatGpuProtocol::CmdSubmit3d(cmd, buf, fences))
}

impl KumquatGpuProtocol {
    /// The identifier that heads the frame of this command.
    pub fn type_id(&self) -> (id: u32)
        ensures
            id == self@.type_id(),
    {
        match self {
            KumquatGpuProtocol::OkNoData => KUMQUAT_GPU_PROTOCOL_RESP_NODATA,
            KumquatGpuProtocol::GetNumCapsets => KUMQUAT_GPU_PROTOCOL_GET_NUM_CAPSETS,
            KumquatGpuProtocol::GetCapsetInfo(_) => KUMQUAT_GPU_PROTOCOL_GET_CAPSET_INFO,
            KumquatGpuProtocol::GetCapset(_) => KUMQUAT_GPU_PROTOCOL_GET_CAPSET,
            KumquatGpuProtocol::CtxCreate(_) => KUMQUAT_GPU_PROTOCOL_CTX_CREATE,
            KumquatGpuProtocol::CtxDestroy(_) => KUMQUAT_GPU_PROTOCOL_CTX_DESTROY,
            KumquatGpuProtocol::CtxAttachResource(_) => KUMQUAT_GPU_PROTOCOL_CTX_ATTACH_RESOURCE,
            KumquatGpuProtocol::CtxDetachResource(_) => KUMQUAT_GPU_PROTOCOL_CTX_DETACH_RESOURCE,
            KumquatGpuProtocol::ResourceCreate3d(_) => KUMQUAT_GPU_PROTOCOL_RESOURCE_CREATE_3D,
            KumquatGpuProtocol::TransferToHost3d(_, _) => KUMQUAT_GPU_PROTOCOL_TRANSFER_TO_HOST_3D,
            KumquatGpuProtocol::TransferFromHost3d(_, _) => KUMQUAT_GPU_PROTOCOL_TRANSFER_FROM_HOST_3D,
            KumquatGpuProtocol::CmdSubmit3d(_, _, _) => KUMQUAT_GPU_PROTOCOL_SUBMIT_3D,
            KumquatGpuProtocol::ResourceCreateBlob(_) => KUMQUAT_GPU_PROTOCOL_RESOURCE_CREATE_BLOB,
            KumquatGpuProtocol::SnapshotSave => KUMQUAT_GPU_PROTOCOL_SNAPSHOT_SAVE,
            KumquatGpuProtocol::SnapshotRestore => KUMQUAT_GPU_PROTOCOL_SNAPSHOT_RESTORE,
            KumquatGpuProtocol::RespNumCapsets(_) => KUMQUAT_GPU_PROTOCOL_RESP_NUM_CAPSETS,
            KumquatGpuProtocol::RespCapsetInfo(_) => KUMQUAT_GPU_PROTOCOL_RESP_CAPSET_INFO,
            KumquatGpuProtocol::RespCapset(_) => KUMQUAT_GPU_PROTOCOL_RESP_CAPSET,
            KumquatGpuProtocol::RespContextCreate(_) => KUMQUAT_GPU_PROTOCOL_RESP_CONTEXT_CREATE,
            KumquatGpuProtocol::RespResourceCreate(_, _) => KUMQUAT_GPU_PROTOCOL_RESP_RESOURCE_CREATE,
            KumquatGpuProtocol::RespCmdSubmit3d(_, _) => KUMQUAT_GPU_PROTOCOL_RESP_CMD_SUBMIT_3D,
            KumquatGpuProtocol::RespOkSnapshot => KUMQUAT_GPU_PROTOCOL_RESP_OK_SNAPSHOT,
        }
    }

    /// Decodes the frame `bytes`, which is one whole command or response.
    ///
    /// `handle` is the handle that came with the frame, if one did. A
    /// command that carries a handle takes it out of `handle`; where
    /// decoding fails, the handle stays where it was, so that it is never
    /// lost or closed here.
    pub fn decode(bytes: &[u8], handle: &mut Option<MesaHandle>) -> (r: Result<
        KumquatGpuProtocol,
        ProtocolError,
    >)
        ensures
            match r {
                Ok(c) => parse_frame(bytes@, *old(handle)) == Ok::<
                    KumquatGpuProtocolView,
                    ProtocolError,
                >(c@) && *final(handle) == None::<MesaHandle>,
                Err(e) => parse_frame(bytes@, *old(handle)) == Err::<
                    KumquatGpuProtocolView,
                    ProtocolError,
                >(e) && *final(handle) == *old(handle),
            },
    {
        if bytes.len() < 8 {
            return Err(ProtocolError::Truncated);
        }
        let hdr = kumquat_gpu_protocol_ctrl_hdr::decode_at(bytes, 0);
        let id: u32 = hdr.type_;
        let fixed: usize = match fixed_size(id) {
            Some(n) => n,
            None => {
                return Err(ProtocolError::UnknownCommand);
            },
        };
        if bytes.len() < fixed {
            return Err(ProtocolError::Truncated);
        }
        if expects_handle(id) {
            if handle.is_none() {
                return Err(ProtocolError::MissingHandle);
            }
        } else if handle.is_some() {
            return Err(ProtocolError::HandleNotExpected);
        }
        if id == KUMQUAT_GPU_PROTOCOL_SUBMIT_3D {
            return decode_submit(bytes);
        }
        if id == KUMQUAT_GPU_PROTOCOL_RESP_CAPSET {
            let blob = slice_to_vec(slice_subrange(bytes, 8, bytes.len()));
            return Ok(KumquatGpuProtocol::RespCapset(blob));
        }
        if bytes.len() != fixed {
            return Err(ProtocolError::Malformed);
        }
        let command = if id == KUMQUAT_GPU_PROTOCOL_GET_NUM_CAPSETS {
            KumquatGpuProtocol::GetNumCapsets
        } else if id == KUMQUAT_GPU_PROTOCOL_GET_CAPSET_INFO {
            KumquatGpuProtocol::GetCapsetInfo(hdr.payload)
        } else if id == KUMQUAT_GPU_PROTOCOL_GET_CAPSET {
            KumquatGpuProtocol::GetCapset(WireLayout::decode_at(bytes, 0))
        } else if id == KUMQUAT_GPU_PROTOCOL_RESOURCE_CREATE_BLOB {
            KumquatGpuProtocol::ResourceCreateBlob(WireLayout::decode_at(bytes, 0))
        } else if id == KUMQUAT_GPU_PROTOCOL_CTX_CREATE {
            KumquatGpuProtocol::CtxCreate(WireLayout::decode_at(bytes, 0))
        } else if id == KUMQUAT_GPU_PROTOCOL_CTX_DESTROY {
            KumquatGpuProtocol::CtxDestroy(hdr.payload)
        } else if id == KUMQUAT_GPU_PROTOCOL_CTX_ATTACH_RESOURCE {
            KumquatGpuProtocol::CtxAttachResource(WireLayout::decode_at(bytes, 0))
        } else if id == KUMQUAT_GPU_PROTOCOL_CTX_DETACH_RESOURCE {
            KumquatGpuProtocol::CtxDetachResource(WireLayout::decode_at(bytes, 0))
        } else if id == KUMQUAT_GPU_PROTOCOL_RESOURCE_CREATE_3D {
            KumquatGpuProtocol::ResourceCreate3d(WireLayout::decode_at(bytes, 0))
        } else if id == KUMQUAT_GPU_PROTOCOL_TRANSFER_TO_HOST_3D {
            let h = handle.take().unwrap();
            KumquatGpuProtocol::TransferToHost3d(WireLayout::decode_at(bytes, 0), h)
        } else if id == KUMQUAT_GPU_PROTOCOL_TRANSFER_FROM_HOST_3D {
            let h = handle.take().unwrap();
            KumquatGpuProtocol::TransferFromHost3d(WireLayout::decode_at(bytes, 0), h)
        } else if id == KUMQUAT_GPU_PROTOCOL_SNAPSHOT_SAVE {
            KumquatGpuProtocol::SnapshotSave
        } else if id == KUMQUAT_GPU_PROTOCOL_SNAPSHOT_RESTORE {
            KumquatGpuProtocol::SnapshotRestore
        } else if id == KUMQUAT_GPU_PROTOCOL_RESP_NODATA {
            KumquatGpuProtocol::OkNoData
        } else if id == KUMQUAT_GPU_PROTOCOL_RESP_NUM_CAPSETS {
            KumquatGpuProtocol::RespNumCapsets(hdr.payload)
        } else if id == KUMQUAT_GPU_PROTOCOL_RESP_CAPSET_INFO {
            KumquatGpuProtocol::RespCapsetInfo(WireLayout::decode_at(bytes, 0))
        } else if id == KUMQUAT_GPU_PROTOCOL_RESP_CONTEXT_CREATE {
            KumquatGpuProtocol::RespContextCreate(hdr.payload)
        } else if id == KUMQUAT_GPU_PROTOCOL_RESP_RESOURCE_CREATE {
            let h = handle.take().unwrap();
            KumquatGpuProtocol::RespResourceCreate(WireLayout::decode_at(bytes, 0), h)
        } else if id == KUMQUAT_GPU_PROTOCOL_RESP_CMD_SUBMIT_3D {
            let resp = kumquat_gpu_protocol_resp_cmd_submit_3d::decode_at(bytes, 0);
            let h = handle.take().unwrap();
            KumquatGpuProtocol::RespCmdSubmit3d(resp.fence_id, h)
        } else {
            KumquatGpuProtocol::RespOkSnapshot
        };
        Ok(command)
    }
}

} // verus!
