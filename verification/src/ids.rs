//! The command identifiers, and what each one says about the frame that it
//! heads.
//!
//! Commands have identifiers from `0x100` on and from `0x200` on, responses
//! from `0x3001` on. Two numbers carry two names each: `0x208` and `0x209`
//! name the mapping and unmapping of a blob as well as the saving and
//! restoring of a snapshot. The envelope has variants for the snapshot
//! commands and none for the blob mappings, so in a frame these two numbers
//! mean `SnapshotSave` and `SnapshotRestore`; the other two names are kept as
//! constants only. `RESOURCE_UNREF` has no variant either, and a frame headed
//! by it is refused like one with a number that has no name.

use vstd::prelude::*;

verus! {

/* 2d commands */

pub const KUMQUAT_GPU_PROTOCOL_RESOURCE_UNREF: u32 = 0x100;

pub const KUMQUAT_GPU_PROTOCOL_GET_NUM_CAPSETS: u32 = 0x101;

pub const KUMQUAT_GPU_PROTOCOL_GET_CAPSET_INFO: u32 = 0x102;

pub const KUMQUAT_GPU_PROTOCOL_GET_CAPSET: u32 = 0x103;

pub const KUMQUAT_GPU_PROTOCOL_RESOURCE_CREATE_BLOB: u32 = 0x104;

/* 3d commands */

pub const KUMQUAT_GPU_PROTOCOL_CTX_CREATE: u32 = 0x200;

pub const KUMQUAT_GPU_PROTOCOL_CTX_DESTROY: u32 = 0x201;

pub const KUMQUAT_GPU_PROTOCOL_CTX_ATTACH_RESOURCE: u32 = 0x202;

pub const KUMQUAT_GPU_PROTOCOL_CTX_DETACH_RESOURCE: u32 = 0x203;

pub const KUMQUAT_GPU_PROTOCOL_RESOURCE_CREATE_3D: u32 = 0x204;

pub const KUMQUAT_GPU_PROTOCOL_TRANSFER_TO_HOST_3D: u32 = 0x205;

pub const KUMQUAT_GPU_PROTOCOL_TRANSFER_FROM_HOST_3D: u32 = 0x206;

pub const KUMQUAT_GPU_PROTOCOL_SUBMIT_3D: u32 = 0x207;

pub const KUMQUAT_GPU_PROTOCOL_RESOURCE_MAP_BLOB: u32 = 0x208;

pub const KUMQUAT_GPU_PROTOCOL_RESOURCE_UNMAP_BLOB: u32 = 0x209;

pub const KUMQUAT_GPU_PROTOCOL_SNAPSHOT_SAVE: u32 = 0x208;

pub const KUMQUAT_GPU_PROTOCOL_SNAPSHOT_RESTORE: u32 = 0x209;

/* success responses */

pub const KUMQUAT_GPU_PROTOCOL_RESP_NODATA: u32 = 0x3001;

pub const KUMQUAT_GPU_PROTOCOL_RESP_NUM_CAPSETS: u32 = 0x3002;

pub const KUMQUAT_GPU_PROTOCOL_RESP_CAPSET_INFO: u32 = 0x3003;

pub const KUMQUAT_GPU_PROTOCOL_RESP_CAPSET: u32 = 0x3004;

pub const KUMQUAT_GPU_PROTOCOL_RESP_CONTEXT_CREATE: u32 = 0x3005;

pub const KUMQUAT_GPU_PROTOCOL_RESP_RESOURCE_CREATE: u32 = 0x3006;

pub const KUMQUAT_GPU_PROTOCOL_RESP_CMD_SUBMIT_3D: u32 = 0x3007;

pub const KUMQUAT_GPU_PROTOCOL_RESP_OK_SNAPSHOT: u32 = 0x3008;

/// Whether `id` is in the ranges of the commands.
pub open spec fn is_command(id: u32) -> bool {
    0x100 <= id <= 0x104 || 0x200 <= id <= 0x209
}

/// Whether `id` is in the range of the responses.
pub open spec fn is_response(id: u32) -> bool {
    0x3001 <= id <= 0x3008
}

/// Whether a frame headed by `id` can be decoded at all: `id` is a command's
/// or a response's, and the envelope has a variant for it.
pub open spec fn recognized(id: u32) -> bool {
    (is_command(id) || is_response(id)) && id != KUMQUAT_GPU_PROTOCOL_RESOURCE_UNREF
}

/// How many bytes the fixed-size part of a frame headed by `id` has: the
/// command's struct where it has one, and the bare header where it has none.
pub open spec fn fixed_len(id: u32) -> nat {
    if id == KUMQUAT_GPU_PROTOCOL_GET_CAPSET {
        16
    } else if id == KUMQUAT_GPU_PROTOCOL_RESOURCE_CREATE_BLOB {
        40
    } else if id == KUMQUAT_GPU_PROTOCOL_CTX_CREATE {
        80
    } else if id == KUMQUAT_GPU_PROTOCOL_CTX_ATTACH_RESOURCE || id
        == KUMQUAT_GPU_PROTOCOL_CTX_DETACH_RESOURCE {
        16
    } else if id == KUMQUAT_GPU_PROTOCOL_RESOURCE_CREATE_3D {
        60
    } else if id == KUMQUAT_GPU_PROTOCOL_TRANSFER_TO_HOST_3D || id
        == KUMQUAT_GPU_PROTOCOL_TRANSFER_FROM_HOST_3D {
        64
    } else if id == KUMQUAT_GPU_PROTOCOL_SUBMIT_3D {
        32
    } else if id == KUMQUAT_GPU_PROTOCOL_RESP_CAPSET_INFO {
        24
    } else if id == KUMQUAT_GPU_PROTOCOL_RESP_RESOURCE_CREATE {
        52
    } else if id == KUMQUAT_GPU_PROTOCOL_RESP_CMD_SUBMIT_3D {
        24
    } else {
        8
    }
}

/// Whether a handle travels beside a frame headed by `id`.
pub open spec fn carries_handle(id: u32) -> bool {
    id == KUMQUAT_GPU_PROTOCOL_TRANSFER_TO_HOST_3D || id
        == KUMQUAT_GPU_PROTOCOL_TRANSFER_FROM_HOST_3D || id
        == KUMQUAT_GPU_PROTOCOL_RESP_RESOURCE_CREATE || id
        == KUMQUAT_GPU_PROTOCOL_RESP_CMD_SUBMIT_3D
}

/// The length of the fixed-size part of a frame headed by `id`, or `None`
/// where `id` is not recognized.
pub fn fixed_size(id: u32) -> (n: Option<usize>)
    ensures
        n == if recognized(id) {
            Some(fixed_len(id) as usize)
        } else {
            None
        },
{
    if id == KUMQUAT_GPU_PROTOCOL_GET_NUM_CAPSETS || id == KUMQUAT_GPU_PROTOCOL_GET_CAPSET_INFO
        || id == KUMQUAT_GPU_PROTOCOL_CTX_DESTROY || id == KUMQUAT_GPU_PROTOCOL_SNAPSHOT_SAVE || id
        == KUMQUAT_GPU_PROTOCOL_SNAPSHOT_RESTORE || id == KUMQUAT_GPU_PROTOCOL_RESP_NODATA || id
        == KUMQUAT_GPU_PROTOCOL_RESP_NUM_CAPSETS || id == KUMQUAT_GPU_PROTOCOL_RESP_CAPSET || id
        == KUMQUAT_GPU_PROTOCOL_RESP_CONTEXT_CREATE || id == KUMQUAT_GPU_PROTOCOL_RESP_OK_SNAPSHOT {
        Some(8)
    } else if id == KUMQUAT_GPU_PROTOCOL_GET_CAPSET || id
        == KUMQUAT_GPU_PROTOCOL_CTX_ATTACH_RESOURCE || id
        == KUMQUAT_GPU_PROTOCOL_CTX_DETACH_RESOURCE {
        Some(16)
    } else if id == KUMQUAT_GPU_PROTOCOL_RESOURCE_CREATE_BLOB {
        Some(40)
    } else if id == KUMQUAT_GPU_PROTOCOL_CTX_CREATE {
        Some(80)
    } else if id == KUMQUAT_GPU_PROTOCOL_RESOURCE_CREATE_3D {
        Some(60)
    } else if id == KUMQUAT_GPU_PROTOCOL_TRANSFER_TO_HOST_3D || id
        == KUMQUAT_GPU_PROTOCOL_TRANSFER_FROM_HOST_3D {
        Some(64)
    } else if id == KUMQUAT_GPU_PROTOCOL_SUBMIT_3D {
        Some(32)
    } else if id == KUMQUAT_GPU_PROTOCOL_RESP_CAPSET_INFO || id
        == KUMQUAT_GPU_PROTOCOL_RESP_CMD_SUBMIT_3D {
        Some(24)
    } else if id == KUMQUAT_GPU_PROTOCOL_RESP_RESOURCE_CREATE {
        Some(52)
    } else {
        None
    }
}

/// Whether a handle travels beside a frame headed by `id`.
pub fn expects_handle(id: u32) -> (b: bool)
    ensures
        b == carries_handle(id),
{
    id == KUMQUAT_GPU_PROTOCOL_TRANSFER_TO_HOST_3D || id
        == KUMQUAT_GPU_PROTOCOL_TRANSFER_FROM_HOST_3D || id
        == KUMQUAT_GPU_PROTOCOL_RESP_RESOURCE_CREATE || id
        == KUMQUAT_GPU_PROTOCOL_RESP_CMD_SUBMIT_3D
}

} // verus!
