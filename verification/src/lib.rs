//! Wire encoding of the kumquat GPU command protocol.
//!
//! Every frame starts with an eight-byte control header; the command
//! identifier in it selects a fixed-size payload struct and, for a few
//! commands, trailing data. All integers travel little-endian, and no struct
//! has padding that is not a named field.
//!
//! The structs and their wire images are in `header`, `device`, `commands`
//! and `responses`, behind the trait `layout::WireLayout`. `envelope` decodes
//! a whole frame into a `KumquatGpuProtocol`; `write` makes a frame from a
//! `KumquatGpuProtocolWrite`. What holds of the two together is proved in
//! `laws`.

pub mod commands;
pub mod device;
pub mod envelope;
pub mod error;
pub mod handle;
pub mod header;
pub mod ids;
pub mod laws;
pub mod layout;
pub mod le;
pub mod responses;
pub mod write;

pub use commands::{
    kumquat_gpu_protocol_box, kumquat_gpu_protocol_cmd_submit, kumquat_gpu_protocol_ctx_create,
    kumquat_gpu_protocol_ctx_resource, kumquat_gpu_protocol_get_capset,
    kumquat_gpu_protocol_resource_create_3d, kumquat_gpu_protocol_resource_create_blob,
    kumquat_gpu_protocol_transfer_host_3d,
};
pub use device::{DeviceId, VulkanInfo};
pub use envelope::KumquatGpuProtocol;
pub use error::ProtocolError;
pub use header::kumquat_gpu_protocol_ctrl_hdr;
pub use ids::{
    KUMQUAT_GPU_PROTOCOL_CTX_ATTACH_RESOURCE, KUMQUAT_GPU_PROTOCOL_CTX_CREATE,
    KUMQUAT_GPU_PROTOCOL_CTX_DESTROY, KUMQUAT_GPU_PROTOCOL_CTX_DETACH_RESOURCE,
    KUMQUAT_GPU_PROTOCOL_GET_CAPSET, KUMQUAT_GPU_PROTOCOL_GET_CAPSET_INFO,
    KUMQUAT_GPU_PROTOCOL_GET_NUM_CAPSETS, KUMQUAT_GPU_PROTOCOL_RESOURCE_CREATE_3D,
    KUMQUAT_GPU_PROTOCOL_RESOURCE_CREATE_BLOB, KUMQUAT_GPU_PROTOCOL_RESOURCE_MAP_BLOB,
    KUMQUAT_GPU_PROTOCOL_RESOURCE_UNMAP_BLOB, KUMQUAT_GPU_PROTOCOL_RESOURCE_UNREF,
    KUMQUAT_GPU_PROTOCOL_RESP_CAPSET, KUMQUAT_GPU_PROTOCOL_RESP_CAPSET_INFO,
    KUMQUAT_GPU_PROTOCOL_RESP_CMD_SUBMIT_3D, KUMQUAT_GPU_PROTOCOL_RESP_CONTEXT_CREATE,
    KUMQUAT_GPU_PROTOCOL_RESP_NODATA, KUMQUAT_GPU_PROTOCOL_RESP_NUM_CAPSETS,
    KUMQUAT_GPU_PROTOCOL_RESP_OK_SNAPSHOT, KUMQUAT_GPU_PROTOCOL_RESP_RESOURCE_CREATE,
    KUMQUAT_GPU_PROTOCOL_SNAPSHOT_RESTORE, KUMQUAT_GPU_PROTOCOL_SNAPSHOT_SAVE,
    KUMQUAT_GPU_PROTOCOL_SUBMIT_3D, KUMQUAT_GPU_PROTOCOL_TRANSFER_FROM_HOST_3D,
    KUMQUAT_GPU_PROTOCOL_TRANSFER_TO_HOST_3D,
};
pub use layout::{decode, encode, WireLayout};
pub use responses::{
    kumquat_gpu_protocol_resp_capset_info, kumquat_gpu_protocol_resp_cmd_submit_3d,
    kumquat_gpu_protocol_resp_resource_create,
};
pub use write::{submit_trailer, KumquatGpuProtocolWrite};
