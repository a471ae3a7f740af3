use kumquat_gpu_protocol::{
    encode, kumquat_gpu_protocol_box, kumquat_gpu_protocol_cmd_submit,
    kumquat_gpu_protocol_ctrl_hdr, kumquat_gpu_protocol_ctx_create,
    kumquat_gpu_protocol_ctx_resource, kumquat_gpu_protocol_get_capset,
    kumquat_gpu_protocol_resource_create_3d, kumquat_gpu_protocol_resource_create_blob,
    kumquat_gpu_protocol_resp_capset_info, kumquat_gpu_protocol_resp_cmd_submit_3d,
    kumquat_gpu_protocol_resp_resource_create, kumquat_gpu_protocol_transfer_host_3d,
    KumquatGpuProtocol, ProtocolError, KUMQUAT_GPU_PROTOCOL_CTX_ATTACH_RESOURCE,
    KUMQUAT_GPU_PROTOCOL_CTX_CREATE, KUMQUAT_GPU_PROTOCOL_CTX_DESTROY,
    KUMQUAT_GPU_PROTOCOL_CTX_DETACH_RESOURCE, KUMQUAT_GPU_PROTOCOL_GET_CAPSET,
    KUMQUAT_GPU_PROTOCOL_GET_CAPSET_INFO, KUMQUAT_GPU_PROTOCOL_GET_NUM_CAPSETS,
    KUMQUAT_GPU_PROTOCOL_RESOURCE_CREATE_3D, KUMQUAT_GPU_PROTOCOL_RESOURCE_CREATE_BLOB,
    KUMQUAT_GPU_PROTOCOL_RESOURCE_MAP_BLOB, KUMQUAT_GPU_PROTOCOL_RESOURCE_UNMAP_BLOB,
    KUMQUAT_GPU_PROTOCOL_RESOURCE_UNREF, KUMQUAT_GPU_PROTOCOL_RESP_CAPSET,
    KUMQUAT_GPU_PROTOCOL_RESP_CAPSET_INFO, KUMQUAT_GPU_PROTOCOL_RESP_CMD_SUBMIT_3D,
    KUMQUAT_GPU_PROTOCOL_RESP_CONTEXT_CREATE, KUMQUAT_GPU_PROTOCOL_RESP_NODATA,
    KUMQUAT_GPU_PROTOCOL_RESP_NUM_CAPSETS, KUMQUAT_GPU_PROTOCOL_RESP_OK_SNAPSHOT,
    KUMQUAT_GPU_PROTOCOL_RESP_RESOURCE_CREATE, KUMQUAT_GPU_PROTOCOL_SNAPSHOT_RESTORE,
    KUMQUAT_GPU_PROTOCOL_SNAPSHOT_SAVE, KUMQUAT_GPU_PROTOCOL_SUBMIT_3D,
    KUMQUAT_GPU_PROTOCOL_TRANSFER_FROM_HOST_3D, KUMQUAT_GPU_PROTOCOL_TRANSFER_TO_HOST_3D,
};
use kumquat_gpu_protocol::ids::{expects_handle, fixed_size};
use mesa3d_util::{AsRawDescriptor, Event, MesaHandle, RawDescriptor};

fn hdr(type_: u32, payload: u32) -> kumquat_gpu_protocol_ctrl_hdr {
    kumquat_gpu_protocol_ctrl_hdr { type_, payload }
}

fn a_handle() -> MesaHandle {
    Event::new().expect("an event of the platform").into()
}

fn raw(handle: &MesaHandle) -> RawDescriptor {
    handle.os_handle.as_raw_descriptor()
}

fn decode_alone(bytes: &[u8]) -> Result<KumquatGpuProtocol, ProtocolError> {
    let mut none = None;
    let r = KumquatGpuProtocol::decode(bytes, &mut none);
    assert!(none.is_none());
    r
}

fn failure(bytes: &[u8], handle: &mut Option<MesaHandle>) -> ProtocolError {
    match KumquatGpuProtocol::decode(bytes, handle) {
        Ok(command) => panic!("decoded to {:?}", command),
        Err(e) => e,
    }
}

fn transfer(type_: u32) -> kumquat_gpu_protocol_transfer_host_3d {
    kumquat_gpu_protocol_transfer_host_3d {
        hdr: hdr(type_, 0),
        box_: kumquat_gpu_protocol_box { x: 0, y: 0, z: 0, w: 64, h: 32, d: 1 },
        offset: 4096,
        level: 0,
        stride: 256,
        layer_stride: 0,
        ctx_id: 1,
        resource_id: 2,
        padding: 0,
    }
}

fn submit(num_in_fences: u32, size: u32) -> kumquat_gpu_protocol_cmd_submit {
    kumquat_gpu_protocol_cmd_submit {
        hdr: hdr(KUMQUAT_GPU_PROTOCOL_SUBMIT_3D, 0),
        ctx_id: 7,
        pad: 0,
        size,
        num_in_fences,
        flags: 1,
        ring_idx: 2,
        padding: [0; 3],
    }
}

fn submit_frame(num_in_fences: u32, size: u32, trailing: usize) -> Vec<u8> {
    let mut frame = encode(&submit(num_in_fences, size));
    for i in 0..trailing {
        frame.push(i as u8);
    }
    frame
}

#[test]
fn identifiers_have_their_numbers() {
    assert_eq!(KUMQUAT_GPU_PROTOCOL_RESOURCE_UNREF, 0x100);
    assert_eq!(KUMQUAT_GPU_PROTOCOL_GET_NUM_CAPSETS, 0x101);
    assert_eq!(KUMQUAT_GPU_PROTOCOL_GET_CAPSET_INFO, 0x102);
    assert_eq!(KUMQUAT_GPU_PROTOCOL_GET_CAPSET, 0x103);
    assert_eq!(KUMQUAT_GPU_PROTOCOL_RESOURCE_CREATE_BLOB, 0x104);
    assert_eq!(KUMQUAT_GPU_PROTOCOL_CTX_CREATE, 0x200);
    assert_eq!(KUMQUAT_GPU_PROTOCOL_CTX_DESTROY, 0x201);
    assert_eq!(KUMQUAT_GPU_PROTOCOL_CTX_ATTACH_RESOURCE, 0x202);
    assert_eq!(KUMQUAT_GPU_PROTOCOL_CTX_DETACH_RESOURCE, 0x203);
    assert_eq!(KUMQUAT_GPU_PROTOCOL_RESOURCE_CREATE_3D, 0x204);
    assert_eq!(KUMQUAT_GPU_PROTOCOL_TRANSFER_TO_HOST_3D, 0x205);
    assert_eq!(KUMQUAT_GPU_PROTOCOL_TRANSFER_FROM_HOST_3D, 0x206);
    assert_eq!(KUMQUAT_GPU_PROTOCOL_SUBMIT_3D, 0x207);
    assert_eq!(KUMQUAT_GPU_PROTOCOL_RESOURCE_MAP_BLOB, 0x208);
    assert_eq!(KUMQUAT_GPU_PROTOCOL_RESOURCE_UNMAP_BLOB, 0x209);
    assert_eq!(KUMQUAT_GPU_PROTOCOL_SNAPSHOT_SAVE, 0x208);
    assert_eq!(KUMQUAT_GPU_PROTOCOL_SNAPSHOT_RESTORE, 0x209);
    assert_eq!(KUMQUAT_GPU_PROTOCOL_RESP_NODATA, 0x3001);
    assert_eq!(KUMQUAT_GPU_PROTOCOL_RESP_NUM_CAPSETS, 0x3002);
    assert_eq!(KUMQUAT_GPU_PROTOCOL_RESP_CAPSET_INFO, 0x3003);
    assert_eq!(KUMQUAT_GPU_PROTOCOL_RESP_CAPSET, 0x3004);
    assert_eq!(KUMQUAT_GPU_PROTOCOL_RESP_CONTEXT_CREATE, 0x3005);
    assert_eq!(KUMQUAT_GPU_PROTOCOL_RESP_RESOURCE_CREATE, 0x3006);
    assert_eq!(KUMQUAT_GPU_PROTOCOL_RESP_CMD_SUBMIT_3D, 0x3007);
    assert_eq!(KUMQUAT_GPU_PROTOCOL_RESP_OK_SNAPSHOT, 0x3008);
}

#[test]
fn fixed_sizes_by_identifier() {
    assert_eq!(fixed_size(0x101), Some(8));
    assert_eq!(fixed_size(0x102), Some(8));
    assert_eq!(fixed_size(0x103), Some(16));
    assert_eq!(fixed_size(0x104), Some(40));
    assert_eq!(fixed_size(0x200), Some(80));
    assert_eq!(fixed_size(0x201), Some(8));
    assert_eq!(fixed_size(0x202), Some(16));
    assert_eq!(fixed_size(0x203), Some(16));
    assert_eq!(fixed_size(0x204), Some(60));
    assert_eq!(fixed_size(0x205), Some(64));
    assert_eq!(fixed_size(0x206), Some(64));
    assert_eq!(fixed_size(0x207), Some(32));
    assert_eq!(fixed_size(0x208), Some(8));
    assert_eq!(fixed_size(0x209), Some(8));
    assert_eq!(fixed_size(0x3001), Some(8));
    assert_eq!(fixed_size(0x3002), Some(8));
    assert_eq!(fixed_size(0x3003), Some(24));
    assert_eq!(fixed_size(0x3004), Some(8));
    assert_eq!(fixed_size(0x3005), Some(8));
    assert_eq!(fixed_size(0x3006), Some(52));
    assert_eq!(fixed_size(0x3007), Some(24));
    assert_eq!(fixed_size(0x3008), Some(8));
    for id in [0u32, 0xff, 0x100, 0x105, 0x1ff, 0x20a, 0x3000, 0x3009, u32::MAX] {
        assert_eq!(fixed_size(id), None);
    }
}

#[test]
fn four_commands_carry_a_handle() {
    for id in 0..0x4000u32 {
        assert_eq!(expects_handle(id), [0x205, 0x206, 0x3006, 0x3007].contains(&id));
    }
}

#[test]
fn bare_headers_decode_to_their_commands() {
    assert!(matches!(decode_alone(&encode(&hdr(0x101, 0))), Ok(KumquatGpuProtocol::GetNumCapsets)));
    assert!(matches!(decode_alone(&encode(&hdr(0x208, 0))), Ok(KumquatGpuProtocol::SnapshotSave)));
    assert!(matches!(
        decode_alone(&encode(&hdr(0x209, 0))),
        Ok(KumquatGpuProtocol::SnapshotRestore)
    ));
    assert!(matches!(decode_alone(&encode(&hdr(0x3001, 0))), Ok(KumquatGpuProtocol::OkNoData)));
    assert!(matches!(
        decode_alone(&encode(&hdr(0x3008, 0))),
        Ok(KumquatGpuProtocol::RespOkSnapshot)
    ));
    // The auxiliary word of such a command is free.
    assert!(matches!(
        decode_alone(&encode(&hdr(0x101, 0xffff_ffff))),
        Ok(KumquatGpuProtocol::GetNumCapsets)
    ));
}

#[test]
fn single_numbers_travel_in_the_auxiliary_word() {
    assert!(matches!(
        decode_alone(&encode(&hdr(0x102, 3))),
        Ok(KumquatGpuProtocol::GetCapsetInfo(3))
    ));
    assert!(matches!(
        decode_alone(&encode(&hdr(0x201, 0xabcd))),
        Ok(KumquatGpuProtocol::CtxDestroy(0xabcd))
    ));
    assert!(matches!(
        decode_alone(&encode(&hdr(0x3002, 2))),
        Ok(KumquatGpuProtocol::RespNumCapsets(2))
    ));
    assert!(matches!(
        decode_alone(&encode(&hdr(0x3005, u32::MAX))),
        Ok(KumquatGpuProtocol::RespContextCreate(u32::MAX))
    ));
}

#[test]
fn structs_decode_to_their_commands() {
    let get = kumquat_gpu_protocol_get_capset { hdr: hdr(0x103, 0), capset_id: 1, capset_version: 2 };
    match decode_alone(&encode(&get)) {
        Ok(KumquatGpuProtocol::GetCapset(c)) => assert_eq!(c, get),
        other => panic!("{:?}", other),
    }
    let attach = kumquat_gpu_protocol_ctx_resource { hdr: hdr(0x202, 0), ctx_id: 1, resource_id: 2 };
    match decode_alone(&encode(&attach)) {
        Ok(KumquatGpuProtocol::CtxAttachResource(c)) => assert_eq!(c, attach),
        other => panic!("{:?}", other),
    }
    let detach = kumquat_gpu_protocol_ctx_resource { hdr: hdr(0x203, 0), ctx_id: 1, resource_id: 2 };
    match decode_alone(&encode(&detach)) {
        Ok(KumquatGpuProtocol::CtxDetachResource(c)) => assert_eq!(c, detach),
        other => panic!("{:?}", other),
    }
    let create = kumquat_gpu_protocol_resource_create_3d {
        hdr: hdr(0x204, 0),
        target: 2,
        format: 3,
        bind: 4,
        width: 5,
        height: 6,
        depth: 7,
        array_size: 8,
        last_level: 9,
        nr_samples: 10,
        flags: 11,
        size: 12,
        stride: 13,
        ctx_id: 14,
    };
    match decode_alone(&encode(&create)) {
        Ok(KumquatGpuProtocol::ResourceCreate3d(c)) => assert_eq!(c, create),
        other => panic!("{:?}", other),
    }
    let blob = kumquat_gpu_protocol_resource_create_blob {
        hdr: hdr(0x104, 0),
        ctx_id: 1,
        blob_mem: 2,
        blob_flags: 3,
        padding: 0,
        blob_id: 4,
        size: 5,
    };
    match decode_alone(&encode(&blob)) {
        Ok(KumquatGpuProtocol::ResourceCreateBlob(c)) => assert_eq!(c, blob),
        other => panic!("{:?}", other),
    }
    let info = kumquat_gpu_protocol_resp_capset_info {
        hdr: hdr(0x3003, 0),
        capset_id: 1,
        version: 2,
        size: 3,
        padding: 0,
    };
    match decode_alone(&encode(&info)) {
        Ok(KumquatGpuProtocol::RespCapsetInfo(c)) => assert_eq!(c, info),
        other => panic!("{:?}", other),
    }
}

#[test]
fn ctx_create_frame_keeps_name_and_length() {
    let mut debug_name = [0u8; 64];
    debug_name[..5].copy_from_slice(b"test\0");
    let create = kumquat_gpu_protocol_ctx_create {
        hdr: hdr(KUMQUAT_GPU_PROTOCOL_CTX_CREATE, 0),
        nlen: 5,
        context_init: 0,
        debug_name,
    };
    match decode_alone(&encode(&create)) {
        Ok(KumquatGpuProtocol::CtxCreate(c)) => {
            assert_eq!(c.nlen, 5);
            assert_eq!(c.debug_name, debug_name);
            assert_eq!(c.hdr.type_, 0x200);
        },
        other => panic!("{:?}", other),
    }
}

#[test]
fn type_id_names_the_variant() {
    for id in 0..0x4000u32 {
        let Some(len) = fixed_size(id) else { continue };
        let mut frame = encode(&hdr(id, 0));
        frame.resize(len, 0);
        let mut handle = if expects_handle(id) { Some(a_handle()) } else { None };
        let command = KumquatGpuProtocol::decode(&frame, &mut handle).expect("a whole frame");
        assert_eq!(command.type_id(), id);
    }
    assert_eq!(KumquatGpuProtocol::GetCapsetInfo(1).type_id(), 0x102);
    assert_eq!(KumquatGpuProtocol::RespCapset(vec![1, 2]).type_id(), 0x3004);
    assert_eq!(KumquatGpuProtocol::RespCmdSubmit3d(1, a_handle()).type_id(), 0x3007);
}

#[test]
fn decoded_struct_starts_with_the_frame_header() {
    let mut frame = encode(&hdr(0x204, 0x5555_aaaa));
    frame.resize(60, 0);
    match decode_alone(&frame) {
        Ok(KumquatGpuProtocol::ResourceCreate3d(c)) => assert_eq!(c.hdr, hdr(0x204, 0x5555_aaaa)),
        other => panic!("{:?}", other),
    }
}

#[test]
fn frame_shorter_than_a_header_is_truncated() {
    let frame = encode(&hdr(0x101, 0));
    for k in 0..8 {
        assert_eq!(failure(&frame[..k], &mut None), ProtocolError::Truncated);
    }
}

#[test]
fn frame_shorter_than_its_struct_is_truncated() {
    let frame = encode(&transfer(KUMQUAT_GPU_PROTOCOL_TRANSFER_TO_HOST_3D));
    for k in 0..64 {
        assert_eq!(failure(&frame[..k], &mut None), ProtocolError::Truncated);
        let mut handle = Some(a_handle());
        assert_eq!(failure(&frame[..k], &mut handle), ProtocolError::Truncated);
        assert!(handle.is_some());
    }
    let frame = submit_frame(1, 1, 9);
    for k in 0..32 {
        assert_eq!(failure(&frame[..k], &mut None), ProtocolError::Truncated);
    }
    for k in 32..frame.len() {
        assert_eq!(failure(&frame[..k], &mut None), ProtocolError::Malformed);
    }
}

#[test]
fn unknown_identifiers_are_refused() {
    for id in [0u32, 1, 0xff, 0x100, 0x105, 0x1ff, 0x20a, 0x300, 0x3000, 0x3009, u32::MAX] {
        let mut frame = encode(&hdr(id, 0));
        assert_eq!(failure(&frame, &mut None), ProtocolError::UnknownCommand);
        frame.resize(200, 0);
        assert_eq!(failure(&frame, &mut None), ProtocolError::UnknownCommand);
        let mut handle = Some(a_handle());
        assert_eq!(failure(&frame, &mut handle), ProtocolError::UnknownCommand);
        assert!(handle.is_some());
    }
}

#[test]
fn bytes_after_a_fixed_size_command_are_malformed() {
    let mut frame = encode(&hdr(0x101, 0));
    frame.push(0);
    assert_eq!(failure(&frame, &mut None), ProtocolError::Malformed);
    let mut frame = encode(&kumquat_gpu_protocol_get_capset {
        hdr: hdr(0x103, 0),
        capset_id: 1,
        capset_version: 1,
    });
    frame.push(0);
    assert_eq!(failure(&frame, &mut None), ProtocolError::Malformed);
    let mut frame = encode(&transfer(0x206));
    frame.extend_from_slice(&[1, 2, 3]);
    let mut handle = Some(a_handle());
    assert_eq!(failure(&frame, &mut handle), ProtocolError::Malformed);
    assert!(handle.is_some());
}

#[test]
fn struct_of_one_command_under_the_identifier_of_another() {
    // A context creation relabelled as the request for a capability set:
    // eighty bytes where sixteen are due.
    let mut create = kumquat_gpu_protocol_ctx_create::default();
    create.hdr.type_ = KUMQUAT_GPU_PROTOCOL_GET_CAPSET;
    assert_eq!(failure(&encode(&create), &mut None), ProtocolError::Malformed);
    // The other way round the frame ends before the struct does.
    let mut get = kumquat_gpu_protocol_get_capset::default();
    get.hdr.type_ = KUMQUAT_GPU_PROTOCOL_CTX_CREATE;
    assert_eq!(failure(&encode(&get), &mut None), ProtocolError::Truncated);
    // A number that names nothing.
    get.hdr.type_ = 0x4242;
    assert_eq!(failure(&encode(&get), &mut None), ProtocolError::UnknownCommand);
}

#[test]
fn transfer_to_host_without_handle_is_missing_handle() {
    let frame = encode(&transfer(KUMQUAT_GPU_PROTOCOL_TRANSFER_TO_HOST_3D));
    assert_eq!(failure(&frame, &mut None), ProtocolError::MissingHandle);
}

#[test]
fn every_handle_command_without_handle_is_missing_handle() {
    for id in [0x205u32, 0x206, 0x3006, 0x3007] {
        let mut frame = encode(&hdr(id, 0));
        frame.resize(fixed_size(id).unwrap(), 0);
        assert_eq!(failure(&frame, &mut None), ProtocolError::MissingHandle);
    }
}

#[test]
fn handle_with_get_num_capsets_is_not_expected() {
    let frame = encode(&hdr(KUMQUAT_GPU_PROTOCOL_GET_NUM_CAPSETS, 0));
    let mut handle = Some(a_handle());
    let fd = raw(handle.as_ref().unwrap());
    assert_eq!(failure(&frame, &mut handle), ProtocolError::HandleNotExpected);
    // The handle is still the caller's, and open.
    assert_eq!(raw(handle.as_ref().unwrap()), fd);
    assert!(handle.unwrap().try_clone().is_ok());
}

#[test]
fn every_other_command_with_handle_is_not_expected() {
    for id in 0..0x4000u32 {
        let Some(len) = fixed_size(id) else { continue };
        if expects_handle(id) {
            continue;
        }
        let mut frame = encode(&hdr(id, 0));
        frame.resize(len, 0);
        let mut handle = Some(a_handle());
        assert_eq!(failure(&frame, &mut handle), ProtocolError::HandleNotExpected);
        assert!(handle.is_some());
    }
}

#[test]
fn transfers_take_the_handle_that_came() {
    for id in [KUMQUAT_GPU_PROTOCOL_TRANSFER_TO_HOST_3D, KUMQUAT_GPU_PROTOCOL_TRANSFER_FROM_HOST_3D] {
        let t = transfer(id);
        let mut handle = Some(a_handle());
        let fd = raw(handle.as_ref().unwrap());
        let command = KumquatGpuProtocol::decode(&encode(&t), &mut handle).unwrap();
        assert!(handle.is_none());
        match command {
            KumquatGpuProtocol::TransferToHost3d(c, h) => {
                assert_eq!(id, 0x205);
                assert_eq!(c, t);
                assert_eq!(raw(&h), fd);
            },
            KumquatGpuProtocol::TransferFromHost3d(c, h) => {
                assert_eq!(id, 0x206);
                assert_eq!(c, t);
                assert_eq!(raw(&h), fd);
            },
            other => panic!("{:?}", other),
        }
    }
}

#[test]
fn responses_take_the_handle_that_came() {
    let created = kumquat_gpu_protocol_resp_resource_create {
        hdr: hdr(KUMQUAT_GPU_PROTOCOL_RESP_RESOURCE_CREATE, 0),
        resource_id: 5,
        handle_type: 0x50,
        vulkan_info: Default::default(),
    };
    let mut handle = Some(a_handle());
    let fd = raw(handle.as_ref().unwrap());
    match KumquatGpuProtocol::decode(&encode(&created), &mut handle) {
        Ok(KumquatGpuProtocol::RespResourceCreate(c, h)) => {
            assert_eq!(c, created);
            assert_eq!(raw(&h), fd);
            assert_eq!(h.handle_type, 0x50);
        },
        other => panic!("{:?}", other),
    }
    assert!(handle.is_none());

    let submitted = kumquat_gpu_protocol_resp_cmd_submit_3d {
        hdr: hdr(KUMQUAT_GPU_PROTOCOL_RESP_CMD_SUBMIT_3D, 0),
        fence_id: 0xfeed_f00d_0000_0001,
        handle_type: 0x50,
        padding: 0,
    };
    let mut handle = Some(a_handle());
    let fd = raw(handle.as_ref().unwrap());
    match KumquatGpuProtocol::decode(&encode(&submitted), &mut handle) {
        Ok(KumquatGpuProtocol::RespCmdSubmit3d(fence_id, h)) => {
            assert_eq!(fence_id, 0xfeed_f00d_0000_0001);
            assert_eq!(raw(&h), fd);
        },
        other => panic!("{:?}", other),
    }
    assert!(handle.is_none());
}

#[test]
fn submission_without_fences_and_commands() {
    match decode_alone(&submit_frame(0, 0, 0)) {
        Ok(KumquatGpuProtocol::CmdSubmit3d(c, buf, fences)) => {
            assert_eq!(c, submit(0, 0));
            assert!(buf.is_empty());
            assert!(fences.is_empty());
        },
        other => panic!("{:?}", other),
    }
    assert_eq!(failure(&submit_frame(0, 0, 1), &mut None), ProtocolError::Malformed);
}

#[test]
fn submission_fences_come_before_commands() {
    let mut frame = encode(&submit(2, 5));
    frame.extend_from_slice(&[1, 0, 0, 0, 0, 0, 0, 0]);
    frame.extend_from_slice(&[0xef, 0xcd, 0xab, 0x89, 0x67, 0x45, 0x23, 0x01]);
    frame.extend_from_slice(b"hello");
    match decode_alone(&frame) {
        Ok(KumquatGpuProtocol::CmdSubmit3d(c, buf, fences)) => {
            assert_eq!(c, submit(2, 5));
            assert_eq!(fences, vec![1, 0x0123_4567_89ab_cdef]);
            assert_eq!(buf, b"hello".to_vec());
        },
        other => panic!("{:?}", other),
    }
}

#[test]
fn submission_lengths_are_exact() {
    for (num_in_fences, size) in [(0u32, 0u32), (0, 1), (1, 0), (1, 1), (3, 17), (16, 4096)] {
        let due = 8 * num_in_fences as usize + size as usize;
        match decode_alone(&submit_frame(num_in_fences, size, due)) {
            Ok(KumquatGpuProtocol::CmdSubmit3d(_, buf, fences)) => {
                assert_eq!(fences.len(), num_in_fences as usize);
                assert_eq!(buf.len(), size as usize);
                let tail: Vec<u8> = (0..due).map(|i| i as u8).collect();
                assert_eq!(buf, tail[8 * num_in_fences as usize..].to_vec());
            },
            other => panic!("{:?}", other),
        }
        assert_eq!(
            failure(&submit_frame(num_in_fences, size, due + 1), &mut None),
            ProtocolError::Malformed
        );
        if due > 0 {
            assert_eq!(
                failure(&submit_frame(num_in_fences, size, due - 1), &mut None),
                ProtocolError::Malformed
            );
        }
    }
}

#[test]
fn submission_announcing_more_than_any_frame_holds() {
    assert_eq!(
        failure(&submit_frame(u32::MAX, u32::MAX, 64), &mut None),
        ProtocolError::Malformed
    );
    assert_eq!(failure(&submit_frame(u32::MAX, 0, 0), &mut None), ProtocolError::Malformed);
}

#[test]
fn submission_with_handle_is_not_expected() {
    let mut handle = Some(a_handle());
    assert_eq!(failure(&submit_frame(0, 0, 0), &mut handle), ProtocolError::HandleNotExpected);
    assert!(handle.is_some());
}

#[test]
fn capset_blob_is_the_rest_of_the_frame() {
    for len in [0usize, 1, 7, 8, 4096] {
        let blob: Vec<u8> = (0..len).map(|i| (i * 7 + 3) as u8).collect();
        let mut frame = encode(&hdr(KUMQUAT_GPU_PROTOCOL_RESP_CAPSET, 0));
        assert_eq!(frame.len(), 8);
        frame.extend_from_slice(&blob);
        assert_eq!(frame.len(), 8 + len);
        match decode_alone(&frame) {
            Ok(KumquatGpuProtocol::RespCapset(b)) => assert_eq!(b, blob),
            other => panic!("{:?}", other),
        }
    }
}

#[test]
fn capset_blob_length_is_not_in_the_frame() {
    // The auxiliary word does not decide where the blob ends.
    let mut frame = encode(&hdr(KUMQUAT_GPU_PROTOCOL_RESP_CAPSET, 2));
    frame.extend_from_slice(&[9, 8, 7, 6, 5]);
    match decode_alone(&frame) {
        Ok(KumquatGpuProtocol::RespCapset(b)) => assert_eq!(b, vec![9, 8, 7, 6, 5]),
        other => panic!("{:?}", other),
    }
}

#[test]
fn errors_are_told_apart() {
    assert_ne!(ProtocolError::Truncated, ProtocolError::Malformed);
    assert_ne!(ProtocolError::UnknownCommand, ProtocolError::Malformed);
    assert_ne!(ProtocolError::MissingHandle, ProtocolError::HandleNotExpected);
    assert_eq!(format!("{:?}", ProtocolError::MissingHandle), "MissingHandle");
}
