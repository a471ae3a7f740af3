use kumquat_gpu_protocol::{
    decode, encode, kumquat_gpu_protocol_cmd_submit, kumquat_gpu_protocol_ctrl_hdr,
    kumquat_gpu_protocol_resp_cmd_submit_3d, kumquat_gpu_protocol_resp_resource_create,
    submit_trailer, KumquatGpuProtocol, KumquatGpuProtocolWrite, ProtocolError,
    KUMQUAT_GPU_PROTOCOL_GET_NUM_CAPSETS, KUMQUAT_GPU_PROTOCOL_RESP_CAPSET,
    KUMQUAT_GPU_PROTOCOL_RESP_CMD_SUBMIT_3D, KUMQUAT_GPU_PROTOCOL_RESP_RESOURCE_CREATE,
    KUMQUAT_GPU_PROTOCOL_SUBMIT_3D,
};
use mesa3d_util::{AsRawDescriptor, Event, MesaHandle};

fn header(type_: u32, payload: u32) -> kumquat_gpu_protocol_ctrl_hdr {
    kumquat_gpu_protocol_ctrl_hdr { type_, payload }
}

fn event_handle() -> MesaHandle {
    Event::new().expect("an event of the platform").into()
}

#[test]
fn cmd_is_the_struct_alone() {
    let (frame, handle) =
        KumquatGpuProtocolWrite::Cmd(header(KUMQUAT_GPU_PROTOCOL_GET_NUM_CAPSETS, 0)).encode();
    assert_eq!(frame, vec![0x01, 0x01, 0, 0, 0, 0, 0, 0]);
    assert!(handle.is_none());
    let mut none = None;
    assert!(matches!(
        KumquatGpuProtocol::decode(&frame, &mut none),
        Ok(KumquatGpuProtocol::GetNumCapsets)
    ));
}

#[test]
fn cmd_with_handle_hands_the_handle_back() {
    let resp = kumquat_gpu_protocol_resp_resource_create {
        hdr: header(KUMQUAT_GPU_PROTOCOL_RESP_RESOURCE_CREATE, 0),
        resource_id: 3,
        handle_type: 0x50,
        vulkan_info: Default::default(),
    };
    let handle = event_handle();
    let fd = handle.os_handle.as_raw_descriptor();
    let (frame, mut sent) = KumquatGpuProtocolWrite::CmdWithHandle(resp, handle).encode();
    assert_eq!(frame, encode(&resp));
    assert_eq!(sent.as_ref().map(|h| h.os_handle.as_raw_descriptor()), Some(fd));
    match KumquatGpuProtocol::decode(&frame, &mut sent) {
        Ok(KumquatGpuProtocol::RespResourceCreate(c, h)) => {
            assert_eq!(c, resp);
            assert_eq!(h.os_handle.as_raw_descriptor(), fd);
        },
        other => panic!("{:?}", other),
    }
    assert!(sent.is_none());
}

#[test]
fn fence_response_round_trip() {
    let resp = kumquat_gpu_protocol_resp_cmd_submit_3d {
        hdr: header(KUMQUAT_GPU_PROTOCOL_RESP_CMD_SUBMIT_3D, 0),
        fence_id: 77,
        handle_type: 0x50,
        padding: 0,
    };
    let (frame, mut sent) = KumquatGpuProtocolWrite::CmdWithHandle(resp, event_handle()).encode();
    assert_eq!(frame.len(), 24);
    assert!(matches!(
        KumquatGpuProtocol::decode(&frame, &mut sent),
        Ok(KumquatGpuProtocol::RespCmdSubmit3d(77, _))
    ));
}

#[test]
fn cmd_with_data_is_the_struct_then_the_data() {
    let (frame, handle) = KumquatGpuProtocolWrite::CmdWithData(
        header(KUMQUAT_GPU_PROTOCOL_RESP_CAPSET, 3),
        vec![0xa, 0xb, 0xc],
    )
    .encode();
    assert_eq!(frame, vec![0x04, 0x30, 0, 0, 3, 0, 0, 0, 0xa, 0xb, 0xc]);
    assert!(handle.is_none());
    assert_eq!(
        decode::<kumquat_gpu_protocol_ctrl_hdr>(&frame),
        Ok(header(KUMQUAT_GPU_PROTOCOL_RESP_CAPSET, 3))
    );
}

#[test]
fn capset_of_no_bytes_round_trip() {
    let (frame, _) =
        KumquatGpuProtocolWrite::CmdWithData(header(KUMQUAT_GPU_PROTOCOL_RESP_CAPSET, 0), vec![])
            .encode();
    assert_eq!(frame.len(), 8);
    let mut none = None;
    match KumquatGpuProtocol::decode(&frame, &mut none) {
        Ok(KumquatGpuProtocol::RespCapset(blob)) => assert!(blob.is_empty()),
        other => panic!("{:?}", other),
    }
}

#[test]
fn capset_of_4096_bytes_round_trip() {
    let blob: Vec<u8> = (0..4096u32).map(|i| (i % 251) as u8).collect();
    let (frame, _) = KumquatGpuProtocolWrite::CmdWithData(
        header(KUMQUAT_GPU_PROTOCOL_RESP_CAPSET, 0),
        blob.clone(),
    )
    .encode();
    // Nothing but the header stands before the blob.
    assert_eq!(frame.len(), 8 + 4096);
    assert_eq!(&frame[8..], &blob[..]);
    let mut none = None;
    match KumquatGpuProtocol::decode(&frame, &mut none) {
        Ok(KumquatGpuProtocol::RespCapset(b)) => assert_eq!(b, blob),
        other => panic!("{:?}", other),
    }
}

#[test]
fn trailer_is_fences_then_commands() {
    assert_eq!(submit_trailer(&[], &[]), Vec::<u8>::new());
    assert_eq!(submit_trailer(&[], &[1, 2, 3]), vec![1, 2, 3]);
    assert_eq!(
        submit_trailer(&[0x0102_0304_0506_0708, 1], &[0xaa]),
        vec![8, 7, 6, 5, 4, 3, 2, 1, 1, 0, 0, 0, 0, 0, 0, 0, 0xaa]
    );
}

#[test]
fn submission_round_trip() {
    let fences = [5u64, u64::MAX, 0, 0x8000_0000_0000_0000];
    let commands = b"draw; draw; flush".to_vec();
    let cmd = kumquat_gpu_protocol_cmd_submit {
        hdr: header(KUMQUAT_GPU_PROTOCOL_SUBMIT_3D, 0),
        ctx_id: 1,
        pad: 0,
        size: commands.len() as u32,
        num_in_fences: fences.len() as u32,
        flags: 0,
        ring_idx: 3,
        padding: [0; 3],
    };
    let (frame, handle) =
        KumquatGpuProtocolWrite::CmdWithData(cmd, submit_trailer(&fences, &commands)).encode();
    assert!(handle.is_none());
    assert_eq!(frame.len(), 32 + 8 * 4 + commands.len());
    // The command buffer starts on a multiple of eight bytes.
    assert_eq!((32 + 8 * fences.len()) % 8, 0);
    let mut none = None;
    match KumquatGpuProtocol::decode(&frame, &mut none) {
        Ok(KumquatGpuProtocol::CmdSubmit3d(c, buf, ids)) => {
            assert_eq!(c, cmd);
            assert_eq!(buf, commands);
            assert_eq!(ids, fences.to_vec());
        },
        other => panic!("{:?}", other),
    }
}

#[test]
fn submission_with_a_wrong_count_is_malformed() {
    let cmd = kumquat_gpu_protocol_cmd_submit {
        hdr: header(KUMQUAT_GPU_PROTOCOL_SUBMIT_3D, 0),
        ctx_id: 1,
        pad: 0,
        size: 4,
        num_in_fences: 2,
        flags: 0,
        ring_idx: 0,
        padding: [0; 3],
    };
    let (frame, _) =
        KumquatGpuProtocolWrite::CmdWithData(cmd, submit_trailer(&[1], &[1, 2, 3, 4])).encode();
    let mut none = None;
    assert!(matches!(
        KumquatGpuProtocol::decode(&frame, &mut none),
        Err(ProtocolError::Malformed)
    ));
}
