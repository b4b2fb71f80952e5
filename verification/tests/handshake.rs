use bytes::Bytes;
use xab_ipc::ipc::{
    classify_response, encode_command, encode_command_word, handshake_version_reply, IpcHandle,
    MonitorsPlan,
};
use xab_ipc::ipc_spec::{IpcCommands, IpcError, Monitor};
use xab_ipc::{IPC_PATH, IPC_PROTO_VERSION};

fn open_handle(capability_word: u32) -> IpcHandle {
    let caps: Vec<u8> = capability_word.to_be_bytes().to_vec();
    IpcHandle::new(String::from(IPC_PATH), &caps)
}

#[test]
fn client_version_is_one() {
    assert_eq!(IPC_PROTO_VERSION, 1);
}

#[test]
fn matching_version_is_accepted_and_echoed() {
    let server = vec![0u8, 0, 0, 1];
    let (reply, verdict) = handshake_version_reply(&server);
    assert_eq!(reply, vec![0, 0, 0, 1]);
    assert_eq!(verdict, Ok(()));
}

#[test]
fn mismatched_version_is_echoed_then_rejected_with_both_versions() {
    let server = vec![0u8, 0, 0, 2];
    let (reply, verdict) = handshake_version_reply(&server);
    assert_eq!(reply, vec![0, 0, 0, 1]);
    assert_eq!(verdict, Err(IpcError::VersionMismatch { server: 2, client: 1 }));
}

#[test]
fn negative_server_version_is_rejected() {
    let server = vec![0xFFu8, 0xFF, 0xFF, 0xFF];
    let (reply, verdict) = handshake_version_reply(&server);
    assert_eq!(reply, vec![0, 0, 0, 1]);
    assert_eq!(verdict, Err(IpcError::VersionMismatch { server: -1, client: 1 }));
}

#[test]
fn new_handle_truncates_capability_word() {
    let h = open_handle(0x0000_0003);
    assert_eq!(h.capabilities.bits, 1);
    assert!(h.capabilities.contains_multimonitor());
    assert!(h.is_connected());
    assert_eq!(h.path, IPC_PATH);
}

#[test]
fn close_sends_client_disconnect_and_shuts_the_handle() {
    let mut h = open_handle(0);
    let bytes = h.close();
    assert_eq!(bytes, vec![0, 0, 0, 3]);
    assert!(!h.is_connected());
}

#[test]
fn command_words_encode_big_endian() {
    assert_eq!(encode_command(IpcCommands::GetMonitors), vec![0, 0, 0, 9]);
    assert_eq!(encode_command(IpcCommands::ClientDisconnect), vec![0, 0, 0, 3]);
    assert_eq!(encode_command(IpcCommands::NoneInvalid), vec![0xFF, 0xFF, 0xFF, 0xFF]);
    assert_eq!(encode_command_word(0x0102_0304), vec![1, 2, 3, 4]);
}

#[test]
fn empty_response_classifies_as_absent() {
    assert_eq!(classify_response(Bytes::new()), None);
    let payload = Bytes::from(vec![1u8, 2, 3]);
    assert_eq!(classify_response(payload.clone()), Some(payload));
}

#[test]
fn monitor_helper_falls_back_without_the_capability() {
    let h = open_handle(0);
    match h.get_monitors() {
        MonitorsPlan::Fallback(ms) => {
            assert_eq!(ms, vec![Monitor::fullscreen()]);
        }
        MonitorsPlan::Query(_) => panic!("no query may be issued without the capability"),
    }
}

#[test]
fn monitor_helper_queries_with_the_capability() {
    let h = open_handle(1);
    match h.get_monitors() {
        MonitorsPlan::Query(cmd) => assert_eq!(cmd, vec![0, 0, 0, 9]),
        MonitorsPlan::Fallback(_) => panic!("capable server must be queried"),
    }
}

#[test]
fn empty_monitor_payload_is_unexpected_server_behaviour() {
    let h = open_handle(1);
    assert_eq!(h.monitors_from_payload(None), Err(IpcError::UnexpectedEmptyResponse));
}

#[test]
fn version_one_and_capability_word_three_list_two_monitors() {
    let server = vec![0u8, 0, 0, 1];
    let (reply, verdict) = handshake_version_reply(&server);
    assert_eq!(reply, vec![0, 0, 0, 1]);
    assert_eq!(verdict, Ok(()));

    let h = open_handle(0x0000_0003);
    assert!(h.capabilities.contains_multimonitor());

    let first = Monitor { index: 0, primary: true, x: 0, y: 0, width: 1920, height: 1080 };
    let second = Monitor { index: 1, primary: false, x: 1920, y: 0, width: 2560, height: 1440 };
    let mut payload = first.to_bytes();
    payload.extend_from_slice(&second.to_bytes());

    let monitors = h.monitors_from_payload(Some(Bytes::from(payload))).unwrap();
    assert_eq!(monitors.len(), 2);
    assert_eq!(monitors[0].index, 0);
    assert_eq!(monitors[0].width, 1920);
    assert_eq!(monitors[1].index, 1);
    assert_eq!(monitors[1].width, 2560);
}

#[test]
fn version_two_against_client_one_fails_construction() {
    let server = vec![0u8, 0, 0, 2];
    let (_, verdict) = handshake_version_reply(&server);
    assert_eq!(verdict, Err(IpcError::VersionMismatch { server: 2, client: 1 }));
}
