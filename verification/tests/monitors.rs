use bytes::Bytes;
use xab_ipc::ipc::decode_monitor_list;
use xab_ipc::ipc_spec::{IpcError, Monitor};

fn record(index: i32, primary: bool, x: u32, y: u32, width: u32, height: u32) -> Vec<u8> {
    Monitor { index, primary, x, y, width, height }.to_bytes()
}

#[test]
fn fullscreen_sentinel_fields() {
    let m = Monitor::fullscreen();
    assert_eq!(m.index, 0);
    assert!(m.primary);
    assert_eq!((m.x, m.y, m.width, m.height), (0, 0, 0, 0));
}

#[test]
fn record_is_21_bytes_in_layout_order() {
    let b = record(1, true, 2, 3, 1920, 1080);
    assert_eq!(b.len(), 21);
    assert_eq!(&b[0..4], &[0, 0, 0, 1]);
    assert_eq!(b[4], 1);
    assert_eq!(&b[5..9], &[0, 0, 0, 2]);
    assert_eq!(&b[9..13], &[0, 0, 0, 3]);
    assert_eq!(&b[13..17], &[0, 0, 0x07, 0x80]);
    assert_eq!(&b[17..21], &[0, 0, 0x04, 0x38]);
}

#[test]
fn monitor_roundtrip_ordinary_fields() {
    let m = Monitor { index: 5, primary: false, x: 100, y: 200, width: 2560, height: 1440 };
    let decoded = Monitor::from_bytes(&Bytes::from(m.to_bytes())).unwrap();
    assert_eq!(decoded, m);
}

#[test]
fn monitor_roundtrip_fullscreen_sentinel_geometry() {
    let m = Monitor { index: 0, primary: true, x: 0, y: 0, width: 0, height: 0 };
    let decoded = Monitor::from_bytes(&Bytes::from(m.to_bytes())).unwrap();
    assert_eq!(decoded, m);
}

#[test]
fn monitor_roundtrip_negative_index() {
    let m = Monitor { index: -7, primary: true, x: 1, y: 2, width: 3, height: 4 };
    let decoded = Monitor::from_bytes(&Bytes::from(m.to_bytes())).unwrap();
    assert_eq!(decoded, m);
}

#[test]
fn undersized_buffer_is_a_decode_error() {
    for n in [0usize, 1, 4, 20] {
        let b = Bytes::from(vec![0u8; n]);
        assert_eq!(Monitor::from_bytes(&b), Err(IpcError::UndersizedRecord));
    }
}

#[test]
fn trailing_bytes_are_not_an_error_and_not_consumed() {
    let mut b = record(2, false, 7, 8, 9, 10);
    b.extend_from_slice(&[0xAA, 0xBB, 0xCC]);
    let decoded = Monitor::from_bytes(&Bytes::from(b)).unwrap();
    assert_eq!(decoded, Monitor { index: 2, primary: false, x: 7, y: 8, width: 9, height: 10 });
}

#[test]
fn any_nonzero_primary_byte_means_primary() {
    let mut b = record(0, false, 0, 0, 0, 0);
    b[4] = 7;
    let decoded = Monitor::from_bytes(&Bytes::from(b)).unwrap();
    assert!(decoded.primary);
}

#[test]
fn list_decode_empty_buffer_yields_no_records() {
    assert_eq!(decode_monitor_list(&Bytes::new()), vec![]);
}

#[test]
fn list_decode_short_buffer_yields_no_records() {
    assert_eq!(decode_monitor_list(&Bytes::from(vec![1u8; 20])), vec![]);
}

#[test]
fn list_decode_counts_full_records_and_drops_the_tail() {
    let first = Monitor { index: 0, primary: true, x: 0, y: 0, width: 1920, height: 1080 };
    let second = Monitor { index: 1, primary: false, x: 1920, y: 0, width: 2560, height: 1440 };
    let mut buf = first.to_bytes();
    buf.extend_from_slice(&second.to_bytes());
    buf.extend_from_slice(&[9u8; 13]);

    let monitors = decode_monitor_list(&Bytes::from(buf));
    assert_eq!(monitors, vec![first, second]);
}

#[test]
fn list_decode_exact_multiple_of_record_size() {
    let mut buf = Vec::new();
    let mut expected = Vec::new();
    for i in 0..3 {
        let m = Monitor { index: i, primary: i == 0, x: 10 * i as u32, y: 0, width: 800, height: 600 };
        buf.extend_from_slice(&m.to_bytes());
        expected.push(m);
    }
    assert_eq!(decode_monitor_list(&Bytes::from(buf)), expected);
}
