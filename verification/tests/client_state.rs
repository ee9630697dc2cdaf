use usbip_macos::usbip::{parse_imported_device, UsbIpClient, UsbIpDirection, UsbIpError};

fn imported_device() -> usbip_macos::usbip::Device {
    let mut v = vec![0u8; 312];
    v[288..292].copy_from_slice(&3u32.to_be_bytes());
    v[292..296].copy_from_slice(&7u32.to_be_bytes());
    parse_imported_device(&v).unwrap()
}

#[test]
fn new_client_is_idle() {
    let c: UsbIpClient<u8> = UsbIpClient::new();
    assert!(!c.is_connected());
    assert_eq!(c.seqnum(), 0);
    assert_eq!(c.check_connected(), Err(UsbIpError::NotConnected));
    assert!(c.get_imported_device().is_err());
}

#[test]
fn submit_without_device_fails_but_advances_seqnum() {
    let mut c: UsbIpClient<u8> = UsbIpClient::new();
    c.set_connected();
    let r = c.cmd_submit(UsbIpDirection::UsbDirIn, 1, 0, 8, 0, 0, 0, [0; 8], &[]);
    assert_eq!(r.err(), Some(UsbIpError::DeviceNotImported));
    assert_eq!(c.seqnum(), 1);
}

#[test]
fn submit_without_connection_fails_after_device_check() {
    let mut c: UsbIpClient<u8> = UsbIpClient::new();
    c.set_imported_device(imported_device());
    let r = c.cmd_submit(UsbIpDirection::UsbDirIn, 1, 0, 8, 0, 0, 0, [0; 8], &[]);
    assert_eq!(r.err(), Some(UsbIpError::NotConnected));
    assert_eq!(c.seqnum(), 1);
}

#[test]
fn submit_builds_command_for_imported_device() {
    let mut c: UsbIpClient<u8> = UsbIpClient::new();
    c.set_connected();
    c.set_imported_device(imported_device());
    let (s, cmd) = c
        .cmd_submit(UsbIpDirection::UsbDirOut, 2, 0, 3, 0, 0, 10, [1, 2, 3, 4, 5, 6, 7, 8], &[9, 9, 9])
        .unwrap();
    assert_eq!(s, 1);
    let bytes = cmd.to_bytes();
    assert_eq!(&bytes[0..20], &[0, 0, 0, 1, 0, 0, 0, 1, 0, 3, 0, 7, 0, 0, 0, 0, 0, 0, 0, 2]);
    assert_eq!(&bytes[48..], &[9, 9, 9]);
    let (s2, _) = c
        .cmd_submit(UsbIpDirection::UsbDirIn, 2, 0, 3, 0, 0, 10, [0; 8], &[])
        .unwrap();
    assert_eq!(s2, 2);
}

#[test]
fn create_submit_command_uses_current_seqnum() {
    let c: UsbIpClient<u8> = UsbIpClient::new();
    let d = imported_device();
    let cmd = c.create_submit_command(&d, UsbIpDirection::UsbDirIn, 5, 0, 64, 0, 0, 0, [0; 8], &[]);
    assert_eq!(cmd.header().seqnum(), 0);
    assert_eq!(&cmd.to_bytes()[8..16], &[0, 3, 0, 7, 0, 0, 0, 1]);
}

#[test]
fn reply_goes_to_registered_waiter_once() {
    let mut c: UsbIpClient<&'static str> = UsbIpClient::new();
    c.register_pending(5, UsbIpDirection::UsbDirIn, "five");
    c.register_pending(6, UsbIpDirection::UsbDirOut, "six");
    assert!(c.is_pending(5));
    assert_eq!(c.take_pending(5), Some((UsbIpDirection::UsbDirIn, "five")));
    assert!(!c.is_pending(5));
    assert_eq!(c.take_pending(5), None);
    assert!(c.is_pending(6));
}

#[test]
fn unknown_reply_changes_nothing() {
    let mut c: UsbIpClient<u8> = UsbIpClient::new();
    c.register_pending(1, UsbIpDirection::UsbDirIn, 10);
    assert_eq!(c.take_pending(2), None);
    assert!(c.is_pending(1));
}

#[test]
fn connection_state() {
    let mut c: UsbIpClient<u8> = UsbIpClient::new();
    c.set_connected();
    assert_eq!(c.check_connected(), Ok(()));
    c.set_disconnected();
    assert!(!c.is_connected());
}

#[test]
fn seqnum_advances_once_per_submit_call() {
    let mut c: UsbIpClient<u8> = UsbIpClient::new();
    c.set_connected();
    c.set_imported_device(imported_device());
    let mut seen = Vec::new();
    for k in 1..=5u32 {
        let r = if k % 2 == 0 {
            c.cmd_submit(UsbIpDirection::UsbDirOut, 1, 0, 0, 0, 0, 0, [0; 8], &[])
        } else {
            c.cmd_submit(UsbIpDirection::UsbDirIn, 1, 0, 8, 0, 0, 0, [0; 8], &[])
        };
        let (s, cmd) = r.unwrap();
        assert_eq!(s, k);
        assert_eq!(cmd.header().seqnum(), k);
        assert_eq!(c.seqnum(), k);
        seen.push(s);
    }
    seen.dedup();
    assert_eq!(seen.len(), 5);
}
