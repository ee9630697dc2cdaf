use usbip_macos::usbip::{
    check_import_status, device_list_request, device_record_len, import_request, parse_device,
    parse_device_list_header, parse_import_reply_header, parse_imported_device, UsbCommandHeader,
    UsbCommandSubmit, UsbIpCmdType, UsbIpCommand, UsbIpDirection, UsbIpError, UsbReturnSubmit,
};

fn device_record(busid: &str, num_interfaces: u8) -> Vec<u8> {
    let mut v = vec![0u8; 312];
    v[0] = b'/';
    v[1] = b's';
    for (i, b) in busid.bytes().enumerate() {
        v[256 + i] = b;
    }
    v[288..292].copy_from_slice(&3u32.to_be_bytes());
    v[292..296].copy_from_slice(&7u32.to_be_bytes());
    v[296..300].copy_from_slice(&2u32.to_be_bytes());
    v[300..302].copy_from_slice(&0x1234u16.to_be_bytes());
    v[302..304].copy_from_slice(&0xabcdu16.to_be_bytes());
    v[304..306].copy_from_slice(&0x0200u16.to_be_bytes());
    v[306] = 9;
    v[307] = 1;
    v[308] = 2;
    v[309] = 1;
    v[310] = 1;
    v[311] = num_interfaces;
    for k in 0..num_interfaces {
        v.extend_from_slice(&[3 + k, 1, 2, 0]);
    }
    v
}

#[test]
fn header_encodes_fields_big_endian() {
    let h = UsbCommandHeader::new(1, 2, 0x0001_0002, 1, 3);
    assert_eq!(
        h.to_bytes(),
        [0, 0, 0, 1, 0, 0, 0, 2, 0, 1, 0, 2, 0, 0, 0, 1, 0, 0, 0, 3]
    );
}

#[test]
fn header_decodes_fields_big_endian() {
    let bytes = [
        0, 0, 0, 3, 0x12, 0x34, 0x56, 0x78, 0, 1, 0, 2, 0, 0, 0, 1, 0, 0, 0, 5, 0xff, 0xff,
    ];
    let h = UsbCommandHeader::from_bytes(&bytes);
    assert_eq!(h.seqnum(), 0x1234_5678);
    assert_eq!(
        h.to_bytes(),
        [0, 0, 0, 3, 0x12, 0x34, 0x56, 0x78, 0, 1, 0, 2, 0, 0, 0, 1, 0, 0, 0, 5]
    );
}

#[test]
fn header_roundtrip() {
    let h = UsbCommandHeader::new(0xdead_beef, 42, 7, 0, 15);
    let back = UsbCommandHeader::from_bytes(&h.to_bytes());
    assert_eq!(back.to_bytes(), h.to_bytes());
    assert_eq!(back.seqnum(), 42);
}

#[test]
fn submit_encodes_header_fields_setup_and_buffer() {
    let header = UsbCommandHeader::new(1, 9, 0x0003_0007, 0, 2);
    let cmd = UsbCommandSubmit::new(header, 0, 3, 0, 0, 10, [1, 2, 3, 4, 5, 6, 7, 8], vec![0xaa, 0xbb, 0xcc]);
    let bytes = cmd.to_bytes();
    assert_eq!(bytes.len(), 48 + 3);
    assert_eq!(&bytes[0..20], &UsbCommandHeader::new(1, 9, 0x0003_0007, 0, 2).to_bytes());
    assert_eq!(&bytes[20..24], &[0, 0, 0, 0]);
    assert_eq!(&bytes[24..28], &[0, 0, 0, 3]);
    assert_eq!(&bytes[28..36], &[0, 0, 0, 0, 0, 0, 0, 0]);
    assert_eq!(&bytes[36..40], &[0, 0, 0, 10]);
    assert_eq!(&bytes[40..48], &[1, 2, 3, 4, 5, 6, 7, 8]);
    assert_eq!(&bytes[48..], &[0xaa, 0xbb, 0xcc]);
}

#[test]
fn command_codes_and_names() {
    assert_eq!(UsbIpCommand::ReqDevlist.code(), 0x8005);
    assert_eq!(UsbIpCommand::ReqImport.code(), 0x8003);
    assert_eq!(UsbIpCommand::ReqDevlist.name(), "USBIP_REQ_DEVLIST");
    assert_eq!(UsbIpCommand::ReqImport.name(), "USBIP_REQ_IMPORT");
    assert_eq!(UsbIpCmdType::CmdSubmit.code(), 1);
    assert_eq!(UsbIpCmdType::CmdSubmit.name(), "USBIP_CMD_SUBMIT");
    assert_eq!(UsbIpDirection::UsbDirOut.value(), 0);
    assert_eq!(UsbIpDirection::UsbDirIn.value(), 1);
}

#[test]
fn device_list_request_bytes() {
    assert_eq!(device_list_request(), vec![0x01, 0x11, 0x80, 0x05, 0, 0, 0, 0]);
}

#[test]
fn import_request_bytes() {
    let mut busid = [0u8; 32];
    busid[..3].copy_from_slice(b"1-1");
    let r = import_request(&busid);
    assert_eq!(r.len(), 40);
    assert_eq!(&r[..8], &[0x01, 0x11, 0x80, 0x03, 0, 0, 0, 0]);
    assert_eq!(&r[8..], &busid[..]);
}

#[test]
fn device_list_header_count() {
    let bytes = [0x01, 0x11, 0x00, 0x05, 0, 0, 0, 0, 0, 0, 0x01, 0x02];
    assert_eq!(parse_device_list_header(&bytes), Some(0x0102));
    assert_eq!(parse_device_list_header(&bytes[..11]), None);
}

#[test]
fn import_reply_status() {
    assert_eq!(parse_import_reply_header(&[0x01, 0x11, 0, 3, 0, 0, 0, 0]), Some(0));
    assert_eq!(parse_import_reply_header(&[0x01, 0x11, 0, 3, 0, 0, 0, 1]), Some(1));
    assert_eq!(parse_import_reply_header(&[0x01, 0x11, 0, 3, 0, 0, 0]), None);
    assert_eq!(check_import_status(0), Ok(()));
    assert_eq!(check_import_status(1), Err(UsbIpError::ImportFailed));
    assert_eq!(UsbIpError::ImportFailed.message(), "Import failed");
    assert_eq!(UsbIpError::NotConnected.message(), "Not connected");
    assert_eq!(UsbIpError::DeviceNotImported.message(), "Device not imported");
}

#[test]
fn device_record_with_interfaces() {
    let rec = device_record("1-1", 2);
    let (d, n) = parse_device(&rec).unwrap();
    assert_eq!(n, 312 + 8);
    assert_eq!(&d.get_busid()[..3], b"1-1");
    assert_eq!(d.get_busid()[3], 0);
    assert_eq!(&d.get_path()[..2], b"/s");
    assert_eq!(d.get_busnum(), 3);
    assert_eq!(d.get_devnum(), 7);
    assert_eq!(d.get_speed(), 2);
    assert_eq!(d.get_id_vendor(), 0x1234);
    assert_eq!(d.get_id_product(), 0xabcd);
    assert_eq!(d.get_bcd_device(), 0x0200);
    assert_eq!(d.get_device_class(), 9);
    assert_eq!(d.get_device_subclass(), 1);
    assert_eq!(d.get_device_protocol(), 2);
    assert_eq!(d.get_configuration_value(), 1);
    assert_eq!(d.get_num_configurations(), 1);
    assert_eq!(d.get_num_interfaces(), 2);
    let ifs = d.get_interfaces();
    assert_eq!(ifs.len(), 2);
    assert_eq!(ifs[0].interface_class(), 3);
    assert_eq!(ifs[1].interface_class(), 4);
    assert_eq!(ifs[1].interface_subclass(), 1);
    assert_eq!(ifs[1].interface_protocol(), 2);
}

#[test]
fn device_record_followed_by_more_bytes() {
    let mut rec = device_record("2-4", 1);
    rec.extend_from_slice(&[0xee; 10]);
    let (d, n) = parse_device(&rec).unwrap();
    assert_eq!(n, 316);
    assert_eq!(d.get_interfaces().len(), 1);
}

#[test]
fn device_record_too_short() {
    let rec = device_record("1-1", 2);
    assert!(parse_device(&rec[..311]).is_none());
    assert!(parse_device(&rec[..319]).is_none());
}

#[test]
fn imported_device_has_no_interfaces() {
    let rec = device_record("1-1", 3);
    let d = parse_imported_device(&rec[..312]).unwrap();
    assert_eq!(d.get_num_interfaces(), 3);
    assert_eq!(d.get_interfaces().len(), 0);
    assert_eq!(d.get_devnum(), 7);
    assert!(parse_imported_device(&rec[..100]).is_none());
}

fn return_body(actual_length: u32, payload: &[u8]) -> Vec<u8> {
    let mut v = Vec::new();
    v.extend_from_slice(&0u32.to_be_bytes());
    v.extend_from_slice(&actual_length.to_be_bytes());
    v.extend_from_slice(&5u32.to_be_bytes());
    v.extend_from_slice(&0u32.to_be_bytes());
    v.extend_from_slice(&1u32.to_be_bytes());
    v.extend_from_slice(&[0u8; 8]);
    v.extend_from_slice(payload);
    v
}

#[test]
fn return_submit_in_carries_data() {
    let body = return_body(3, &[7, 8, 9]);
    assert_eq!(UsbReturnSubmit::payload_len(UsbIpDirection::UsbDirIn, &body), 3);
    let header = UsbCommandHeader::new(3, 11, 0, 1, 1);
    let (ret, n) = UsbReturnSubmit::from_header_and_bytes(UsbIpDirection::UsbDirIn, header, &body).unwrap();
    assert_eq!(n, 31);
    assert_eq!(ret.actual_length, 3);
    assert_eq!(ret.buffer, vec![7, 8, 9]);
    assert_eq!(ret.status(), 0);
    assert_eq!(ret.start_frame(), 5);
    assert_eq!(ret.number_of_packets(), 0);
    assert_eq!(ret.error_count(), 1);
    assert_eq!(ret.header().seqnum(), 11);
}

#[test]
fn return_submit_out_has_no_data() {
    let body = return_body(64, &[]);
    assert_eq!(UsbReturnSubmit::payload_len(UsbIpDirection::UsbDirOut, &body), 0);
    let header = UsbCommandHeader::new(3, 12, 0, 0, 1);
    let (ret, n) = UsbReturnSubmit::from_header_and_bytes(UsbIpDirection::UsbDirOut, header, &body).unwrap();
    assert_eq!(n, 28);
    assert_eq!(ret.actual_length, 64);
    assert!(ret.buffer.is_empty());
}

#[test]
fn return_submit_too_short() {
    let body = return_body(4, &[1, 2]);
    let header = UsbCommandHeader::new(3, 12, 0, 1, 1);
    assert!(UsbReturnSubmit::from_header_and_bytes(UsbIpDirection::UsbDirIn, header, &body).is_none());
    let header = UsbCommandHeader::new(3, 12, 0, 1, 1);
    assert!(UsbReturnSubmit::from_header_and_bytes(UsbIpDirection::UsbDirOut, header, &body[..27]).is_none());
}

#[test]
fn device_record_length_counts_interfaces() {
    assert_eq!(device_record_len(&device_record("1-1", 0)), 312);
    assert_eq!(device_record_len(&device_record("1-1", 3)[..312]), 324);
    assert_eq!(device_record_len(&device_record("1-1", 255)), 312 + 4 * 255);
    let rec = device_record("1-1", 2);
    let (_, n) = parse_device(&rec).unwrap();
    assert_eq!(n, device_record_len(&rec));
}
