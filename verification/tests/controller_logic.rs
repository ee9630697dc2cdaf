use usbip_macos::controller::{
    add_endpoint_to, check_endpoint_active, create_device, ControlAction, ControlStage,
    ControlTransfer, command_action, completion_error_is_fatal, create_capabilities_data,
    create_controller_capabilities, create_port_capabilities, decode_doorbell, decode_setup,
    doorbell_action, doorbell_target, endpoint_target, find_device, find_device_by_address,
    find_endpoint, is_valid, message_status, message_type, no_response, normal_copy_length,
    normal_transfer_action, setup_after_status, setup_copy_length, setup_data_stage,
    setup_status_stage, setup_submit, transfer_direction, u64_le_bytes, CiMessage, CommandAction,
    ControllerFailure, DataStage, DoorbellAction, NormalAction, SetupPacket,
};
use usbip_macos::device::Device;
use usbip_macos::endpoint::Endpoint;
use usbip_macos::usbip::UsbIpDirection;

const VALID: u32 = 0x8000;
const NO_RESPONSE: u32 = 0x4000;

fn msg(control: u32, data0: u32, data1: u64) -> CiMessage {
    CiMessage { control, data0, data1 }
}

fn devices() -> Vec<Device<&'static str, &'static str>> {
    let mut d1 = Device::new("dev1", 1);
    d1.add_endpoint(Endpoint::new("ep0", 0x00));
    d1.add_endpoint(Endpoint::new("ep81", 0x81));
    let mut d2 = Device::new("dev2", 2);
    d2.add_endpoint(Endpoint::new("ep2", 0x02));
    vec![d1, d2]
}

#[test]
fn capabilities_messages() {
    let c = create_controller_capabilities();
    assert_eq!(c, CiMessage { control: 0x0001_c000, data0: 0x21, data1: 0 });
    let p = create_port_capabilities();
    assert_eq!(p, CiMessage { control: 0x0001_c001, data0: 113, data1: 0 });
    assert_eq!(message_type(c.control), 0);
    assert_eq!(message_type(p.control), 1);
    assert!(is_valid(c.control) && no_response(c.control));
}

#[test]
fn capabilities_data_layout() {
    let data = create_capabilities_data(&create_controller_capabilities(), &create_port_capabilities());
    assert_eq!(data.len(), 32);
    assert_eq!(&data[0..8], &[0x00, 0xc0, 0x01, 0x00, 0x21, 0, 0, 0]);
    assert_eq!(&data[8..16], &[0; 8]);
    assert_eq!(&data[16..24], &[0x01, 0xc0, 0x01, 0x00, 113, 0, 0, 0]);
    let m = CiMessage { control: 1, data0: 2, data1: 0x0102_0304_0506_0708 };
    assert_eq!(m.to_bytes(), [1, 0, 0, 0, 2, 0, 0, 0, 8, 7, 6, 5, 4, 3, 2, 1]);
}

#[test]
fn control_word_fields() {
    let control = 57 | (1 << 8) | VALID;
    assert_eq!(message_type(control), 57);
    assert_eq!(message_status(control), 1);
    assert!(is_valid(control));
    assert!(!no_response(control));
}

#[test]
fn controller_and_port_commands() {
    let devs = devices();
    assert_eq!(command_action(&msg(0x10 | VALID, 0, 0), &devs), CommandAction::RespondController);
    assert_eq!(command_action(&msg(18, 0, 0), &devs), CommandAction::RespondController);
    assert_eq!(command_action(&msg(19, 0, 0), &devs), CommandAction::RespondController);
    assert_eq!(command_action(&msg(0x18, 0, 0), &devs), CommandAction::RespondPort);
    assert_eq!(command_action(&msg(30, 0, 0), &devs), CommandAction::RespondPort);
    assert_eq!(command_action(&msg(28, 0, 0), &devs), CommandAction::ResetPort);
    assert_eq!(command_action(&msg(17, 0, 0), &devs), CommandAction::Fail(ControllerFailure::UnimplementedMessage(17)));
}

#[test]
fn device_create_gets_next_address() {
    let devs = devices();
    assert_eq!(command_action(&msg(0x20, 0, 0), &devs), CommandAction::CreateDevice { address: 3 });
    let none: Vec<Device<u8, u8>> = Vec::new();
    assert_eq!(command_action(&msg(0x20, 0, 0), &none), CommandAction::CreateDevice { address: 1 });
    assert_eq!(command_action(&msg(0x28, 0, 0), &devs), CommandAction::CreateEndpoint);
}

#[test]
fn endpoint_commands_find_their_endpoint() {
    let devs = devices();
    // device 1, endpoint 0x81
    assert_eq!(command_action(&msg(46, 0x8101, 0), &devs), CommandAction::RespondEndpoint { device: 0, endpoint: 1 });
    assert_eq!(command_action(&msg(43, 0x0202, 0), &devs), CommandAction::RespondEndpoint { device: 1, endpoint: 0 });
    assert_eq!(command_action(&msg(41, 0x0001, 0), &devs), CommandAction::RespondEndpoint { device: 0, endpoint: 0 });
    assert_eq!(command_action(&msg(46, 0x0003, 0), &devs), CommandAction::Fail(ControllerFailure::DeviceNotFound));
    assert_eq!(command_action(&msg(46, 0x0502, 0), &devs), CommandAction::Fail(ControllerFailure::EndpointNotFound));
}

#[test]
fn lookup_stops_at_address_out_of_byte_range() {
    let devs = vec![Device::<u8, u8>::new(0, 300), Device::new(1, 2)];
    assert_eq!(find_device(&devs, 2), Err(ControllerFailure::AddressOutOfRange));
    let devs = vec![Device::<u8, u8>::new(0, 2), Device::new(1, 300)];
    assert_eq!(find_device(&devs, 2), Ok(0));
    let mut d = Device::<u8, u8>::new(0, 1);
    d.add_endpoint(Endpoint::new(0, 0x1ff));
    assert_eq!(find_endpoint(&d, 0xff), Err(ControllerFailure::AddressOutOfRange));
    assert_eq!(endpoint_target(&[d], 1, 0xff), Err(ControllerFailure::AddressOutOfRange));
}

#[test]
fn endpoint_create_finds_device_by_whole_address() {
    let devs = vec![Device::<u8, u8>::new(0, 300), Device::new(1, 2)];
    assert_eq!(find_device_by_address(&devs, 300), Some(0));
    assert_eq!(find_device_by_address(&devs, 2), Some(1));
    assert_eq!(find_device_by_address(&devs, 44), None);
}

#[test]
fn device_and_endpoint_records() {
    let devs = devices();
    assert_eq!(devs[1].device_address(), 2);
    assert_eq!(*devs[0].state_machine(), "dev1");
    assert_eq!(devs[0].endpoints().len(), 2);
    assert_eq!(devs[0].endpoints()[1].endpoint_address(), 0x81);
    assert_eq!(devs[0].endpoints()[1].clone_state_machine(), "ep81");
    assert_eq!(*devs[0].endpoints()[0].state_machine(), "ep0");
}

#[test]
fn doorbell_fields() {
    let db = decode_doorbell(0x0003_8102).unwrap();
    assert_eq!((db.device_address, db.endpoint_address, db.stream_id), (2, 0x81, 3));
    assert_eq!(decode_doorbell(0x0100_0001), Err(ControllerFailure::StreamIdOutOfRange));
    let devs = devices();
    let (i, j, d) = doorbell_target(&devs, 0x0000_8101).unwrap();
    assert_eq!((i, j, d.stream_id), (0, 1, 0));
    assert_eq!(doorbell_target(&devs, 0x0000_8109).err(), Some(ControllerFailure::DeviceNotFound));
    assert_eq!(doorbell_target(&devs, 0xffff_0001).err(), Some(ControllerFailure::StreamIdOutOfRange));
}

#[test]
fn setup_packet_fields() {
    let data1 = 0x0012_0000_0100_0680u64;
    let p = decode_setup(data1);
    assert_eq!(p, SetupPacket { request_type: 0x80, request: 0x06, value: 0x0100, index: 0, length: 0x12 });
    assert_eq!(u64_le_bytes(data1), [0x80, 0x06, 0x00, 0x01, 0x00, 0x00, 0x12, 0x00]);
    let req = setup_submit(&p, 0x80, data1);
    assert_eq!(req.direction, UsbIpDirection::UsbDirIn);
    assert_eq!(req.ep, 0);
    assert_eq!(req.transfer_buffer_length, 0x12);
    assert_eq!(req.interval, 0);
    assert_eq!(req.setup_bytes, data1.to_le_bytes());
}

#[test]
fn directions() {
    assert_eq!(transfer_direction(0x81), UsbIpDirection::UsbDirIn);
    assert_eq!(transfer_direction(0x02), UsbIpDirection::UsbDirOut);
}

#[test]
fn doorbell_actions() {
    assert_eq!(doorbell_action(&msg(0x38 | VALID | NO_RESPONSE, 0, 0)), DoorbellAction::Return);
    assert_eq!(
        doorbell_action(&msg(0x38 | VALID, 0, 0x0040_0000_0000_0500)),
        DoorbellAction::StartSetup(SetupPacket { request_type: 0, request: 5, value: 0, index: 0, length: 0x40 })
    );
    assert_eq!(doorbell_action(&msg(57 | VALID, 0, 0)), DoorbellAction::ProcessNormal);
    assert_eq!(doorbell_action(&msg(57 | VALID | NO_RESPONSE, 0, 0)), DoorbellAction::Fail(ControllerFailure::ShouldNeedResponse));
    assert_eq!(doorbell_action(&msg(57, 0, 0)), DoorbellAction::Fail(ControllerFailure::NotValid));
    assert_eq!(doorbell_action(&msg(60 | VALID, 0, 0)), DoorbellAction::Return);
    assert_eq!(doorbell_action(&msg(60, 0, 0)), DoorbellAction::CompleteLink);
    assert_eq!(doorbell_action(&msg(60 | NO_RESPONSE, 0, 0)), DoorbellAction::Continue);
    assert_eq!(doorbell_action(&msg(58 | VALID, 0, 0)), DoorbellAction::Fail(ControllerFailure::UnexpectedMessage(58)));
}

#[test]
fn setup_stages() {
    let setup = SetupPacket { request_type: 0x80, request: 6, value: 0x100, index: 0, length: 18 };
    assert_eq!(
        setup_data_stage(&msg(57 | VALID, 0xf000_0012, 0x1000), &setup),
        Ok(DataStage::Data { direction: UsbIpDirection::UsbDirIn, length: 18, buffer: 0x1000 })
    );
    assert_eq!(setup_data_stage(&msg(58 | VALID, 0, 0), &setup), Ok(DataStage::NoData { direction: UsbIpDirection::UsbDirIn }));
    assert_eq!(setup_data_stage(&msg(57, 0, 0), &setup), Err(ControllerFailure::NotValid));
    assert_eq!(setup_data_stage(&msg(57 | VALID | NO_RESPONSE, 0, 0), &setup), Err(ControllerFailure::ShouldNeedResponse));
    assert_eq!(check_endpoint_active(3), Ok(()));
    assert_eq!(check_endpoint_active(2), Err(ControllerFailure::EndpointNotActive));
    assert_eq!(setup_copy_length(UsbIpDirection::UsbDirIn, 12, 18), Ok(12));
    assert_eq!(setup_copy_length(UsbIpDirection::UsbDirIn, 19, 18), Err(ControllerFailure::ResponseTooLong));
    assert_eq!(setup_copy_length(UsbIpDirection::UsbDirOut, 19, 18), Ok(0));
    assert_eq!(setup_status_stage(&msg(58 | VALID, 0, 0)), Ok(()));
    assert_eq!(setup_status_stage(&msg(58, 0, 0)), Err(ControllerFailure::NotValid));
    assert_eq!(setup_status_stage(&msg(57 | VALID, 0, 0)), Err(ControllerFailure::NotStatusTransfer));
    assert_eq!(setup_status_stage(&msg(58 | VALID | NO_RESPONSE, 0, 0)), Err(ControllerFailure::ShouldNeedResponse));
    assert_eq!(setup_after_status(&msg(57 | VALID, 0, 0)), Ok(()));
    assert_eq!(setup_after_status(&msg(60 | NO_RESPONSE, 0, 0)), Ok(()));
    assert_eq!(setup_after_status(&msg(60, 0, 0)), Err(ControllerFailure::ShouldNotNeedResponse));
    assert_eq!(setup_after_status(&msg(57, 0, 0)), Err(ControllerFailure::NotLink));
}

#[test]
fn normal_transfer_steps() {
    match normal_transfer_action(&msg(57 | VALID, 0x200, 0xabc), 0x81) {
        NormalAction::Submit { request, length, buffer } => {
            assert_eq!(length, 0x200);
            assert_eq!(buffer, 0xabc);
            assert_eq!(request.direction, UsbIpDirection::UsbDirIn);
            assert_eq!(request.ep, 1);
            assert_eq!(request.transfer_buffer_length, 0x200);
            assert_eq!(request.interval, 10);
            assert_eq!(request.setup_bytes, [0; 8]);
        }
        other => panic!("unexpected {:?}", other),
    }
    assert!(matches!(normal_transfer_action(&msg(57, 0x200, 0), 0x81), NormalAction::Stop));
    assert!(matches!(normal_transfer_action(&msg(60 | VALID, 0, 0), 0x81), NormalAction::Stop));
    assert!(matches!(
        normal_transfer_action(&msg(57 | VALID | NO_RESPONSE, 0, 0), 0x02),
        NormalAction::Fail(ControllerFailure::ShouldNeedResponse)
    ));
    assert_eq!(normal_copy_length(UsbIpDirection::UsbDirIn, 600, 512), 512);
    assert_eq!(normal_copy_length(UsbIpDirection::UsbDirIn, 100, 512), 100);
    assert_eq!(normal_copy_length(UsbIpDirection::UsbDirOut, 100, 512), 0);
    assert!(!completion_error_is_fatal(-536870206));
    assert!(completion_error_is_fatal(-536870212));
}

#[test]
fn created_devices_are_found_by_doorbell() {
    let mut devs: Vec<Device<u8, u8>> = Vec::new();
    for k in 0..5u8 {
        match command_action(&msg(0x20, 0, 0), &devs) {
            CommandAction::CreateDevice { address } => {
                let mut d = Device::new(k, address);
                d.add_endpoint(Endpoint::new(k, 0x81));
                devs.push(d);
            }
            other => panic!("unexpected {:?}", other),
        }
    }
    for a in 1..=5u8 {
        assert_eq!(find_device(&devs, a), Ok((a - 1) as usize));
        let db = 0x8100 | a as u32;
        assert_eq!(doorbell_target(&devs, db).map(|(i, j, _)| (i, j)), Ok(((a - 1) as usize, 0)));
    }
}

#[test]
fn device_list_grows_through_create_and_endpoint_commands() {
    let mut devs: Vec<Device<&'static str, &'static str>> = Vec::new();
    for name in ["a", "b", "c"] {
        match command_action(&msg(0x20, 0, 0), &devs) {
            CommandAction::CreateDevice { address } => create_device(&mut devs, name, address),
            other => panic!("unexpected {:?}", other),
        }
    }
    let addrs: Vec<usize> = devs.iter().map(|d| d.device_address()).collect();
    assert_eq!(addrs, vec![1, 2, 3]);
    assert_eq!(*devs[2].state_machine(), "c");
    assert!(devs.iter().all(|d| d.endpoints().is_empty()));

    assert_eq!(add_endpoint_to(&mut devs, 2, Endpoint::new("ep81", 0x81)), Some(1));
    assert_eq!(add_endpoint_to(&mut devs, 2, Endpoint::new("ep02", 0x02)), Some(1));
    let eps: Vec<usize> = devs[1].endpoints().iter().map(|e| e.endpoint_address()).collect();
    assert_eq!(eps, vec![0x81, 0x02]);
    assert!(devs[0].endpoints().is_empty() && devs[2].endpoints().is_empty());

    assert_eq!(add_endpoint_to(&mut devs, 9, Endpoint::new("lost", 0x83)), None);
    assert_eq!(devs.len(), 3);
    assert_eq!(devs[1].endpoints().len(), 2);
}

#[test]
fn endpoint_goes_to_first_device_with_address() {
    let mut devs: Vec<Device<u8, u8>> = vec![Device::new(0, 7), Device::new(1, 7)];
    assert_eq!(add_endpoint_to(&mut devs, 7, Endpoint::new(5, 0x81)), Some(0));
    assert_eq!(devs[0].endpoints().len(), 1);
    assert!(devs[1].endpoints().is_empty());
}

#[test]
fn control_transfer_with_data_stage() {
    // GET_DESCRIPTOR(device), 18 bytes IN.
    let data1: u64 = 0x0012_0000_0100_0680;
    let mut t = ControlTransfer::new(data1, 0x80);
    assert_eq!(t.setup, decode_setup(data1));
    assert_eq!(t.stage, ControlStage::Setup);
    assert!(matches!(t.step(&msg(0x38 | VALID, 0, data1), 3), Ok(ControlAction::Complete { length: 0 })));
    assert_eq!(t.stage, ControlStage::Data);
    match t.step(&msg(57 | VALID, 0xf000_0012, 0x1000), 3) {
        Ok(ControlAction::SubmitData { request, direction, length, buffer }) => {
            assert_eq!(direction, UsbIpDirection::UsbDirIn);
            assert_eq!(length, 18);
            assert_eq!(buffer, 0x1000);
            assert_eq!(request.direction, UsbIpDirection::UsbDirIn);
            assert_eq!(request.ep, 0);
            assert_eq!(request.transfer_buffer_length, 18);
            assert_eq!(request.interval, 0);
            assert_eq!(request.setup_bytes, [0x80, 0x06, 0x00, 0x01, 0x00, 0x00, 0x12, 0x00]);
        }
        other => panic!("unexpected {:?}", other),
    }
    assert_eq!(t.stage, ControlStage::Status);
    assert!(matches!(t.step(&msg(58 | VALID, 0, 0), 3), Ok(ControlAction::Complete { length: 0 })));
    assert_eq!(t.stage, ControlStage::AfterStatus);
    assert!(matches!(t.step(&msg(60 | NO_RESPONSE, 0, 0), 3), Ok(ControlAction::Finish)));
    assert_eq!(t.stage, ControlStage::Done);
    assert!(matches!(t.step(&msg(0, 0, 0), 0), Ok(ControlAction::Finish)));
}

#[test]
fn control_transfer_without_data_stage() {
    // SET_CONFIGURATION(1), no data, OUT.
    let data1: u64 = 0x0000_0000_0001_0900;
    let mut t = ControlTransfer::new(data1, 0x00);
    assert!(matches!(t.step(&msg(0x38 | VALID, 0, data1), 3), Ok(ControlAction::Complete { length: 0 })));
    match t.step(&msg(58 | VALID, 0, 0), 3) {
        Ok(ControlAction::SubmitNoData { request }) => {
            assert_eq!(request.direction, UsbIpDirection::UsbDirOut);
            assert_eq!(request.transfer_buffer_length, 0);
            assert_eq!(request.setup_bytes, [0x00, 0x09, 0x01, 0x00, 0, 0, 0, 0]);
        }
        other => panic!("unexpected {:?}", other),
    }
    assert!(matches!(t.step(&msg(58 | VALID, 0, 0), 3), Ok(ControlAction::Complete { length: 0 })));
    assert!(matches!(t.step(&msg(57 | VALID, 0, 0), 3), Ok(ControlAction::Finish)));
}

#[test]
fn control_transfer_failures_keep_stage() {
    let mut t = ControlTransfer::new(0x0012_0000_0100_0680, 0x80);
    t.step(&msg(0x38 | VALID, 0, 0), 3).unwrap();
    assert!(matches!(t.step(&msg(57 | VALID, 0x12, 0), 2), Err(ControllerFailure::EndpointNotActive)));
    assert_eq!(t.stage, ControlStage::Data);
    assert!(matches!(t.step(&msg(57, 0x12, 0), 3), Err(ControllerFailure::NotValid)));
    assert!(matches!(t.step(&msg(57 | VALID | NO_RESPONSE, 0x12, 0), 3), Err(ControllerFailure::ShouldNeedResponse)));
    assert_eq!(t.stage, ControlStage::Data);
    t.step(&msg(57 | VALID, 0x12, 0), 3).unwrap();
    assert!(matches!(t.step(&msg(57 | VALID, 0, 0), 3), Err(ControllerFailure::NotStatusTransfer)));
    assert_eq!(t.stage, ControlStage::Status);
    t.step(&msg(58 | VALID, 0, 0), 3).unwrap();
    assert!(matches!(t.step(&msg(60, 0, 0), 3), Err(ControllerFailure::ShouldNotNeedResponse)));
    assert!(matches!(t.step(&msg(57, 0, 0), 3), Err(ControllerFailure::NotLink)));
    assert_eq!(t.stage, ControlStage::AfterStatus);
}

#[test]
fn normal_queue_submits_each_transfer_then_stops() {
    let queue = [msg(57 | VALID, 8, 0x10), msg(57 | VALID, 0x1000_0040, 0x20), msg(57, 0, 0)];
    let mut lengths = Vec::new();
    for m in queue.iter() {
        match normal_transfer_action(m, 0x81) {
            NormalAction::Submit { request, length, .. } => {
                assert_eq!(request.transfer_buffer_length, length);
                lengths.push(length);
            }
            NormalAction::Stop => break,
            NormalAction::Fail(f) => panic!("unexpected {:?}", f),
        }
    }
    assert_eq!(lengths, vec![8, 0x40]);
}
