//! The USB/IP protocol: messages, their wire format, and the client's state.
use vstd::prelude::*;
use std::collections::HashMap;
use crate::wire::{
    be_u16_at, be_u16_bytes, be_u32_at, be_u32_bytes, get_u16, get_u32, lemma_be_bytes_weighted,
    lemma_be_values_weighted, lemma_u32_bytes_roundtrip, lemma_u32_value_roundtrip, put_bytes,
    put_u16, put_u32,
};

verus! {

/// Protocol version sent in every operation request.
pub const USBIP_VERSION: u16 = 0x0111;

/// Size of the USB setup packet carried by a submit command.
pub const SETUP_BYTES_SIZE: usize = 8;

/// Size of the common header of submit commands and their replies.
pub const USB_COMMAND_HEADER_SIZE: usize = 20;

/// Size of a device record without its interface descriptors.
pub const DEVICE_RECORD_SIZE: usize = 312;

/// Size of one interface descriptor in a device record.
pub const INTERFACE_RECORD_SIZE: usize = 4;

/// Size of a submit command without its transfer buffer.
pub const SUBMIT_FIXED_SIZE: usize = 48;

/// Size of a submit reply body (after the header) without its transfer buffer.
pub const RETURN_FIXED_SIZE: usize = 28;

/// Size of the reply header of a device-list request.
pub const DEVLIST_REPLY_HEADER_SIZE: usize = 12;

/// Size of the reply header of an import request.
pub const IMPORT_REPLY_HEADER_SIZE: usize = 8;

/// Operation requests of the USB/IP protocol.
#[derive(Debug, Clone, Copy, PartialEq, Eq, Structural)]
pub enum UsbIpCommand {
    ReqDevlist,
    ReqImport,
}

impl UsbIpCommand {
    /// The operation code sent on the wire.
    pub open spec fn spec_code(self) -> u16 {
        match self {
            UsbIpCommand::ReqDevlist => 0x8005,
            UsbIpCommand::ReqImport => 0x8003,
        }
    }

    /// The operation code sent on the wire.
    pub fn code(self) -> (r: u16)
        ensures
            r == self.spec_code(),
    {
        match self {
            UsbIpCommand::ReqDevlist => 0x8005,
            UsbIpCommand::ReqImport => 0x8003,
        }
    }

    /// The protocol's name for the request.
    pub fn name(self) -> (r: &'static str)
        ensures
            r@ == (match self {
                UsbIpCommand::ReqDevlist => "USBIP_REQ_DEVLIST"@,
                UsbIpCommand::ReqImport => "USBIP_REQ_IMPORT"@,
            }),
    {
        match self {
            UsbIpCommand::ReqDevlist => "USBIP_REQ_DEVLIST",
            UsbIpCommand::ReqImport => "USBIP_REQ_IMPORT",
        }
    }
}

/// URB commands of the USB/IP protocol.
#[derive(Debug, Clone, Copy, PartialEq, Eq, Structural)]
pub enum UsbIpCmdType {
    CmdSubmit,
}

impl UsbIpCmdType {
    /// The command code sent on the wire.
    pub open spec fn spec_code(self) -> u32 {
        match self {
            UsbIpCmdType::CmdSubmit => 0x00000001,
        }
    }

    /// The command code sent on the wire.
    pub fn code(self) -> (r: u32)
        ensures
            r == self.spec_code(),
    {
        match self {
            UsbIpCmdType::CmdSubmit => 0x00000001,
        }
    }

    /// The protocol's name for the command.
    pub fn name(self) -> (r: &'static str)
        ensures
            r@ == "USBIP_CMD_SUBMIT"@,
    {
        match self {
            UsbIpCmdType::CmdSubmit => "USBIP_CMD_SUBMIT",
        }
    }
}

/// Direction of a transfer, seen from the host.
#[derive(Debug, Clone, Copy, PartialEq, Eq, Structural)]
pub enum UsbIpDirection {
    UsbDirOut,
    UsbDirIn,
}

impl UsbIpDirection {
    /// The value sent on the wire: 0 for OUT, 1 for IN.
    pub open spec fn spec_value(self) -> u32 {
        match self {
            UsbIpDirection::UsbDirOut => 0,
            UsbIpDirection::UsbDirIn => 1,
        }
    }

    /// The value sent on the wire: 0 for OUT, 1 for IN.
    pub fn value(self) -> (r: u32)
        ensures
            r == self.spec_value(),
    {
        match self {
            UsbIpDirection::UsbDirOut => 0,
            UsbIpDirection::UsbDirIn => 1,
        }
    }
}

/// The common header of URB commands and replies.
#[derive(Debug, Clone)]
pub struct UsbCommandHeader {
    command: u32,
    seqnum: u32,
    devid: u32,
    direction: u32,
    ep_number: u32,
}

/// The fields of a [`UsbCommandHeader`].
pub struct HeaderModel {
    pub command: u32,
    pub seqnum: u32,
    pub devid: u32,
    pub direction: u32,
    pub ep_number: u32,
}

impl View for UsbCommandHeader {
    type V = HeaderModel;

    closed spec fn view(&self) -> HeaderModel {
        HeaderModel {
            command: self.command,
            seqnum: self.seqnum,
            devid: self.devid,
            direction: self.direction,
            ep_number: self.ep_number,
        }
    }
}

/// The 20 bytes of a header: its five fields, each big-endian, in order.
pub open spec fn header_bytes(h: HeaderModel) -> Seq<u8> {
    be_u32_bytes(h.command) + be_u32_bytes(h.seqnum) + be_u32_bytes(h.devid) + be_u32_bytes(
        h.direction,
    ) + be_u32_bytes(h.ep_number)
}

/// The header that the first 20 bytes of `s` encode.
pub open spec fn header_from_bytes(s: Seq<u8>) -> HeaderModel {
    HeaderModel {
        command: be_u32_at(s, 0),
        seqnum: be_u32_at(s, 4),
        devid: be_u32_at(s, 8),
        direction: be_u32_at(s, 12),
        ep_number: be_u32_at(s, 16),
    }
}

impl UsbCommandHeader {
    pub fn new(command: u32, seqnum: u32, devid: u32, direction: u32, ep_number: u32) -> (r: Self)
        ensures
            r@ == (HeaderModel { command, seqnum, devid, direction, ep_number }),
    {
        Self { command, seqnum, devid, direction, ep_number }
    }

    pub fn seqnum(&self) -> (r: u32)
        ensures
            r == self@.seqnum,
    {
        self.seqnum
    }

    /// Decodes a header from the first 20 bytes of `bytes`.
    pub fn from_bytes(bytes: &[u8]) -> (r: Self)
        requires
            bytes@.len() >= USB_COMMAND_HEADER_SIZE,
        ensures
            r@ == header_from_bytes(bytes@),
    {
        Self::new(
            get_u32(bytes, 0),
            get_u32(bytes, 4),
            get_u32(bytes, 8),
            get_u32(bytes, 12),
            get_u32(bytes, 16),
        )
    }

    /// Encodes the header: its five fields, each big-endian.
    pub fn to_bytes(&self) -> (r: [u8; USB_COMMAND_HEADER_SIZE])
        ensures
            r@ == header_bytes(self@),
    {
        let mut buf: Vec<u8> = Vec::new();
        put_u32(&mut buf, self.command);
        put_u32(&mut buf, self.seqnum);
        put_u32(&mut buf, self.devid);
        put_u32(&mut buf, self.direction);
        put_u32(&mut buf, self.ep_number);
        let r = [
            buf[0], buf[1], buf[2], buf[3], buf[4], buf[5], buf[6], buf[7], buf[8], buf[9],
            buf[10], buf[11], buf[12], buf[13], buf[14], buf[15], buf[16], buf[17], buf[18], buf[19],
        ];
        assert(r@ =~= buf@);
        r
    }
}

/// Decoding the encoding of a header gives the header back.
pub proof fn lemma_header_decode_encode(h: HeaderModel)
    ensures
        header_from_bytes(header_bytes(h)) == h,
{
    let s = header_bytes(h);
    lemma_u32_value_roundtrip(h.command);
    lemma_u32_value_roundtrip(h.seqnum);
    lemma_u32_value_roundtrip(h.devid);
    lemma_u32_value_roundtrip(h.direction);
    lemma_u32_value_roundtrip(h.ep_number);
    assert(s.len() == 20);
    assert(be_u32_at(s, 0) == be_u32_at(be_u32_bytes(h.command), 0));
    assert(be_u32_at(s, 4) == be_u32_at(be_u32_bytes(h.seqnum), 0));
    assert(be_u32_at(s, 8) == be_u32_at(be_u32_bytes(h.devid), 0));
    assert(be_u32_at(s, 12) == be_u32_at(be_u32_bytes(h.direction), 0));
    assert(be_u32_at(s, 16) == be_u32_at(be_u32_bytes(h.ep_number), 0));
}

/// Encoding the header decoded from 20 bytes gives those 20 bytes back.
pub proof fn lemma_header_encode_decode(s: Seq<u8>)
    requires
        s.len() >= USB_COMMAND_HEADER_SIZE,
    ensures
        header_bytes(header_from_bytes(s)) == s.subrange(0, 20),
{
    lemma_u32_bytes_roundtrip(s, 0);
    lemma_u32_bytes_roundtrip(s, 4);
    lemma_u32_bytes_roundtrip(s, 8);
    lemma_u32_bytes_roundtrip(s, 12);
    lemma_u32_bytes_roundtrip(s, 16);
    assert(header_bytes(header_from_bytes(s)) =~= s.subrange(0, 20));
}


/// An interface of a USB device, as listed by the server.
#[derive(Debug, Clone, Copy, PartialEq, Eq, Structural)]
pub struct Interface {
    interface_class: u8,
    interface_subclass: u8,
    interface_protocol: u8,
}

/// The fields of an [`Interface`].
pub struct InterfaceModel {
    pub interface_class: u8,
    pub interface_subclass: u8,
    pub interface_protocol: u8,
}

impl View for Interface {
    type V = InterfaceModel;

    closed spec fn view(&self) -> InterfaceModel {
        InterfaceModel {
            interface_class: self.interface_class,
            interface_subclass: self.interface_subclass,
            interface_protocol: self.interface_protocol,
        }
    }
}

impl Interface {
    pub fn new(interface_class: u8, interface_subclass: u8, interface_protocol: u8) -> (r: Self)
        ensures
            r@ == (InterfaceModel { interface_class, interface_subclass, interface_protocol }),
    {
        Self { interface_class, interface_subclass, interface_protocol }
    }

    pub fn interface_class(&self) -> (r: u8)
        ensures
            r == self@.interface_class,
    {
        self.interface_class
    }

    pub fn interface_subclass(&self) -> (r: u8)
        ensures
            r == self@.interface_subclass,
    {
        self.interface_subclass
    }

    pub fn interface_protocol(&self) -> (r: u8)
        ensures
            r == self@.interface_protocol,
    {
        self.interface_protocol
    }
}

/// A USB device exported by a USB/IP server.
pub struct Device {
    path: [u8; 256],
    busid: [u8; 32],
    busnum: u32,
    devnum: u32,
    speed: u32,
    id_vendor: u16,
    id_product: u16,
    bcd_device: u16,
    device_class: u8,
    device_subclass: u8,
    device_protocol: u8,
    configuration_value: u8,
    num_configurations: u8,
    num_interfaces: u8,
    interfaces: Vec<Interface>,
}

/// The fields of a [`Device`].
pub struct DeviceModel {
    pub path: Seq<u8>,
    pub busid: Seq<u8>,
    pub busnum: u32,
    pub devnum: u32,
    pub speed: u32,
    pub id_vendor: u16,
    pub id_product: u16,
    pub bcd_device: u16,
    pub device_class: u8,
    pub device_subclass: u8,
    pub device_protocol: u8,
    pub configuration_value: u8,
    pub num_configurations: u8,
    pub num_interfaces: u8,
    pub interfaces: Seq<InterfaceModel>,
}

impl View for Device {
    type V = DeviceModel;

    closed spec fn view(&self) -> DeviceModel {
        DeviceModel {
            path: self.path@,
            busid: self.busid@,
            busnum: self.busnum,
            devnum: self.devnum,
            speed: self.speed,
            id_vendor: self.id_vendor,
            id_product: self.id_product,
            bcd_device: self.bcd_device,
            device_class: self.device_class,
            device_subclass: self.device_subclass,
            device_protocol: self.device_protocol,
            configuration_value: self.configuration_value,
            num_configurations: self.num_configurations,
            num_interfaces: self.num_interfaces,
            interfaces: self.interfaces@.map_values(|i: Interface| i@),
        }
    }
}

impl Device {
    #[allow(clippy::too_many_arguments)]
    pub fn new(
        path: [u8; 256],
        busid: [u8; 32],
        busnum: u32,
        devnum: u32,
        speed: u32,
        id_vendor: u16,
        id_product: u16,
        bcd_device: u16,
        device_class: u8,
        device_subclass: u8,
        device_protocol: u8,
        configuration_value: u8,
        num_configurations: u8,
        num_interfaces: u8,
        interfaces: Vec<Interface>,
    ) -> (r: Self)
        ensures
            r@ == (DeviceModel {
                path: path@,
                busid: busid@,
                busnum,
                devnum,
                speed,
                id_vendor,
                id_product,
                bcd_device,
                device_class,
                device_subclass,
                device_protocol,
                configuration_value,
                num_configurations,
                num_interfaces,
                interfaces: interfaces@.map_values(|i: Interface| i@),
            }),
    {
        Self {
            path,
            busid,
            busnum,
            devnum,
            speed,
            id_vendor,
            id_product,
            bcd_device,
            device_class,
            device_subclass,
            device_protocol,
            configuration_value,
            num_configurations,
            num_interfaces,
            interfaces,
        }
    }

    pub fn get_busid(&self) -> (r: &[u8; 32])
        ensures
            r@ == self@.busid,
    {
        &self.busid
    }

    pub fn get_devnum(&self) -> (r: u32)
        ensures
            r == self@.devnum,
    {
        self.devnum
    }

    pub fn get_id_vendor(&self) -> (r: u16)
        ensures
            r == self@.id_vendor,
    {
        self.id_vendor
    }

    pub fn get_id_product(&self) -> (r: u16)
        ensures
            r == self@.id_product,
    {
        self.id_product
    }

    pub fn get_path(&self) -> (r: &[u8; 256])
        ensures
            r@ == self@.path,
    {
        &self.path
    }

    pub fn get_busnum(&self) -> (r: u32)
        ensures
            r == self@.busnum,
    {
        self.busnum
    }

    pub fn get_speed(&self) -> (r: u32)
        ensures
            r == self@.speed,
    {
        self.speed
    }

    pub fn get_bcd_device(&self) -> (r: u16)
        ensures
            r == self@.bcd_device,
    {
        self.bcd_device
    }

    pub fn get_device_class(&self) -> (r: u8)
        ensures
            r == self@.device_class,
    {
        self.device_class
    }

    pub fn get_device_subclass(&self) -> (r: u8)
        ensures
            r == self@.device_subclass,
    {
        self.device_subclass
    }

    pub fn get_device_protocol(&self) -> (r: u8)
        ensures
            r == self@.device_protocol,
    {
        self.device_protocol
    }

    pub fn get_configuration_value(&self) -> (r: u8)
        ensures
            r == self@.configuration_value,
    {
        self.configuration_value
    }

    pub fn get_num_configurations(&self) -> (r: u8)
        ensures
            r == self@.num_configurations,
    {
        self.num_configurations
    }

    pub fn get_num_interfaces(&self) -> (r: u8)
        ensures
            r == self@.num_interfaces,
    {
        self.num_interfaces
    }

    pub fn get_interfaces(&self) -> (r: &[Interface])
        ensures
            r@.map_values(|i: Interface| i@) == self@.interfaces,
    {
        self.interfaces.as_slice()
    }
}

/// The interface described by the four bytes at `s[pos..pos + 4]`
/// (class, subclass, protocol, one byte of padding).
pub open spec fn interface_at(s: Seq<u8>, pos: int) -> InterfaceModel {
    InterfaceModel {
        interface_class: s[pos],
        interface_subclass: s[pos + 1],
        interface_protocol: s[pos + 2],
    }
}

/// The `n` interfaces described by the records that start at `s[start]`.
pub open spec fn interfaces_at(s: Seq<u8>, start: int, n: nat) -> Seq<InterfaceModel> {
    Seq::new(n, |i: int| interface_at(s, start + 4 * i))
}

/// The device that the 312-byte record at the start of `s` describes,
/// with the interfaces given separately.
pub open spec fn device_from_record(s: Seq<u8>, interfaces: Seq<InterfaceModel>) -> DeviceModel {
    DeviceModel {
        path: s.subrange(0, 256),
        busid: s.subrange(256, 288),
        busnum: be_u32_at(s, 288),
        devnum: be_u32_at(s, 292),
        speed: be_u32_at(s, 296),
        id_vendor: be_u16_at(s, 300),
        id_product: be_u16_at(s, 302),
        bcd_device: be_u16_at(s, 304),
        device_class: s[306],
        device_subclass: s[307],
        device_protocol: s[308],
        configuration_value: s[309],
        num_configurations: s[310],
        num_interfaces: s[311],
        interfaces,
    }
}

/// The length of a full device record (fixed part and interface records)
/// whose fixed part starts `s`.
pub open spec fn spec_device_record_len(s: Seq<u8>) -> int
    recommends
        s.len() >= DEVICE_RECORD_SIZE,
{
    DEVICE_RECORD_SIZE + INTERFACE_RECORD_SIZE * (s[311] as int)
}

/// The length of a full device record (fixed part and interface records)
/// whose 312-byte fixed part starts `fixed`: the fixed part and four bytes for
/// each of the interfaces its last byte counts.
pub fn device_record_len(fixed: &[u8]) -> (r: usize)
    requires
        fixed@.len() >= DEVICE_RECORD_SIZE,
    ensures
        r == spec_device_record_len(fixed@),
{
    DEVICE_RECORD_SIZE + INTERFACE_RECORD_SIZE * (fixed[311] as usize)
}

/// Copies `src[start..start + N]` into a new array.
fn copy_array<const N: usize>(src: &[u8], start: usize) -> (r: [u8; N])
    requires
        start + N <= src@.len(),
    ensures
        r@ == src@.subrange(start as int, start + N),
{
    let mut r = [0u8; N];
    let len = src.len();
    let mut i: usize = 0;
    while i < N
        invariant
            len == src@.len(),
            start + N <= src@.len(),
            i <= N,
            r@.len() == N,
            forall|j: int| 0 <= j < i ==> r@[j] == src@[start + j],
        decreases N - i,
    {
        r[i] = src[start + i];
        i = i + 1;
    }
    assert(r@ =~= src@.subrange(start as int, start + N));
    r
}

/// Decodes the 312-byte fixed part of a device record into a device with the given interfaces.
fn device_from_fixed(bytes: &[u8], interfaces: Vec<Interface>) -> (r: Device)
    requires
        bytes@.len() >= DEVICE_RECORD_SIZE,
    ensures
        r@ == device_from_record(bytes@, interfaces@.map_values(|i: Interface| i@)),
{
    let path: [u8; 256] = copy_array(bytes, 0);
    let busid: [u8; 32] = copy_array(bytes, 256);
    Device::new(
        path,
        busid,
        get_u32(bytes, 288),
        get_u32(bytes, 292),
        get_u32(bytes, 296),
        get_u16(bytes, 300),
        get_u16(bytes, 302),
        get_u16(bytes, 304),
        bytes[306],
        bytes[307],
        bytes[308],
        bytes[309],
        bytes[310],
        bytes[311],
        interfaces,
    )
}

/// Decodes a full device record, as sent in reply to a device-list request:
/// the fixed part followed by `num_interfaces` interface records.
/// Returns the device and the length of the record, or `None` when `bytes`
/// is shorter than the record.
pub fn parse_device(bytes: &[u8]) -> (r: Option<(Device, usize)>)
    ensures
        r is None <==> (bytes@.len() < DEVICE_RECORD_SIZE || bytes@.len() < spec_device_record_len(bytes@)),
        r matches Some((d, n)) ==> {
            &&& n == spec_device_record_len(bytes@)
            &&& d@.interfaces.len() == d@.num_interfaces
            &&& d@ == device_from_record(
                bytes@,
                interfaces_at(bytes@, DEVICE_RECORD_SIZE as int, bytes@[311] as nat),
            )
        },
{
    if bytes.len() < DEVICE_RECORD_SIZE {
        return None;
    }
    let count = bytes[311] as usize;
    let total = DEVICE_RECORD_SIZE + INTERFACE_RECORD_SIZE * count;
    if bytes.len() < total {
        return None;
    }
    let mut interfaces: Vec<Interface> = Vec::new();
    let mut k: usize = 0;
    while k < count
        invariant
            count == bytes@[311] as usize,
            total == DEVICE_RECORD_SIZE + INTERFACE_RECORD_SIZE * count,
            total <= bytes@.len(),
            k <= count,
            interfaces@.len() == k,
            forall|j: int|
                0 <= j < k ==> #[trigger] interfaces@[j]@ == interface_at(
                    bytes@,
                    DEVICE_RECORD_SIZE + 4 * j,
                ),
        decreases count - k,
    {
        let pos = DEVICE_RECORD_SIZE + INTERFACE_RECORD_SIZE * k;
        interfaces.push(Interface::new(bytes[pos], bytes[pos + 1], bytes[pos + 2]));
        k = k + 1;
    }
    let ghost parsed = interfaces@.map_values(|i: Interface| i@);
    assert(parsed =~= interfaces_at(bytes@, DEVICE_RECORD_SIZE as int, bytes@[311] as nat));
    Some((device_from_fixed(bytes, interfaces), total))
}

/// Decodes the device record sent in reply to an import request: the fixed
/// part only, with no interface records. Returns `None` when `bytes` is shorter
/// than the record.
pub fn parse_imported_device(bytes: &[u8]) -> (r: Option<Device>)
    ensures
        r is None <==> bytes@.len() < DEVICE_RECORD_SIZE,
        r matches Some(d) ==> d@ == device_from_record(bytes@, Seq::empty()),
{
    if bytes.len() < DEVICE_RECORD_SIZE {
        return None;
    }
    let interfaces: Vec<Interface> = Vec::new();
    proof {
        assert(interfaces@.map_values(|i: Interface| i@) =~= Seq::<InterfaceModel>::empty());
    }
    Some(device_from_fixed(bytes, interfaces))
}


/// A `USBIP_CMD_SUBMIT` command: a transfer request for one endpoint.
#[derive(Debug, Clone)]
pub struct UsbCommandSubmit {
    header: UsbCommandHeader,
    transfer_flags: u32,
    transfer_buffer_length: u32,
    start_frame: u32,
    number_of_packets: u32,
    interval: u32,
    setup_bytes: [u8; SETUP_BYTES_SIZE],
    transfer_buffer: Vec<u8>,
}

/// The fields of a [`UsbCommandSubmit`].
pub struct SubmitModel {
    pub header: HeaderModel,
    pub transfer_flags: u32,
    pub transfer_buffer_length: u32,
    pub start_frame: u32,
    pub number_of_packets: u32,
    pub interval: u32,
    pub setup_bytes: Seq<u8>,
    pub transfer_buffer: Seq<u8>,
}

impl View for UsbCommandSubmit {
    type V = SubmitModel;

    closed spec fn view(&self) -> SubmitModel {
        SubmitModel {
            header: self.header@,
            transfer_flags: self.transfer_flags,
            transfer_buffer_length: self.transfer_buffer_length,
            start_frame: self.start_frame,
            number_of_packets: self.number_of_packets,
            interval: self.interval,
            setup_bytes: self.setup_bytes@,
            transfer_buffer: self.transfer_buffer@,
        }
    }
}

/// The bytes of a submit command: the header, five big-endian fields,
/// the setup packet and the transfer buffer, in order.
pub open spec fn submit_bytes(c: SubmitModel) -> Seq<u8> {
    header_bytes(c.header) + be_u32_bytes(c.transfer_flags) + be_u32_bytes(
        c.transfer_buffer_length,
    ) + be_u32_bytes(c.start_frame) + be_u32_bytes(c.number_of_packets) + be_u32_bytes(c.interval)
        + c.setup_bytes + c.transfer_buffer
}

impl UsbCommandSubmit {
    #[allow(clippy::too_many_arguments)]
    pub fn new(
        header: UsbCommandHeader,
        transfer_flags: u32,
        transfer_buffer_length: u32,
        start_frame: u32,
        number_of_packets: u32,
        interval: u32,
        setup_bytes: [u8; SETUP_BYTES_SIZE],
        transfer_buffer: Vec<u8>,
    ) -> (r: Self)
        ensures
            r@ == (SubmitModel {
                header: header@,
                transfer_flags,
                transfer_buffer_length,
                start_frame,
                number_of_packets,
                interval,
                setup_bytes: setup_bytes@,
                transfer_buffer: transfer_buffer@,
            }),
    {
        Self {
            header,
            transfer_flags,
            transfer_buffer_length,
            start_frame,
            number_of_packets,
            interval,
            setup_bytes,
            transfer_buffer,
        }
    }

    pub fn header(&self) -> (r: &UsbCommandHeader)
        ensures
            r@ == self@.header,
    {
        &self.header
    }

    /// Encodes the command as it is sent to the server.
    pub fn to_bytes(&self) -> (r: Vec<u8>)
        requires
            self@.transfer_buffer.len() + SUBMIT_FIXED_SIZE <= isize::MAX,
        ensures
            r@ == submit_bytes(self@),
            r@.len() == SUBMIT_FIXED_SIZE + self@.transfer_buffer.len(),
    {
        let mut buf: Vec<u8> = Vec::new();
        let header = self.header.to_bytes();
        put_bytes(&mut buf, header.as_slice());
        put_u32(&mut buf, self.transfer_flags);
        put_u32(&mut buf, self.transfer_buffer_length);
        put_u32(&mut buf, self.start_frame);
        put_u32(&mut buf, self.number_of_packets);
        put_u32(&mut buf, self.interval);
        put_bytes(&mut buf, self.setup_bytes.as_slice());
        put_bytes(&mut buf, self.transfer_buffer.as_slice());
        buf
    }
}

/// The reply to a submit command: the outcome of the transfer.
#[derive(Debug)]
pub struct UsbReturnSubmit {
    header: UsbCommandHeader,
    status: u32,
    pub actual_length: u32,
    start_frame: u32,
    number_of_packets: u32,
    error_count: u32,
    pub buffer: Vec<u8>,
}

/// The fields of a [`UsbReturnSubmit`].
pub struct ReturnModel {
    pub header: HeaderModel,
    pub status: u32,
    pub actual_length: u32,
    pub start_frame: u32,
    pub number_of_packets: u32,
    pub error_count: u32,
    pub buffer: Seq<u8>,
}

impl View for UsbReturnSubmit {
    type V = ReturnModel;

    closed spec fn view(&self) -> ReturnModel {
        ReturnModel {
            header: self.header@,
            status: self.status,
            actual_length: self.actual_length,
            start_frame: self.start_frame,
            number_of_packets: self.number_of_packets,
            error_count: self.error_count,
            buffer: self.buffer@,
        }
    }
}

/// How many transfer bytes follow the fixed part `fixed` of a submit reply:
/// `actual_length` for an IN transfer, none for an OUT transfer.
pub open spec fn spec_return_payload_len(direction: UsbIpDirection, fixed: Seq<u8>) -> int {
    match direction {
        UsbIpDirection::UsbDirIn => be_u32_at(fixed, 4) as int,
        UsbIpDirection::UsbDirOut => 0,
    }
}

/// The submit reply that `body` (the bytes after the header) encodes.
pub open spec fn return_from_bytes(
    direction: UsbIpDirection,
    header: HeaderModel,
    body: Seq<u8>,
) -> ReturnModel {
    ReturnModel {
        header,
        status: be_u32_at(body, 0),
        actual_length: be_u32_at(body, 4),
        start_frame: be_u32_at(body, 8),
        number_of_packets: be_u32_at(body, 12),
        error_count: be_u32_at(body, 16),
        buffer: body.subrange(
            RETURN_FIXED_SIZE as int,
            RETURN_FIXED_SIZE + spec_return_payload_len(direction, body),
        ),
    }
}

impl UsbReturnSubmit {
    /// How many transfer bytes follow the 28-byte fixed part of a submit reply.
    pub fn payload_len(direction: UsbIpDirection, fixed: &[u8]) -> (r: usize)
        requires
            fixed@.len() >= RETURN_FIXED_SIZE,
        ensures
            r == spec_return_payload_len(direction, fixed@),
    {
        match direction {
            UsbIpDirection::UsbDirIn => get_u32(fixed, 4) as usize,
            UsbIpDirection::UsbDirOut => 0,
        }
    }

    /// Decodes the body of a submit reply (status, actual length, start frame,
    /// number of packets, error count, eight unused bytes, then the transfer
    /// data of an IN transfer). Returns the reply and the number of bytes it
    /// took, or `None` when `body` is shorter than that.
    pub fn from_header_and_bytes(
        direction: UsbIpDirection,
        header: UsbCommandHeader,
        body: &[u8],
    ) -> (r: Option<(Self, usize)>)
        ensures
            r is None <==> (body@.len() < RETURN_FIXED_SIZE || body@.len() < RETURN_FIXED_SIZE
                + spec_return_payload_len(direction, body@)),
            r matches Some((ret, n)) ==> {
                &&& ret@ == return_from_bytes(direction, header@, body@)
                &&& ret@.buffer.len() == spec_return_payload_len(direction, body@)
                &&& n == RETURN_FIXED_SIZE + spec_return_payload_len(direction, body@)
            },
    {
        if body.len() < RETURN_FIXED_SIZE {
            return None;
        }
        let payload = Self::payload_len(direction, body);
        if body.len() - RETURN_FIXED_SIZE < payload {
            return None;
        }
        let total = RETURN_FIXED_SIZE + payload;
        let mut buffer: Vec<u8> = Vec::new();
        let mut i: usize = RETURN_FIXED_SIZE;
        while i < total
            invariant
                total == RETURN_FIXED_SIZE + payload,
                total <= body@.len(),
                RETURN_FIXED_SIZE <= i <= total,
                buffer@ == body@.subrange(RETURN_FIXED_SIZE as int, i as int),
            decreases total - i,
        {
            buffer.push(body[i]);
            assert(buffer@ =~= body@.subrange(RETURN_FIXED_SIZE as int, i + 1));
            i = i + 1;
        }
        let ret = UsbReturnSubmit {
            header,
            status: get_u32(body, 0),
            actual_length: get_u32(body, 4),
            start_frame: get_u32(body, 8),
            number_of_packets: get_u32(body, 12),
            error_count: get_u32(body, 16),
            buffer,
        };
        Some((ret, total))
    }

    pub fn header(&self) -> (r: &UsbCommandHeader)
        ensures
            r@ == self@.header,
    {
        &self.header
    }

    pub fn status(&self) -> (r: u32)
        ensures
            r == self@.status,
    {
        self.status
    }

    pub fn start_frame(&self) -> (r: u32)
        ensures
            r == self@.start_frame,
    {
        self.start_frame
    }

    pub fn number_of_packets(&self) -> (r: u32)
        ensures
            r == self@.number_of_packets,
    {
        self.number_of_packets
    }

    pub fn error_count(&self) -> (r: u32)
        ensures
            r == self@.error_count,
    {
        self.error_count
    }
}

/// The bytes of an operation request header: version, operation code, and a zero status.
pub open spec fn op_request_header(command: UsbIpCommand) -> Seq<u8> {
    be_u16_bytes(USBIP_VERSION) + be_u16_bytes(command.spec_code()) + be_u32_bytes(0)
}

/// The device-list request: the 8-byte operation header of `USBIP_REQ_DEVLIST`.
pub fn device_list_request() -> (r: Vec<u8>)
    ensures
        r@ == op_request_header(UsbIpCommand::ReqDevlist),
        r@.len() == 8,
{
    let mut request: Vec<u8> = Vec::with_capacity(48);
    put_u16(&mut request, USBIP_VERSION);
    put_u16(&mut request, UsbIpCommand::ReqDevlist.code());
    put_u32(&mut request, 0);
    request.resize(8, 0);
    proof {
        assert(request@ =~= op_request_header(UsbIpCommand::ReqDevlist));
    }
    request
}

/// The import request for the device with bus id `busid`: the operation
/// header of `USBIP_REQ_IMPORT` followed by the 32 bytes of the bus id.
pub fn import_request(busid: &[u8; 32]) -> (r: Vec<u8>)
    ensures
        r@ == op_request_header(UsbIpCommand::ReqImport) + busid@,
        r@.len() == 40,
{
    let mut request: Vec<u8> = Vec::with_capacity(48);
    put_u16(&mut request, USBIP_VERSION);
    put_u16(&mut request, UsbIpCommand::ReqImport.code());
    put_u32(&mut request, 0);
    put_bytes(&mut request, busid.as_slice());
    request.resize(40, 0);
    proof {
        assert(request@ =~= op_request_header(UsbIpCommand::ReqImport) + busid@);
    }
    request
}

/// The number of devices announced by the 12-byte header of a device-list
/// reply (version, reply code, status, device count), or `None` when `bytes`
/// is shorter than that header.
pub fn parse_device_list_header(bytes: &[u8]) -> (r: Option<u32>)
    ensures
        r is None <==> bytes@.len() < DEVLIST_REPLY_HEADER_SIZE,
        r matches Some(n) ==> n == be_u32_at(bytes@, 8),
{
    if bytes.len() < DEVLIST_REPLY_HEADER_SIZE {
        None
    } else {
        Some(get_u32(bytes, 8))
    }
}

/// The status announced by the 8-byte header of an import reply (version,
/// reply code, status), or `None` when `bytes` is shorter than that header.
pub fn parse_import_reply_header(bytes: &[u8]) -> (r: Option<u32>)
    ensures
        r is None <==> bytes@.len() < IMPORT_REPLY_HEADER_SIZE,
        r matches Some(status) ==> status == be_u32_at(bytes@, 4),
{
    if bytes.len() < IMPORT_REPLY_HEADER_SIZE {
        None
    } else {
        Some(get_u32(bytes, 4))
    }
}

/// Errors that the client reports.
#[derive(Debug, Clone, Copy, PartialEq, Eq, Structural)]
pub enum UsbIpError {
    /// No connection to a server.
    NotConnected,
    /// No device has been imported.
    DeviceNotImported,
    /// The server refused the import request.
    ImportFailed,
}

impl UsbIpError {
    /// The message that describes the error.
    pub fn message(&self) -> (r: &'static str)
        ensures
            r@ == (match self {
                UsbIpError::NotConnected => "Not connected"@,
                UsbIpError::DeviceNotImported => "Device not imported"@,
                UsbIpError::ImportFailed => "Import failed"@,
            }),
    {
        match self {
            UsbIpError::NotConnected => "Not connected",
            UsbIpError::DeviceNotImported => "Device not imported",
            UsbIpError::ImportFailed => "Import failed",
        }
    }
}

/// An import succeeds exactly when the server answers with status 0.
pub fn check_import_status(status: u32) -> (r: Result<(), UsbIpError>)
    ensures
        r is Ok <==> status == 0,
        r matches Err(e) ==> e == UsbIpError::ImportFailed,
{
    if status != 0 {
        Err(UsbIpError::ImportFailed)
    } else {
        Ok(())
    }
}


/// The sequence number that follows `s`: one more, wrapping to 0 after `u32::MAX`.
pub open spec fn next_seqnum(s: u32) -> u32 {
    if s == u32::MAX {
        0
    } else {
        (s + 1) as u32
    }
}

/// The device id of a device on the wire: its bus number in the high
/// 16 bits and its device number in the low 16 bits.
pub open spec fn spec_devid(busnum: u32, devnum: u32) -> u32 {
    ((busnum << 16u32) | devnum) as u32
}

/// The state of a USB/IP client: whether it is connected, the device it has
/// imported, the sequence number of the last submit command, and the submit
/// commands that wait for their reply, each with its transfer direction and a
/// waiter `W` that the reply is handed to.
pub struct UsbIpClient<W> {
    connected: bool,
    imported_device: Option<Device>,
    seqnum: u32,
    pending: HashMap<u32, (UsbIpDirection, W)>,
}

/// The state of a [`UsbIpClient`].
pub struct ClientModel<W> {
    pub connected: bool,
    pub imported_device: Option<DeviceModel>,
    pub seqnum: u32,
    pub pending: Map<u32, (UsbIpDirection, W)>,
}

impl<W> View for UsbIpClient<W> {
    type V = ClientModel<W>;

    closed spec fn view(&self) -> ClientModel<W> {
        ClientModel {
            connected: self.connected,
            imported_device: match self.imported_device {
                Some(d) => Some(d@),
                None => None,
            },
            seqnum: self.seqnum,
            pending: self.pending@,
        }
    }
}

/// The submit command that a client with last sequence number `seqnum`
/// builds for `device`.
pub open spec fn submit_command_for(
    seqnum: u32,
    device: DeviceModel,
    direction: UsbIpDirection,
    ep: u32,
    transfer_flags: u32,
    transfer_buffer_length: u32,
    start_frame: u32,
    number_of_packets: u32,
    interval: u32,
    setup_bytes: Seq<u8>,
    transfer_buffer: Seq<u8>,
) -> SubmitModel {
    SubmitModel {
        header: HeaderModel {
            command: UsbIpCmdType::CmdSubmit.spec_code(),
            seqnum,
            devid: spec_devid(device.busnum, device.devnum),
            direction: direction.spec_value(),
            ep_number: ep,
        },
        transfer_flags,
        transfer_buffer_length,
        start_frame,
        number_of_packets,
        interval,
        setup_bytes,
        transfer_buffer,
    }
}

impl<W> UsbIpClient<W> {
    /// A client that is not connected, has imported no device, and waits for no reply.
    pub fn new() -> (r: Self)
        ensures
            !r@.connected,
            r@.imported_device is None,
            r@.seqnum == 0,
            r@.pending == Map::<u32, (UsbIpDirection, W)>::empty(),
    {
        Self { connected: false, imported_device: None, seqnum: 0, pending: HashMap::new() }
    }

    /// Records that a connection to a server is open.
    pub fn set_connected(&mut self)
        ensures
            final(self)@ == (ClientModel { connected: true, ..old(self)@ }),
    {
        self.connected = true;
    }

    /// Records that the connection to the server is gone.
    pub fn set_disconnected(&mut self)
        ensures
            final(self)@ == (ClientModel { connected: false, ..old(self)@ }),
    {
        self.connected = false;
    }

    pub fn is_connected(&self) -> (r: bool)
        ensures
            r == self@.connected,
    {
        self.connected
    }

    /// The sequence number of the last submit command.
    pub fn seqnum(&self) -> (r: u32)
        ensures
            r == self@.seqnum,
    {
        self.seqnum
    }

    /// Succeeds when a connection is open.
    pub fn check_connected(&self) -> (r: Result<(), UsbIpError>)
        ensures
            r is Ok <==> self@.connected,
            r matches Err(e) ==> e == UsbIpError::NotConnected,
    {
        if self.connected {
            Ok(())
        } else {
            Err(UsbIpError::NotConnected)
        }
    }

    /// The imported device, if there is one.
    pub fn get_imported_device(&self) -> (r: Result<&Device, UsbIpError>)
        ensures
            r is Ok <==> self@.imported_device is Some,
            r matches Ok(d) ==> self@.imported_device == Some(d@),
            r matches Err(e) ==> e == UsbIpError::DeviceNotImported,
    {
        match &self.imported_device {
            Some(d) => Ok(d),
            None => Err(UsbIpError::DeviceNotImported),
        }
    }

    /// Records the device that the server has let the client import.
    pub fn set_imported_device(&mut self, device: Device)
        ensures
            final(self)@ == (ClientModel { imported_device: Some(device@), ..old(self)@ }),
    {
        self.imported_device = Some(device);
    }

    /// Builds the submit command for `device` with the client's current sequence number.
    #[allow(clippy::too_many_arguments)]
    pub fn create_submit_command(
        &self,
        device: &Device,
        direction: UsbIpDirection,
        ep: u32,
        transfer_flags: u32,
        transfer_buffer_length: u32,
        start_frame: u32,
        number_of_packets: u32,
        interval: u32,
        setup_bytes: [u8; SETUP_BYTES_SIZE],
        transfer_buffer: &[u8],
    ) -> (r: UsbCommandSubmit)
        ensures
            r@ == submit_command_for(
                self@.seqnum,
                device@,
                direction,
                ep,
                transfer_flags,
                transfer_buffer_length,
                start_frame,
                number_of_packets,
                interval,
                setup_bytes@,
                transfer_buffer@,
            ),
    {
        UsbCommandSubmit::new(
            UsbCommandHeader::new(
                UsbIpCmdType::CmdSubmit.code(),
                self.seqnum,
                (device.busnum << 16u32) | device.devnum,
                direction.value(),
                ep,
            ),
            transfer_flags,
            transfer_buffer_length,
            start_frame,
            number_of_packets,
            interval,
            setup_bytes,
            vstd::slice::slice_to_vec(transfer_buffer),
        )
    }

    /// The first half of a submit: advances the sequence number (wrapping after
    /// `u32::MAX`), then builds the command for the imported device. Fails, after
    /// advancing the sequence number, when no device is imported or, after that,
    /// when no connection is open. On success returns the new sequence number
    /// and the command to send.
    #[allow(clippy::too_many_arguments)]
    pub fn cmd_submit(
        &mut self,
        direction: UsbIpDirection,
        ep: u32,
        transfer_flags: u32,
        transfer_buffer_length: u32,
        start_frame: u32,
        number_of_packets: u32,
        interval: u32,
        setup_bytes: [u8; SETUP_BYTES_SIZE],
        transfer_buffer: &[u8],
    ) -> (r: Result<(u32, UsbCommandSubmit), UsbIpError>)
        ensures
            final(self)@ == (ClientModel { seqnum: next_seqnum(old(self)@.seqnum), ..old(self)@ }),
            old(self)@.imported_device is None ==> r == Err::<(u32, UsbCommandSubmit), UsbIpError>(
                UsbIpError::DeviceNotImported,
            ),
            old(self)@.imported_device is Some && !old(self)@.connected ==> r == Err::<
                (u32, UsbCommandSubmit),
                UsbIpError,
            >(UsbIpError::NotConnected),
            r is Ok <==> (old(self)@.imported_device is Some && old(self)@.connected),
            r matches Ok((s, cmd)) ==> {
                &&& s == next_seqnum(old(self)@.seqnum)
                &&& cmd@ == submit_command_for(
                    s,
                    old(self)@.imported_device.unwrap(),
                    direction,
                    ep,
                    transfer_flags,
                    transfer_buffer_length,
                    start_frame,
                    number_of_packets,
                    interval,
                    setup_bytes@,
                    transfer_buffer@,
                )
            },
    {
        self.seqnum = self.seqnum.wrapping_add(1);
        let seqnum = self.seqnum;
        let cmd = match &self.imported_device {
            Some(device) => self.create_submit_command(
                device,
                direction,
                ep,
                transfer_flags,
                transfer_buffer_length,
                start_frame,
                number_of_packets,
                interval,
                setup_bytes,
                transfer_buffer,
            ),
            None => return Err(UsbIpError::DeviceNotImported),
        };
        if !self.connected {
            return Err(UsbIpError::NotConnected);
        }
        Ok((seqnum, cmd))
    }

    /// Records that the command with sequence number `seqnum` waits for its
    /// reply; the reply is for a transfer in `direction` and goes to `waiter`.
    pub fn register_pending(&mut self, seqnum: u32, direction: UsbIpDirection, waiter: W)
        ensures
            final(self)@ == (ClientModel {
                pending: old(self)@.pending.insert(seqnum, (direction, waiter)),
                ..old(self)@
            }),
    {
        self.pending.insert(seqnum, (direction, waiter));
    }

    /// Whether a command with sequence number `seqnum` waits for its reply.
    pub fn is_pending(&self, seqnum: u32) -> (r: bool)
        ensures
            r == self@.pending.contains_key(seqnum),
    {
        self.pending.contains_key(&seqnum)
    }

    /// Takes out the command with sequence number `seqnum` that waits for its
    /// reply: its direction and waiter, or `None` when no such command waits.
    pub fn take_pending(&mut self, seqnum: u32) -> (r: Option<(UsbIpDirection, W)>)
        ensures
            final(self)@ == (ClientModel {
                pending: old(self)@.pending.remove(seqnum),
                ..old(self)@
            }),
            r == (if old(self)@.pending.contains_key(seqnum) {
                Some(old(self)@.pending[seqnum])
            } else {
                None
            }),
    {
        self.pending.remove(&seqnum)
    }
}


/// The first 20 bytes of a submit command are its header, which decodes back
/// to the command's header; the command takes 48 bytes besides its buffer.
pub proof fn lemma_submit_header_roundtrip(c: SubmitModel)
    requires
        c.setup_bytes.len() == SETUP_BYTES_SIZE,
    ensures
        header_from_bytes(submit_bytes(c)) == c.header,
        submit_bytes(c).subrange(0, 20) == header_bytes(c.header),
        submit_bytes(c).len() == SUBMIT_FIXED_SIZE + c.transfer_buffer.len(),
{
    let s = submit_bytes(c);
    let h = header_bytes(c.header);
    lemma_header_decode_encode(c.header);
    assert(s.subrange(0, 20) =~= h);
    assert(forall|k: int| 0 <= k < 20 ==> s[k] == h[k]);
    assert(header_from_bytes(s) == header_from_bytes(h));
}

/// A reply whose sequence number a submit command registered is handed to
/// that command's waiter, with that command's direction, and afterwards no
/// command with that sequence number waits any more.
pub proof fn lemma_reply_reaches_registered_waiter<W>(
    pending: Map<u32, (UsbIpDirection, W)>,
    seqnum: u32,
    direction: UsbIpDirection,
    waiter: W,
)
    ensures
        pending.insert(seqnum, (direction, waiter)).contains_key(seqnum),
        pending.insert(seqnum, (direction, waiter))[seqnum] == (direction, waiter),
        pending.insert(seqnum, (direction, waiter)).remove(seqnum) == pending.remove(seqnum),
        !pending.insert(seqnum, (direction, waiter)).remove(seqnum).contains_key(seqnum),
{
    assert(pending.insert(seqnum, (direction, waiter)).remove(seqnum) =~= pending.remove(seqnum));
}

/// A reply whose sequence number no waiting command has is handed to no one
/// and leaves the waiting commands as they were.
pub proof fn lemma_unknown_reply_changes_nothing<W>(pending: Map<u32, (UsbIpDirection, W)>, seqnum: u32)
    requires
        !pending.contains_key(seqnum),
    ensures
        pending.remove(seqnum) == pending,
{
    assert(pending.remove(seqnum) =~= pending);
}

/// The sequence number after `k` submit commands starting from `s`.
pub open spec fn seqnum_after(s: u32, k: nat) -> u32
    decreases k,
{
    if k == 0 {
        s
    } else {
        next_seqnum(seqnum_after(s, (k - 1) as nat))
    }
}

/// After `k` submit commands the sequence number has advanced by `k` modulo 2^32,
/// so the 2^32 commands after any point all get different sequence numbers.
pub proof fn lemma_seqnum_after(s: u32, k: nat)
    ensures
        seqnum_after(s, k) == (s + k) % 0x1_0000_0000,
    decreases k,
{
    if k > 0 {
        lemma_seqnum_after(s, (k - 1) as nat);
        let p = seqnum_after(s, (k - 1) as nat);
        assert(p == (s + k - 1) % 0x1_0000_0000);
        assert(next_seqnum(p) == (p + 1) % 0x1_0000_0000);
        vstd::arithmetic::div_mod::lemma_add_mod_noop(s + k - 1, 1, 0x1_0000_0000);
        vstd::arithmetic::div_mod::lemma_mod_twice(s + k - 1, 0x1_0000_0000);
        vstd::arithmetic::div_mod::lemma_small_mod(1, 0x1_0000_0000);
    }
}

/// Two submit commands fewer than 2^32 commands apart get different sequence numbers.
pub proof fn lemma_seqnums_distinct(s: u32, j: nat, k: nat)
    requires
        j < k,
        k - j < 0x1_0000_0000,
    ensures
        seqnum_after(s, j) != seqnum_after(s, k),
{
    lemma_seqnum_after(s, j);
    lemma_seqnum_after(s, k);
    vstd::arithmetic::div_mod::lemma_fundamental_div_mod(s + j, 0x1_0000_0000);
    vstd::arithmetic::div_mod::lemma_fundamental_div_mod(s + k, 0x1_0000_0000);
    if seqnum_after(s, j) == seqnum_after(s, k) {
        let qj = (s + j) / 0x1_0000_0000;
        let qk = (s + k) / 0x1_0000_0000;
        assert((k - j) == 0x1_0000_0000 * (qk - qj));
        assert(0 < k - j < 0x1_0000_0000);
        assert(false) by (nonlinear_arith)
            requires
                (k - j) == 0x1_0000_0000 * (qk - qj),
                0 < k - j < 0x1_0000_0000,
        ;
    }
}

/// Whether `after` is the client state that one call of
/// [`UsbIpClient::cmd_submit`] leaves behind `before`, whether it succeeds or
/// fails: the sequence number advanced by one, wrapping after `u32::MAX`, and
/// nothing else changed.
pub open spec fn submit_step<W>(before: ClientModel<W>, after: ClientModel<W>) -> bool {
    after == (ClientModel { seqnum: next_seqnum(before.seqnum), ..before })
}

/// Over any run of submit calls, each of which succeeds or fails, from a client
/// whose sequence number is `s0 = clients[0].seqnum`: after `k` calls the
/// sequence number is `s0 + k` modulo 2^32, which is the number the `k`-th
/// call (counting from 1) sends its command under; so calls fewer than 2^32
/// apart use different sequence numbers.
pub proof fn lemma_submit_run_seqnums<W>(clients: Seq<ClientModel<W>>)
    requires
        clients.len() >= 1,
        forall|k: int| 0 < k < clients.len() ==> submit_step(clients[k - 1], #[trigger] clients[k]),
    ensures
        forall|k: int|
            0 <= k < clients.len() ==> (#[trigger] clients[k]).seqnum == seqnum_after(
                clients[0].seqnum,
                k as nat,
            ) && clients[k].seqnum == (clients[0].seqnum + k) % 0x1_0000_0000,
        forall|j: int, k: int|
            0 <= j < k < clients.len() && k - j < 0x1_0000_0000 ==> (#[trigger] clients[j]).seqnum
                != (#[trigger] clients[k]).seqnum,
    decreases clients.len(),
{
    let s0 = clients[0].seqnum;
    if clients.len() > 1 {
        let shorter = clients.drop_last();
        assert forall|k: int| 0 < k < shorter.len() implies submit_step(
            shorter[k - 1],
            #[trigger] shorter[k],
        ) by {
            assert(shorter[k - 1] == clients[k - 1]);
            assert(shorter[k] == clients[k]);
        }
        lemma_submit_run_seqnums(shorter);
        let n = clients.len() - 1;
        assert(submit_step(clients[n - 1], clients[n]));
        assert(shorter[n - 1] == clients[n - 1]);
        assert(shorter[0] == clients[0]);
    }
    assert forall|k: int| 0 <= k < clients.len() implies (#[trigger] clients[k]).seqnum
        == seqnum_after(s0, k as nat) && clients[k].seqnum == (s0 + k) % 0x1_0000_0000 by {
        if k < clients.len() - 1 {
            assert(clients.drop_last()[k] == clients[k]);
        } else if k > 0 {
            assert(clients.drop_last()[k - 1] == clients[k - 1]);
            assert(submit_step(clients[k - 1], clients[k]));
        }
        lemma_seqnum_after(s0, k as nat);
    }
    assert forall|j: int, k: int|
        0 <= j < k < clients.len() && k - j < 0x1_0000_0000 implies (#[trigger] clients[j]).seqnum
        != (#[trigger] clients[k]).seqnum by {
        lemma_seqnums_distinct(s0, j as nat, k as nat);
    }
}

/// The big-endian 32-bit value of `s[pos..pos + 4]`, by weight.
pub open spec fn be32(s: Seq<u8>, pos: int) -> int {
    0x100_0000 * s[pos] + 0x1_0000 * s[pos + 1] + 0x100 * s[pos + 2] + s[pos + 3]
}

/// The big-endian 16-bit value of `s[pos..pos + 2]`, by weight.
pub open spec fn be16(s: Seq<u8>, pos: int) -> int {
    0x100 * s[pos] + s[pos + 1]
}

/// Each field of a decoded device record comes from its own offset of the
/// record: the path from bytes 0..256, the bus id from 256..288, then the
/// big-endian bus number (288), device number (292) and speed (296), vendor
/// id (300), product id (302) and bcdDevice (304), then one byte each for
/// the device class (306), subclass (307), protocol (308), configuration value
/// (309), number of configurations (310) and number of interfaces (311). Each
/// interface record that follows gives class, subclass and protocol in its
/// first three bytes.
pub proof fn lemma_device_record_fields(s: Seq<u8>, interfaces: Seq<InterfaceModel>, n: nat)
    requires
        s.len() >= DEVICE_RECORD_SIZE,
    ensures
        ({
            let d = device_from_record(s, interfaces);
            &&& d.path == s.subrange(0, 256)
            &&& d.busid == s.subrange(256, 288)
            &&& d.busnum == be32(s, 288)
            &&& d.devnum == be32(s, 292)
            &&& d.speed == be32(s, 296)
            &&& d.id_vendor == be16(s, 300)
            &&& d.id_product == be16(s, 302)
            &&& d.bcd_device == be16(s, 304)
            &&& d.device_class == s[306]
            &&& d.device_subclass == s[307]
            &&& d.device_protocol == s[308]
            &&& d.configuration_value == s[309]
            &&& d.num_configurations == s[310]
            &&& d.num_interfaces == s[311]
            &&& d.interfaces == interfaces
        }),
        interfaces_at(s, DEVICE_RECORD_SIZE as int, n).len() == n,
        forall|i: int|
            0 <= i < n ==> {
                let f = #[trigger] interfaces_at(s, DEVICE_RECORD_SIZE as int, n)[i];
                &&& f.interface_class == s[312 + 4 * i]
                &&& f.interface_subclass == s[313 + 4 * i]
                &&& f.interface_protocol == s[314 + 4 * i]
            },
{
    lemma_be_values_weighted(s[288], s[289], s[290], s[291]);
    lemma_be_values_weighted(s[292], s[293], s[294], s[295]);
    lemma_be_values_weighted(s[296], s[297], s[298], s[299]);
    lemma_be_values_weighted(s[300], s[301], 0, 0);
    lemma_be_values_weighted(s[302], s[303], 0, 0);
    lemma_be_values_weighted(s[304], s[305], 0, 0);
}

/// For bus and device numbers below 2^16, the device id of a device holds its
/// bus number in the high 16 bits and its device number in the low 16 bits.
pub proof fn lemma_devid_fields(busnum: u32, devnum: u32)
    requires
        busnum < 0x1_0000,
        devnum < 0x1_0000,
    ensures
        spec_devid(busnum, devnum) == 0x1_0000 * busnum + devnum,
        spec_devid(busnum, devnum) >> 16u32 == busnum,
        spec_devid(busnum, devnum) & 0xffffu32 == devnum,
{
    assert(((busnum << 16u32) | devnum) as u32 == 0x1_0000 * busnum + devnum) by (bit_vector)
        requires
            busnum < 0x1_0000,
            devnum < 0x1_0000,
    ;
    assert((((busnum << 16u32) | devnum) as u32) >> 16u32 == busnum && (((busnum << 16u32)
        | devnum) as u32) & 0xffffu32 == devnum) by (bit_vector)
        requires
            busnum < 0x1_0000,
            devnum < 0x1_0000,
    ;
}

/// The header of the submit command a client builds for `device` with
/// sequence number `seqnum` is a `USBIP_CMD_SUBMIT` (command 1) under that
/// sequence number, for the endpoint `ep`, with direction 1 for IN and 0 for
/// OUT, naming the device by its bus number (high 16 bits) and device number
/// (low 16 bits) when both are below 2^16; the command carries the setup
/// bytes and the transfer buffer it was given.
pub proof fn lemma_submit_command_names_device(
    seqnum: u32,
    device: DeviceModel,
    direction: UsbIpDirection,
    ep: u32,
    transfer_flags: u32,
    transfer_buffer_length: u32,
    start_frame: u32,
    number_of_packets: u32,
    interval: u32,
    setup_bytes: Seq<u8>,
    transfer_buffer: Seq<u8>,
)
    ensures
        ({
            let c = submit_command_for(
                seqnum,
                device,
                direction,
                ep,
                transfer_flags,
                transfer_buffer_length,
                start_frame,
                number_of_packets,
                interval,
                setup_bytes,
                transfer_buffer,
            );
            &&& c.header.command == 1
            &&& c.header.seqnum == seqnum
            &&& c.header.ep_number == ep
            &&& c.header.direction == (if direction == UsbIpDirection::UsbDirIn { 1u32 } else { 0u32 })
            &&& device.busnum < 0x1_0000 && device.devnum < 0x1_0000 ==> {
                &&& c.header.devid >> 16u32 == device.busnum
                &&& c.header.devid & 0xffffu32 == device.devnum
            }
            &&& c.transfer_flags == transfer_flags
            &&& c.transfer_buffer_length == transfer_buffer_length
            &&& c.start_frame == start_frame
            &&& c.number_of_packets == number_of_packets
            &&& c.interval == interval
            &&& c.setup_bytes == setup_bytes
            &&& c.transfer_buffer == transfer_buffer
        }),
{
    if device.busnum < 0x1_0000 && device.devnum < 0x1_0000 {
        lemma_devid_fields(device.busnum, device.devnum);
    }
}

/// A command header is 20 bytes: the command at offset 0, the sequence number
/// at 4, the device id at 8, the direction at 12 and the endpoint number at 16,
/// each big-endian; decoding reads each field back from the same offset.
pub proof fn lemma_header_layout(h: HeaderModel, s: Seq<u8>)
    ensures
        header_bytes(h).len() == USB_COMMAND_HEADER_SIZE,
        be32(header_bytes(h), 0) == h.command,
        be32(header_bytes(h), 4) == h.seqnum,
        be32(header_bytes(h), 8) == h.devid,
        be32(header_bytes(h), 12) == h.direction,
        be32(header_bytes(h), 16) == h.ep_number,
        s.len() >= USB_COMMAND_HEADER_SIZE ==> {
            let d = header_from_bytes(s);
            &&& d.command == be32(s, 0)
            &&& d.seqnum == be32(s, 4)
            &&& d.devid == be32(s, 8)
            &&& d.direction == be32(s, 12)
            &&& d.ep_number == be32(s, 16)
        },
{
    let b = header_bytes(h);
    lemma_be_bytes_weighted(0, h.command, s, 0);
    lemma_be_bytes_weighted(0, h.seqnum, s, 4);
    lemma_be_bytes_weighted(0, h.devid, s, 8);
    lemma_be_bytes_weighted(0, h.direction, s, 12);
    lemma_be_bytes_weighted(0, h.ep_number, s, 16);
    assert(b.subrange(0, 4) =~= be_u32_bytes(h.command));
    assert(b.subrange(4, 8) =~= be_u32_bytes(h.seqnum));
    assert(b.subrange(8, 12) =~= be_u32_bytes(h.devid));
    assert(b.subrange(12, 16) =~= be_u32_bytes(h.direction));
    assert(b.subrange(16, 20) =~= be_u32_bytes(h.ep_number));
}

/// A submit command is its 20-byte header, then the transfer flags at offset
/// 20, the transfer buffer length at 24, the start frame at 28, the number of
/// packets at 32 and the interval at 36 (each big-endian), the eight setup
/// bytes at 40..48, and the transfer buffer from offset 48 on.
pub proof fn lemma_submit_layout(c: SubmitModel)
    requires
        c.setup_bytes.len() == SETUP_BYTES_SIZE,
    ensures
        ({
            let b = submit_bytes(c);
            &&& b.len() == 48 + c.transfer_buffer.len()
            &&& b.subrange(0, 20) == header_bytes(c.header)
            &&& be32(b, 20) == c.transfer_flags
            &&& be32(b, 24) == c.transfer_buffer_length
            &&& be32(b, 28) == c.start_frame
            &&& be32(b, 32) == c.number_of_packets
            &&& be32(b, 36) == c.interval
            &&& b.subrange(40, 48) == c.setup_bytes
            &&& b.subrange(48, b.len() as int) == c.transfer_buffer
        }),
{
    let b = submit_bytes(c);
    let e = Seq::<u8>::empty();
    lemma_header_layout(c.header, e);
    lemma_be_bytes_weighted(0, c.transfer_flags, e, 0);
    lemma_be_bytes_weighted(0, c.transfer_buffer_length, e, 0);
    lemma_be_bytes_weighted(0, c.start_frame, e, 0);
    lemma_be_bytes_weighted(0, c.number_of_packets, e, 0);
    lemma_be_bytes_weighted(0, c.interval, e, 0);
    assert(b.subrange(0, 20) =~= header_bytes(c.header));
    assert(b.subrange(20, 24) =~= be_u32_bytes(c.transfer_flags));
    assert(b.subrange(24, 28) =~= be_u32_bytes(c.transfer_buffer_length));
    assert(b.subrange(28, 32) =~= be_u32_bytes(c.start_frame));
    assert(b.subrange(32, 36) =~= be_u32_bytes(c.number_of_packets));
    assert(b.subrange(36, 40) =~= be_u32_bytes(c.interval));
    assert(b.subrange(40, 48) =~= c.setup_bytes);
    assert(b.subrange(48, b.len() as int) =~= c.transfer_buffer);
}

/// The body of a submit reply (after its header) holds the status at offset 0,
/// the actual length at 4, the start frame at 8, the number of packets at 12
/// and the error count at 16 (each big-endian), eight unused bytes, and from
/// offset 28 the transfer data: `actual_length` bytes for an IN transfer, none
/// for an OUT transfer.
pub proof fn lemma_return_layout(direction: UsbIpDirection, header: HeaderModel, body: Seq<u8>)
    requires
        body.len() >= RETURN_FIXED_SIZE,
    ensures
        ({
            let r = return_from_bytes(direction, header, body);
            &&& r.header == header
            &&& r.status == be32(body, 0)
            &&& r.actual_length == be32(body, 4)
            &&& r.start_frame == be32(body, 8)
            &&& r.number_of_packets == be32(body, 12)
            &&& r.error_count == be32(body, 16)
            &&& spec_return_payload_len(direction, body) == (if direction
                == UsbIpDirection::UsbDirIn {
                be32(body, 4)
            } else {
                0
            })
            &&& r.buffer == body.subrange(
                28,
                28 + (if direction == UsbIpDirection::UsbDirIn {
                    be32(body, 4)
                } else {
                    0
                }),
            )
        }),
{
    lemma_be_bytes_weighted(0, 0, body, 0);
    lemma_be_bytes_weighted(0, 0, body, 4);
    lemma_be_bytes_weighted(0, 0, body, 8);
    lemma_be_bytes_weighted(0, 0, body, 12);
    lemma_be_bytes_weighted(0, 0, body, 16);
}

/// An operation request starts with the 8 bytes 0x01 0x11 (protocol version
/// 1.1.1), the operation code (0x8005 for the device list, 0x8003 for an
/// import) and a zero status.
pub proof fn lemma_op_request_headers()
    ensures
        op_request_header(UsbIpCommand::ReqDevlist) == seq![0x01u8, 0x11u8, 0x80u8, 0x05u8, 0u8, 0u8, 0u8, 0u8],
        op_request_header(UsbIpCommand::ReqImport) == seq![0x01u8, 0x11u8, 0x80u8, 0x03u8, 0u8, 0u8, 0u8, 0u8],
{
    assert(((0x0111u16 >> 8u16) as u8) == 0x01u8 && (0x0111u16 as u8) == 0x11u8) by (bit_vector);
    assert(((0x8005u16 >> 8u16) as u8) == 0x80u8 && (0x8005u16 as u8) == 0x05u8) by (bit_vector);
    assert(((0x8003u16 >> 8u16) as u8) == 0x80u8 && (0x8003u16 as u8) == 0x03u8) by (bit_vector);
    assert(((0u32 >> 24u32) as u8) == 0u8 && ((0u32 >> 16u32) as u8) == 0u8 && ((0u32 >> 8u32) as u8)
        == 0u8 && (0u32 as u8) == 0u8) by (bit_vector);
    assert(op_request_header(UsbIpCommand::ReqDevlist) =~= seq![0x01u8, 0x11u8, 0x80u8, 0x05u8, 0u8, 0u8, 0u8, 0u8]);
    assert(op_request_header(UsbIpCommand::ReqImport) =~= seq![0x01u8, 0x11u8, 0x80u8, 0x03u8, 0u8, 0u8, 0u8, 0u8]);
}

} // verus!
