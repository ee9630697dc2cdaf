//! The decisions of the virtual USB host controller: the capabilities it
//! announces, what it does with each command and doorbell the kernel sends,
//! and how transfers on an endpoint become USB/IP submit commands.
//!
//! The controller talks to the kernel through the IOUSBHost framework; those
//! calls are made by the program around this library, which hands the
//! messages it receives to the functions here and carries out the actions
//! they return. Field layouts and codes are those of `IOUSBHostCIMessage`
//! and the `IOUSBHostCI*` constants of the IOUSBHost framework headers.
use vstd::prelude::*;
use crate::device::{Device, DeviceModel};
use crate::endpoint::{Endpoint, EndpointModel};
use crate::usbip::{UsbIpDirection, SETUP_BYTES_SIZE};

verus! {

// ---------------------------------------------------------------------------
// Message layout
// ---------------------------------------------------------------------------
/// Bits 0..=5 of a message's control word: the message type.
pub const MESSAGE_CONTROL_TYPE: u32 = 0x3f;

/// Bits 8..=11 of a message's control word: the message status.
pub const MESSAGE_CONTROL_STATUS: u32 = 0xf00;

/// Shift of the message status within the control word.
pub const MESSAGE_CONTROL_STATUS_PHASE: u32 = 8;

/// Bit 14 of a message's control word: set when the message needs no response.
pub const MESSAGE_CONTROL_NO_RESPONSE: u32 = 0x4000;

/// Bit 15 of a message's control word: set when the message is valid.
pub const MESSAGE_CONTROL_VALID: u32 = 0x8000;

/// Shift of the port count within a controller-capabilities control word.
pub const CAPABILITIES_CONTROL_PORT_COUNT_PHASE: u32 = 16;

/// Shift of the command timeout threshold within a controller-capabilities data0 word.
pub const CAPABILITIES_DATA0_COMMAND_TIMEOUT_PHASE: u32 = 0;

/// Shift of the connection latency within a controller-capabilities data0 word.
pub const CAPABILITIES_DATA0_CONNECTION_LATENCY_PHASE: u32 = 4;

/// Shift of the port number within a port-capabilities control word.
pub const PORT_CAPABILITIES_CONTROL_PORT_NUMBER_PHASE: u32 = 16;

/// Shift of the connector type within a port-capabilities control word.
pub const PORT_CAPABILITIES_CONTROL_CONNECTOR_TYPE_PHASE: u32 = 24;

/// Shift of the maximum power within a port-capabilities data0 word.
pub const PORT_CAPABILITIES_DATA0_MAX_POWER_PHASE: u32 = 0;

/// Bits 0..=7 of a command's data0 word: the device address.
pub const COMMAND_DATA0_DEVICE_ADDRESS: u32 = 0xff;

/// Bits 8..=15 of a command's data0 word: the endpoint address.
pub const COMMAND_DATA0_ENDPOINT_ADDRESS: u32 = 0xff00;

/// Shift of the endpoint address within a command's data0 word.
pub const COMMAND_DATA0_ENDPOINT_ADDRESS_PHASE: u32 = 8;

/// Bits 0..=7 of a doorbell: the device address.
pub const DOORBELL_DEVICE_ADDRESS: u32 = 0xff;

/// Bits 8..=15 of a doorbell: the endpoint address.
pub const DOORBELL_ENDPOINT_ADDRESS: u32 = 0xff00;

/// Shift of the endpoint address within a doorbell.
pub const DOORBELL_ENDPOINT_ADDRESS_PHASE: u32 = 8;

/// Bits 16..=31 of a doorbell: the stream id.
pub const DOORBELL_STREAM_ID: u32 = 0xffff_0000;

/// Shift of the stream id within a doorbell.
pub const DOORBELL_STREAM_ID_PHASE: u32 = 16;

/// Bits 0..=27 of a normal transfer's data0 word: the transfer length.
pub const NORMAL_TRANSFER_DATA0_LENGTH: u32 = 0x0fff_ffff;

/// Bits 0..=7 of a setup transfer's data1 word: `bmRequestType`.
pub const SETUP_DATA1_REQUEST_TYPE: u64 = 0xff;

/// Bits 8..=15 of a setup transfer's data1 word: `bRequest`.
pub const SETUP_DATA1_REQUEST: u64 = 0xff00;

/// Bits 16..=31 of a setup transfer's data1 word: `wValue`.
pub const SETUP_DATA1_VALUE: u64 = 0xffff_0000;

/// Bits 32..=47 of a setup transfer's data1 word: `wIndex`.
pub const SETUP_DATA1_INDEX: u64 = 0xffff_0000_0000;

/// Bits 48..=63 of a setup transfer's data1 word: `wLength`.
pub const SETUP_DATA1_LENGTH: u64 = 0xffff_0000_0000_0000;

// ---------------------------------------------------------------------------
// Message types, statuses and endpoint states
// ---------------------------------------------------------------------------
pub const MESSAGE_TYPE_CONTROLLER_CAPABILITIES: u32 = 0x0;

pub const MESSAGE_TYPE_PORT_CAPABILITIES: u32 = 1;

pub const MESSAGE_TYPE_CONTROLLER_POWER_ON: u32 = 0x10;

pub const MESSAGE_TYPE_CONTROLLER_START: u32 = 18;

pub const MESSAGE_TYPE_CONTROLLER_PAUSE: u32 = 19;

pub const MESSAGE_TYPE_PORT_POWER_ON: u32 = 0x18;

pub const MESSAGE_TYPE_PORT_RESET: u32 = 28;

pub const MESSAGE_TYPE_PORT_STATUS: u32 = 30;

pub const MESSAGE_TYPE_DEVICE_CREATE: u32 = 0x20;

pub const MESSAGE_TYPE_ENDPOINT_CREATE: u32 = 0x28;

pub const MESSAGE_TYPE_ENDPOINT_DESTROY: u32 = 41;

pub const MESSAGE_TYPE_ENDPOINT_PAUSE: u32 = 43;

pub const MESSAGE_TYPE_ENDPOINT_SET_NEXT_TRANSFER: u32 = 46;

pub const MESSAGE_TYPE_SETUP_TRANSFER: u32 = 0x38;

pub const MESSAGE_TYPE_NORMAL_TRANSFER: u32 = 57;

pub const MESSAGE_TYPE_STATUS_TRANSFER: u32 = 58;

pub const MESSAGE_TYPE_LINK: u32 = 60;

/// The status the controller answers every command and transfer with.
pub const MESSAGE_STATUS_SUCCESS: u32 = 1;

/// The state of an endpoint that can carry transfers.
pub const ENDPOINT_STATE_ACTIVE: u32 = 3;

/// The error code with which completing a transfer fails when the transfer is
/// no longer active; the controller ignores it.
pub const TRANSFER_NO_LONGER_ACTIVE: i64 = -536870206;

// ---------------------------------------------------------------------------
// Controller configuration
// ---------------------------------------------------------------------------
/// Command timeout threshold announced to the kernel (code 1: two seconds).
pub const CONTROLLER_TIMEOUT_THRESHOLD: u32 = 1;

/// Connection latency announced to the kernel (code 2: four milliseconds).
pub const CONTROLLER_CONNECTION_LATENCY: u32 = 2;

/// Number of ports of the controller.
pub const PORT_COUNT: u32 = 1;

/// Maximum power of the port, in mA.
pub const MAX_POWER_MA: u32 = 907;

/// Unit of the maximum power announced for a port, in mA.
pub const POWER_UNIT_SIZE: u32 = 8;

/// Polling interval of the submit commands for normal transfers.
pub const NORMAL_TRANSFER_INTERVAL: u32 = 10;

/// A controller-interface message: a control word, and two data words whose
/// meaning depends on the message type.
#[derive(Debug, Clone, Copy, PartialEq, Eq, Structural)]
pub struct CiMessage {
    pub control: u32,
    pub data0: u32,
    pub data1: u64,
}

/// The type of a message with control word `control`.
pub open spec fn spec_message_type(control: u32) -> u32 {
    control & MESSAGE_CONTROL_TYPE
}

/// The status of a message with control word `control`.
pub open spec fn spec_message_status(control: u32) -> u32 {
    (control & MESSAGE_CONTROL_STATUS) >> MESSAGE_CONTROL_STATUS_PHASE
}

/// Whether the valid bit of control word `control` is set.
pub open spec fn spec_is_valid(control: u32) -> bool {
    control & MESSAGE_CONTROL_VALID != 0
}

/// Whether the no-response bit of control word `control` is set.
pub open spec fn spec_no_response(control: u32) -> bool {
    control & MESSAGE_CONTROL_NO_RESPONSE != 0
}

/// The type of a message with control word `control`.
pub fn message_type(control: u32) -> (r: u32)
    ensures
        r == spec_message_type(control),
{
    control & MESSAGE_CONTROL_TYPE
}

/// The status of a message with control word `control`.
pub fn message_status(control: u32) -> (r: u32)
    ensures
        r == spec_message_status(control),
{
    (control & MESSAGE_CONTROL_STATUS) >> MESSAGE_CONTROL_STATUS_PHASE
}

/// Whether the valid bit of control word `control` is set.
pub fn is_valid(control: u32) -> (r: bool)
    ensures
        r == spec_is_valid(control),
{
    control & MESSAGE_CONTROL_VALID != 0
}

/// Whether the no-response bit of control word `control` is set.
pub fn no_response(control: u32) -> (r: bool)
    ensures
        r == spec_no_response(control),
{
    control & MESSAGE_CONTROL_NO_RESPONSE != 0
}

/// The controller-capabilities message: a valid message that needs no
/// response, announcing the port count, the command timeout threshold and
/// the connection latency.
pub open spec fn spec_controller_capabilities() -> CiMessage {
    CiMessage {
        control: (MESSAGE_TYPE_CONTROLLER_CAPABILITIES | MESSAGE_CONTROL_NO_RESPONSE
            | MESSAGE_CONTROL_VALID | (PORT_COUNT << CAPABILITIES_CONTROL_PORT_COUNT_PHASE)),
        data0: (CONTROLLER_TIMEOUT_THRESHOLD << CAPABILITIES_DATA0_COMMAND_TIMEOUT_PHASE) | (
        CONTROLLER_CONNECTION_LATENCY << CAPABILITIES_DATA0_CONNECTION_LATENCY_PHASE),
        data1: 0,
    }
}

/// The port-capabilities message of port 1: a valid message that needs no
/// response, announcing connector type 0 (type A) and the maximum power in
/// units of 8 mA.
pub open spec fn spec_port_capabilities() -> CiMessage {
    CiMessage {
        control: (MESSAGE_TYPE_PORT_CAPABILITIES | MESSAGE_CONTROL_NO_RESPONSE
            | MESSAGE_CONTROL_VALID | (1u32 << PORT_CAPABILITIES_CONTROL_PORT_NUMBER_PHASE) | (0u32
            << PORT_CAPABILITIES_CONTROL_CONNECTOR_TYPE_PHASE)),
        data0: ((MAX_POWER_MA / POWER_UNIT_SIZE) << PORT_CAPABILITIES_DATA0_MAX_POWER_PHASE) as u32,
        data1: 0,
    }
}

/// The controller-capabilities message announced when the controller is created.
pub fn create_controller_capabilities() -> (r: CiMessage)
    ensures
        r == spec_controller_capabilities(),
        r == (CiMessage { control: 0x0001_c000, data0: 0x21, data1: 0 }),
{
    let r = CiMessage {
        control: MESSAGE_TYPE_CONTROLLER_CAPABILITIES | MESSAGE_CONTROL_NO_RESPONSE
            | MESSAGE_CONTROL_VALID | (PORT_COUNT << CAPABILITIES_CONTROL_PORT_COUNT_PHASE),
        data0: (CONTROLLER_TIMEOUT_THRESHOLD << CAPABILITIES_DATA0_COMMAND_TIMEOUT_PHASE) | (
        CONTROLLER_CONNECTION_LATENCY << CAPABILITIES_DATA0_CONNECTION_LATENCY_PHASE),
        data1: 0,
    };
    assert(0u32 | 0x4000u32 | 0x8000u32 | (1u32 << 16u32) == 0x0001_c000u32) by (bit_vector);
    assert((1u32 << 0u32) | (2u32 << 4u32) == 0x21u32) by (bit_vector);
    r
}

/// The port-capabilities message announced when the controller is created.
pub fn create_port_capabilities() -> (r: CiMessage)
    ensures
        r == spec_port_capabilities(),
        r == (CiMessage { control: 0x0001_c001, data0: 113, data1: 0 }),
{
    let r = CiMessage {
        control: MESSAGE_TYPE_PORT_CAPABILITIES | MESSAGE_CONTROL_NO_RESPONSE
            | MESSAGE_CONTROL_VALID | (1u32 << PORT_CAPABILITIES_CONTROL_PORT_NUMBER_PHASE) | (0u32
            << PORT_CAPABILITIES_CONTROL_CONNECTOR_TYPE_PHASE),
        data0: (MAX_POWER_MA / POWER_UNIT_SIZE) << PORT_CAPABILITIES_DATA0_MAX_POWER_PHASE,
        data1: 0,
    };
    assert(1u32 | 0x4000u32 | 0x8000u32 | (1u32 << 16u32) | (0u32 << 24u32) == 0x0001_c001u32)
        by (bit_vector);
    assert((113u32 << 0u32) == 113u32) by (bit_vector);
    r
}


/// The little-endian encoding of a 32-bit value.
pub open spec fn le_u32_bytes(n: u32) -> Seq<u8> {
    seq![n as u8, (n >> 8) as u8, (n >> 16) as u8, (n >> 24) as u8]
}

/// The little-endian encoding of a 64-bit value.
pub open spec fn le_u64_bytes(n: u64) -> Seq<u8> {
    seq![
        n as u8,
        (n >> 8) as u8,
        (n >> 16) as u8,
        (n >> 24) as u8,
        (n >> 32) as u8,
        (n >> 40) as u8,
        (n >> 48) as u8,
        (n >> 56) as u8,
    ]
}

/// The 16 bytes of a message as the framework lays it out in memory
/// (packed, little-endian): control, data0, data1.
pub open spec fn message_bytes(m: CiMessage) -> Seq<u8> {
    le_u32_bytes(m.control) + le_u32_bytes(m.data0) + le_u64_bytes(m.data1)
}

/// The little-endian bytes of a 64-bit value.
pub fn u64_le_bytes(n: u64) -> (r: [u8; 8])
    ensures
        r@ == le_u64_bytes(n),
{
    let r = [
        n as u8,
        (n >> 8) as u8,
        (n >> 16) as u8,
        (n >> 24) as u8,
        (n >> 32) as u8,
        (n >> 40) as u8,
        (n >> 48) as u8,
        (n >> 56) as u8,
    ];
    assert(r@ =~= le_u64_bytes(n));
    r
}

impl CiMessage {
    /// The bytes of the message as the framework lays it out in memory.
    pub fn to_bytes(&self) -> (r: [u8; 16])
        ensures
            r@ == message_bytes(*self),
    {
        let c = self.control;
        let d0 = self.data0;
        let d1 = u64_le_bytes(self.data1);
        let r = [
            c as u8,
            (c >> 8) as u8,
            (c >> 16) as u8,
            (c >> 24) as u8,
            d0 as u8,
            (d0 >> 8) as u8,
            (d0 >> 16) as u8,
            (d0 >> 24) as u8,
            d1[0],
            d1[1],
            d1[2],
            d1[3],
            d1[4],
            d1[5],
            d1[6],
            d1[7],
        ];
        assert(r@ =~= message_bytes(*self));
        r
    }
}

/// The capabilities data handed to the framework when the controller is
/// created: the controller-capabilities message followed by the
/// port-capabilities message.
pub fn create_capabilities_data(capabilities: &CiMessage, port_capabilities: &CiMessage) -> (r: Vec<
    u8,
>)
    ensures
        r@ == message_bytes(*capabilities) + message_bytes(*port_capabilities),
{
    let a = capabilities.to_bytes();
    let b = port_capabilities.to_bytes();
    let mut data: Vec<u8> = Vec::new();
    let mut i: usize = 0;
    while i < 16
        invariant
            i <= 16,
            a@ == message_bytes(*capabilities),
            data@ == a@.subrange(0, i as int),
        decreases 16 - i,
    {
        data.push(a[i]);
        assert(data@ =~= a@.subrange(0, i + 1));
        i = i + 1;
    }
    let mut j: usize = 0;
    while j < 16
        invariant
            j <= 16,
            a@ == message_bytes(*capabilities),
            b@ == message_bytes(*port_capabilities),
            data@ == a@ + b@.subrange(0, j as int),
        decreases 16 - j,
    {
        data.push(b[j]);
        assert(data@ =~= a@ + b@.subrange(0, j + 1));
        j = j + 1;
    }
    assert(b@.subrange(0, 16) =~= b@);
    data
}

// ---------------------------------------------------------------------------
// Finding devices and endpoints
// ---------------------------------------------------------------------------
/// Why the controller cannot go on with a command, a doorbell or a transfer.
#[derive(Debug, Clone, Copy, PartialEq, Eq, Structural)]
pub enum ControllerFailure {
    /// A command of a type the controller does not handle.
    UnimplementedMessage(u32),
    /// No device has the address the kernel named.
    DeviceNotFound,
    /// The device has no endpoint with the address the kernel named.
    EndpointNotFound,
    /// A device or endpoint address met while searching does not fit in a byte.
    AddressOutOfRange,
    /// A doorbell's stream id does not fit in a byte.
    StreamIdOutOfRange,
    /// A transfer message that must need a response does not.
    ShouldNeedResponse,
    /// A transfer message that must not need a response does.
    ShouldNotNeedResponse,
    /// A transfer message that must be valid is not.
    NotValid,
    /// The endpoint is not active after the setup stage.
    EndpointNotActive,
    /// The message after the data stage is not a status transfer.
    NotStatusTransfer,
    /// The message after the status stage is neither valid nor a link.
    NotLink,
    /// A doorbell rang for a message of a type the controller does not expect.
    UnexpectedMessage(u32),
    /// The server sent back more data than the transfer buffer holds.
    ResponseTooLong,
}

/// The result of searching `addrs` from index `i` on for the first address
/// that equals `address` when taken as a byte: the index of that address, or
/// a failure when an address that does not fit in a byte comes first, or when
/// there is none.
pub open spec fn find_u8_from(addrs: Seq<usize>, address: u8, i: int) -> Result<
    int,
    ControllerFailure,
>
    decreases addrs.len() - i,
{
    if i < 0 || i >= addrs.len() {
        Err(ControllerFailure::DeviceNotFound)
    } else if addrs[i] > 255 {
        Err(ControllerFailure::AddressOutOfRange)
    } else if addrs[i] == address {
        Ok(i)
    } else {
        find_u8_from(addrs, address, i + 1)
    }
}

/// The addresses of `devices`, in order.
pub open spec fn device_addresses<D, E>(devices: Seq<DeviceModel<D, E>>) -> Seq<usize> {
    devices.map_values(|d: DeviceModel<D, E>| d.address)
}

/// The addresses of `endpoints`, in order.
pub open spec fn endpoint_addresses<E>(endpoints: Seq<EndpointModel<E>>) -> Seq<usize> {
    endpoints.map_values(|e: EndpointModel<E>| e.address)
}

/// The views of the devices in `devices`.
pub open spec fn devices_view<D, E>(devices: Seq<Device<D, E>>) -> Seq<DeviceModel<D, E>> {
    devices.map_values(|d: Device<D, E>| d@)
}

/// The first device whose address, taken as a byte, is `address`.
pub open spec fn spec_find_device<D, E>(devices: Seq<DeviceModel<D, E>>, address: u8) -> Result<
    int,
    ControllerFailure,
> {
    find_u8_from(device_addresses(devices), address, 0)
}

/// The first endpoint of `device` whose address, taken as a byte, is `address`.
pub open spec fn spec_find_endpoint<D, E>(device: DeviceModel<D, E>, address: u8) -> Result<
    int,
    ControllerFailure,
> {
    match find_u8_from(endpoint_addresses(device.endpoints), address, 0) {
        Ok(i) => Ok(i),
        Err(ControllerFailure::DeviceNotFound) => Err(ControllerFailure::EndpointNotFound),
        Err(e) => Err(e),
    }
}

/// Searches `addrs` for the first address that equals `address` as a byte.
fn find_u8(addrs: &Vec<usize>, address: u8) -> (r: Result<usize, ControllerFailure>)
    ensures
        r matches Ok(i) ==> i < addrs@.len() && addrs@[i as int] == address,
        match r {
            Ok(i) => find_u8_from(addrs@, address, 0) == Ok::<int, ControllerFailure>(i as int),
            Err(e) => find_u8_from(addrs@, address, 0) == Err::<int, ControllerFailure>(e),
        },
{
    let n = addrs.len();
    let mut i: usize = 0;
    while i < n
        invariant
            n == addrs@.len(),
            i <= n,
            find_u8_from(addrs@, address, 0) == find_u8_from(addrs@, address, i as int),
        decreases n - i,
    {
        if addrs[i] > 255 {
            return Err(ControllerFailure::AddressOutOfRange);
        }
        if addrs[i] == address as usize {
            return Ok(i);
        }
        assert(find_u8_from(addrs@, address, i as int) == find_u8_from(addrs@, address, i + 1));
        i = i + 1;
    }
    Err(ControllerFailure::DeviceNotFound)
}

/// The first device whose address, taken as a byte, is `address`.
pub fn find_device<D, E>(devices: &[Device<D, E>], address: u8) -> (r: Result<
    usize,
    ControllerFailure,
>)
    ensures
        match r {
            Ok(i) => i < devices@.len() && devices@[i as int]@.address == address
                && spec_find_device(devices_view(devices@), address) == Ok::<
                int,
                ControllerFailure,
            >(i as int),
            Err(e) => spec_find_device(devices_view(devices@), address) == Err::<
                int,
                ControllerFailure,
            >(e),
        },
{
    let mut addrs: Vec<usize> = Vec::new();
    let n = devices.len();
    let mut i: usize = 0;
    while i < n
        invariant
            n == devices@.len(),
            i <= n,
            addrs@ == device_addresses(devices_view(devices@)).subrange(0, i as int),
        decreases n - i,
    {
        addrs.push(devices[i].device_address());
        assert(addrs@ =~= device_addresses(devices_view(devices@)).subrange(0, i + 1));
        i = i + 1;
    }
    assert(addrs@ =~= device_addresses(devices_view(devices@)));
    find_u8(&addrs, address)
}

/// The first endpoint of `device` whose address, taken as a byte, is `address`.
pub fn find_endpoint<D, E>(device: &Device<D, E>, address: u8) -> (r: Result<
    usize,
    ControllerFailure,
>)
    ensures
        match r {
            Ok(i) => i < device@.endpoints.len() && device@.endpoints[i as int].address == address
                && spec_find_endpoint(device@, address) == Ok::<int, ControllerFailure>(i as int),
            Err(e) => spec_find_endpoint(device@, address) == Err::<int, ControllerFailure>(e),
        },
{
    let endpoints = device.endpoints();
    let ghost eps = device@.endpoints;
    let mut addrs: Vec<usize> = Vec::new();
    let n = endpoints.len();
    let mut i: usize = 0;
    while i < n
        invariant
            n == endpoints@.len(),
            endpoints@.map_values(|e: crate::endpoint::Endpoint<E>| e@) == eps,
            i <= n,
            addrs@ == endpoint_addresses(eps).subrange(0, i as int),
        decreases n - i,
    {
        addrs.push(endpoints[i].endpoint_address());
        assert(addrs@ =~= endpoint_addresses(eps).subrange(0, i + 1));
        i = i + 1;
    }
    assert(addrs@ =~= endpoint_addresses(eps));
    match find_u8(&addrs, address) {
        Ok(i) => Ok(i),
        Err(ControllerFailure::DeviceNotFound) => Err(ControllerFailure::EndpointNotFound),
        Err(e) => Err(e),
    }
}

/// The first device whose address is `address`, compared as a whole.
pub fn find_device_by_address<D, E>(devices: &[Device<D, E>], address: usize) -> (r: Option<usize>)
    ensures
        r is None <==> forall|j: int|
            0 <= j < devices@.len() ==> (#[trigger] devices@[j])@.address != address,
        r matches Some(i) ==> {
            &&& i < devices@.len()
            &&& devices@[i as int]@.address == address
            &&& forall|j: int| 0 <= j < i ==> (#[trigger] devices@[j])@.address != address
        },
{
    let n = devices.len();
    let mut i: usize = 0;
    while i < n
        invariant
            n == devices@.len(),
            i <= n,
            forall|j: int| 0 <= j < i ==> (#[trigger] devices@[j])@.address != address,
        decreases n - i,
    {
        if devices[i].device_address() == address {
            return Some(i);
        }
        i = i + 1;
    }
    None
}


/// Whether `i` is the index of the first device in `devices` whose address is `address`.
pub open spec fn is_first_with_address<D, E>(
    devices: Seq<DeviceModel<D, E>>,
    address: usize,
    i: int,
) -> bool {
    &&& 0 <= i < devices.len()
    &&& devices[i].address == address
    &&& forall|j: int| 0 <= j < i ==> (#[trigger] devices[j]).address != address
}

/// `device` with `endpoint` added after its endpoints.
pub open spec fn with_endpoint<D, E>(device: DeviceModel<D, E>, endpoint: EndpointModel<E>) -> DeviceModel<D, E> {
    DeviceModel { endpoints: device.endpoints.push(endpoint), ..device }
}

/// The devices after `endpoint` is added to the first device whose address is
/// `address`; the devices as they are when none has it.
pub open spec fn spec_add_endpoint<D, E>(
    devices: Seq<DeviceModel<D, E>>,
    address: usize,
    endpoint: EndpointModel<E>,
) -> Seq<DeviceModel<D, E>> {
    if exists|i: int| is_first_with_address(devices, address, i) {
        let i = choose|i: int| is_first_with_address(devices, address, i);
        devices.update(i, with_endpoint(devices[i], endpoint))
    } else {
        devices
    }
}

/// A device created with `state_machine` at `address`, with no endpoints yet.
pub open spec fn created_device<D, E>(state_machine: D, address: usize) -> DeviceModel<D, E> {
    DeviceModel { state_machine, address, endpoints: Seq::<EndpointModel<E>>::empty() }
}

/// Adds the device created with `state_machine` at `address` after the
/// devices created before it.
pub fn create_device<D, E>(devices: &mut Vec<Device<D, E>>, state_machine: D, address: usize)
    ensures
        devices_view(final(devices)@) == devices_view(old(devices)@).push(
            created_device(state_machine, address),
        ),
{
    let device = Device::new(state_machine, address);
    devices.push(device);
    proof {
        assert(devices_view(devices@) =~= devices_view(old(devices)@).push(
            created_device(state_machine, address),
        ));
    }
}

/// Adds `endpoint` to the first device whose address is `device_address`, and
/// returns that device's index; leaves the devices as they are and returns
/// `None` when no device has that address.
pub fn add_endpoint_to<D, E>(
    devices: &mut Vec<Device<D, E>>,
    device_address: usize,
    endpoint: Endpoint<E>,
) -> (r: Option<usize>)
    ensures
        devices_view(final(devices)@) == spec_add_endpoint(
            devices_view(old(devices)@),
            device_address,
            endpoint@,
        ),
        match r {
            Some(i) => is_first_with_address(devices_view(old(devices)@), device_address, i as int),
            None => forall|i: int|
                !is_first_with_address(devices_view(old(devices)@), device_address, i),
        },
{
    let ghost before = devices_view(devices@);
    let ghost ep = endpoint@;
    match find_device_by_address(devices.as_slice(), device_address) {
        Some(i) => {
            proof {
                assert(is_first_with_address(before, device_address, i as int)) by {
                    assert forall|j: int| 0 <= j < i implies (#[trigger] before[j]).address
                        != device_address by {
                        assert(before[j] == devices@[j]@);
                    }
                }
                let k = choose|k: int| is_first_with_address(before, device_address, k);
                if k < i {
                    assert(before[k] == devices@[k]@);
                } else if i < k {
                    assert(before[i as int].address != device_address);
                }
                assert(k == i);
            }
            devices[i].add_endpoint(endpoint);
            proof {
                assert(devices_view(devices@) =~= before.update(
                    i as int,
                    with_endpoint(before[i as int], ep),
                ));
            }
            Some(i)
        },
        None => {
            proof {
                assert forall|k: int| !is_first_with_address(before, device_address, k) by {
                    if 0 <= k < before.len() {
                        assert(before[k] == devices@[k]@);
                    }
                }
            }
            None
        },
    }
}

// ---------------------------------------------------------------------------
// Commands
// ---------------------------------------------------------------------------
/// What the controller does with a command from the kernel.
#[derive(Debug, Clone, Copy, PartialEq, Eq, Structural)]
pub enum CommandAction {
    /// Inspect the command with the controller state machine, then answer it with success.
    RespondController,
    /// Inspect the command with the state machine of the port it names, then answer it with success.
    RespondPort,
    /// Inspect the command with the port's state machine, bring the port's link
    /// to state U0 at full speed, then answer it with success.
    ResetPort,
    /// Create a device state machine, answer with success and the given device
    /// address, and add the device to the list.
    CreateDevice { address: usize },
    /// Create an endpoint state machine, answer with success, and add the
    /// endpoint to the device whose address the endpoint names.
    CreateEndpoint,
    /// Inspect the command with the state machine of the given endpoint of the
    /// given device (indexes into the device list and its endpoint list), then
    /// answer it with success.
    RespondEndpoint { device: usize, endpoint: usize },
    /// Stop: the controller cannot handle the command.
    Fail(ControllerFailure),
}

/// The device address a command names in its data0 word.
pub open spec fn command_device_address(data0: u32) -> u8 {
    (data0 & COMMAND_DATA0_DEVICE_ADDRESS) as u8
}

/// The endpoint address a command names in its data0 word.
pub open spec fn command_endpoint_address(data0: u32) -> u8 {
    ((data0 & COMMAND_DATA0_ENDPOINT_ADDRESS) >> COMMAND_DATA0_ENDPOINT_ADDRESS_PHASE) as u8
}

/// The device and endpoint (as indexes) that the device address and the
/// endpoint address `(device_address, endpoint_address)` name.
pub open spec fn spec_endpoint_target<D, E>(
    devices: Seq<DeviceModel<D, E>>,
    device_address: u8,
    endpoint_address: u8,
) -> Result<(int, int), ControllerFailure> {
    match spec_find_device(devices, device_address) {
        Err(e) => Err(e),
        Ok(i) => match spec_find_endpoint(devices[i], endpoint_address) {
            Err(e) => Err(e),
            Ok(j) => Ok((i, j)),
        },
    }
}

/// What the controller does with the command `msg` when it has created `devices`.
pub open spec fn spec_command_action<D, E>(msg: CiMessage, devices: Seq<DeviceModel<D, E>>) -> CommandAction {
    let t = spec_message_type(msg.control);
    if t == MESSAGE_TYPE_CONTROLLER_POWER_ON || t == MESSAGE_TYPE_CONTROLLER_START || t
        == MESSAGE_TYPE_CONTROLLER_PAUSE {
        CommandAction::RespondController
    } else if t == MESSAGE_TYPE_PORT_POWER_ON || t == MESSAGE_TYPE_PORT_STATUS {
        CommandAction::RespondPort
    } else if t == MESSAGE_TYPE_PORT_RESET {
        CommandAction::ResetPort
    } else if t == MESSAGE_TYPE_DEVICE_CREATE {
        CommandAction::CreateDevice { address: (devices.len() + 1) as usize }
    } else if t == MESSAGE_TYPE_ENDPOINT_CREATE {
        CommandAction::CreateEndpoint
    } else if t == MESSAGE_TYPE_ENDPOINT_SET_NEXT_TRANSFER || t == MESSAGE_TYPE_ENDPOINT_PAUSE || t
        == MESSAGE_TYPE_ENDPOINT_DESTROY {
        match spec_endpoint_target(
            devices,
            command_device_address(msg.data0),
            command_endpoint_address(msg.data0),
        ) {
            Ok((i, j)) => CommandAction::RespondEndpoint { device: i as usize, endpoint: j as usize },
            Err(e) => CommandAction::Fail(e),
        }
    } else {
        CommandAction::Fail(ControllerFailure::UnimplementedMessage(t))
    }
}

/// The device and endpoint (as indexes) that a device address and an endpoint
/// address name.
pub fn endpoint_target<D, E>(devices: &[Device<D, E>], device_address: u8, endpoint_address: u8) -> (r: Result<
    (usize, usize),
    ControllerFailure,
>)
    ensures
        match r {
            Ok((i, j)) => spec_endpoint_target(devices_view(devices@), device_address, endpoint_address)
                == Ok::<(int, int), ControllerFailure>((i as int, j as int)),
            Err(e) => spec_endpoint_target(devices_view(devices@), device_address, endpoint_address)
                == Err::<(int, int), ControllerFailure>(e),
        },
{
    let i = match find_device(devices, device_address) {
        Ok(i) => i,
        Err(e) => return Err(e),
    };
    match find_endpoint(&devices[i], endpoint_address) {
        Ok(j) => Ok((i, j)),
        Err(e) => Err(e),
    }
}

/// What the controller does with the command `msg` when it has created `devices`.
pub fn command_action<D, E>(msg: &CiMessage, devices: &[Device<D, E>]) -> (r: CommandAction)
    requires
        devices@.len() < usize::MAX,
    ensures
        r == spec_command_action(*msg, devices_view(devices@)),
{
    let t = message_type(msg.control);
    if t == MESSAGE_TYPE_CONTROLLER_POWER_ON || t == MESSAGE_TYPE_CONTROLLER_START || t
        == MESSAGE_TYPE_CONTROLLER_PAUSE {
        CommandAction::RespondController
    } else if t == MESSAGE_TYPE_PORT_POWER_ON || t == MESSAGE_TYPE_PORT_STATUS {
        CommandAction::RespondPort
    } else if t == MESSAGE_TYPE_PORT_RESET {
        CommandAction::ResetPort
    } else if t == MESSAGE_TYPE_DEVICE_CREATE {
        CommandAction::CreateDevice { address: devices.len() + 1 }
    } else if t == MESSAGE_TYPE_ENDPOINT_CREATE {
        CommandAction::CreateEndpoint
    } else if t == MESSAGE_TYPE_ENDPOINT_SET_NEXT_TRANSFER || t == MESSAGE_TYPE_ENDPOINT_PAUSE || t
        == MESSAGE_TYPE_ENDPOINT_DESTROY {
        let device_address = (msg.data0 & COMMAND_DATA0_DEVICE_ADDRESS) as u8;
        let endpoint_address = ((msg.data0 & COMMAND_DATA0_ENDPOINT_ADDRESS)
            >> COMMAND_DATA0_ENDPOINT_ADDRESS_PHASE) as u8;
        match endpoint_target(devices, device_address, endpoint_address) {
            Ok((i, j)) => CommandAction::RespondEndpoint { device: i, endpoint: j },
            Err(e) => CommandAction::Fail(e),
        }
    } else {
        CommandAction::Fail(ControllerFailure::UnimplementedMessage(t))
    }
}

// ---------------------------------------------------------------------------
// Doorbells
// ---------------------------------------------------------------------------
/// The endpoint selector of a doorbell.
#[derive(Debug, Clone, Copy, PartialEq, Eq, Structural)]
pub struct Doorbell {
    pub device_address: u8,
    pub endpoint_address: u8,
    pub stream_id: u8,
}

/// The stream id field of doorbell `db`.
pub open spec fn doorbell_stream_field(db: u32) -> u32 {
    (db & DOORBELL_STREAM_ID) >> DOORBELL_STREAM_ID_PHASE
}

/// Decodes doorbell `db`: its device address, endpoint address and stream id.
/// Fails when the stream id does not fit in a byte.
pub fn decode_doorbell(db: u32) -> (r: Result<Doorbell, ControllerFailure>)
    ensures
        r is Err <==> doorbell_stream_field(db) > 255,
        r matches Err(e) ==> e == ControllerFailure::StreamIdOutOfRange,
        r matches Ok(d) ==> d == (Doorbell {
            device_address: (db & DOORBELL_DEVICE_ADDRESS) as u8,
            endpoint_address: ((db & DOORBELL_ENDPOINT_ADDRESS) >> DOORBELL_ENDPOINT_ADDRESS_PHASE) as u8,
            stream_id: doorbell_stream_field(db) as u8,
        }),
{
    let stream = (db & DOORBELL_STREAM_ID) >> DOORBELL_STREAM_ID_PHASE;
    if stream > 255 {
        return Err(ControllerFailure::StreamIdOutOfRange);
    }
    Ok(Doorbell {
        device_address: (db & DOORBELL_DEVICE_ADDRESS) as u8,
        endpoint_address: ((db & DOORBELL_ENDPOINT_ADDRESS) >> DOORBELL_ENDPOINT_ADDRESS_PHASE) as u8,
        stream_id: stream as u8,
    })
}

/// The device and endpoint (as indexes) that doorbell `db` rings for, with the
/// decoded doorbell.
pub fn doorbell_target<D, E>(devices: &[Device<D, E>], db: u32) -> (r: Result<
    (usize, usize, Doorbell),
    ControllerFailure,
>)
    ensures
        doorbell_stream_field(db) > 255 ==> r == Err::<(usize, usize, Doorbell), ControllerFailure>(
            ControllerFailure::StreamIdOutOfRange,
        ),
        doorbell_stream_field(db) <= 255 ==> match r {
            Ok((i, j, d)) => {
                &&& d.device_address == (db & DOORBELL_DEVICE_ADDRESS) as u8
                &&& d.endpoint_address == ((db & DOORBELL_ENDPOINT_ADDRESS)
                    >> DOORBELL_ENDPOINT_ADDRESS_PHASE) as u8
                &&& d.stream_id == doorbell_stream_field(db) as u8
                &&& spec_endpoint_target(
                    devices_view(devices@),
                    d.device_address,
                    d.endpoint_address,
                ) == Ok::<(int, int), ControllerFailure>((i as int, j as int))
            },
            Err(e) => spec_endpoint_target(
                devices_view(devices@),
                (db & DOORBELL_DEVICE_ADDRESS) as u8,
                ((db & DOORBELL_ENDPOINT_ADDRESS) >> DOORBELL_ENDPOINT_ADDRESS_PHASE) as u8,
            ) == Err::<(int, int), ControllerFailure>(e),
        },
{
    let d = match decode_doorbell(db) {
        Ok(d) => d,
        Err(e) => return Err(e),
    };
    match endpoint_target(devices, d.device_address, d.endpoint_address) {
        Ok((i, j)) => Ok((i, j, d)),
        Err(e) => Err(e),
    }
}

// ---------------------------------------------------------------------------
// Transfers
// ---------------------------------------------------------------------------
/// The fields of a USB setup packet carried in a setup transfer's data1 word.
#[derive(Debug, Clone, Copy, PartialEq, Eq, Structural)]
pub struct SetupPacket {
    pub request_type: u8,
    pub request: u8,
    pub value: u16,
    pub index: u16,
    pub length: u16,
}

/// The setup packet in data1 word `data1`.
pub open spec fn spec_decode_setup(data1: u64) -> SetupPacket {
    SetupPacket {
        request_type: (data1 & SETUP_DATA1_REQUEST_TYPE) as u8,
        request: ((data1 & SETUP_DATA1_REQUEST) >> 8u64) as u8,
        value: ((data1 & SETUP_DATA1_VALUE) >> 16u64) as u16,
        index: ((data1 & SETUP_DATA1_INDEX) >> 32u64) as u16,
        length: ((data1 & SETUP_DATA1_LENGTH) >> 48u64) as u16,
    }
}

/// The setup packet in data1 word `data1`.
pub fn decode_setup(data1: u64) -> (r: SetupPacket)
    ensures
        r == spec_decode_setup(data1),
{
    SetupPacket {
        request_type: (data1 & SETUP_DATA1_REQUEST_TYPE) as u8,
        request: ((data1 & SETUP_DATA1_REQUEST) >> 8u64) as u8,
        value: ((data1 & SETUP_DATA1_VALUE) >> 16u64) as u16,
        index: ((data1 & SETUP_DATA1_INDEX) >> 32u64) as u16,
        length: ((data1 & SETUP_DATA1_LENGTH) >> 48u64) as u16,
    }
}

/// The direction of a transfer whose endpoint address (or request type) is
/// `address`: IN when its top bit is set.
pub open spec fn spec_direction(address: u8) -> UsbIpDirection {
    if address & 0x80u8 != 0 {
        UsbIpDirection::UsbDirIn
    } else {
        UsbIpDirection::UsbDirOut
    }
}

/// The direction of a transfer whose endpoint address (or request type) is
/// `address`: IN when its top bit is set.
pub fn transfer_direction(address: u8) -> (r: UsbIpDirection)
    ensures
        r == spec_direction(address),
{
    if address & 0x80u8 != 0 {
        UsbIpDirection::UsbDirIn
    } else {
        UsbIpDirection::UsbDirOut
    }
}

/// The parameters of a submit command, apart from the transfer buffer.
#[derive(Debug, Clone, Copy)]
pub struct SubmitRequest {
    pub direction: UsbIpDirection,
    pub ep: u32,
    pub transfer_flags: u32,
    pub transfer_buffer_length: u32,
    pub start_frame: u32,
    pub number_of_packets: u32,
    pub interval: u32,
    pub setup_bytes: [u8; SETUP_BYTES_SIZE],
}

/// The endpoint number of endpoint address `address`: its low four bits.
pub open spec fn endpoint_number(address: u8) -> u32 {
    (address & 0x0fu8) as u32
}

/// What the controller does with the message an endpoint holds after a doorbell.
#[derive(Debug, Clone, Copy, PartialEq, Eq, Structural)]
pub enum DoorbellAction {
    /// Nothing more for this doorbell nor for the doorbells after it in the same batch.
    Return,
    /// Nothing more for this doorbell; go on with the next one.
    Continue,
    /// Run the control transfer that starts with this setup packet.
    StartSetup(SetupPacket),
    /// Run the endpoint's normal transfers one after the other.
    ProcessNormal,
    /// Complete the link message with success and no data, then stop handling
    /// the batch if the endpoint's next message is valid.
    CompleteLink,
    /// Stop: the message is not what the controller expects.
    Fail(ControllerFailure),
}

/// What the controller does with message `msg` after a doorbell.
pub open spec fn spec_doorbell_action(msg: CiMessage) -> DoorbellAction {
    let t = spec_message_type(msg.control);
    if t == MESSAGE_TYPE_SETUP_TRANSFER {
        if spec_no_response(msg.control) {
            DoorbellAction::Return
        } else {
            DoorbellAction::StartSetup(spec_decode_setup(msg.data1))
        }
    } else if t == MESSAGE_TYPE_NORMAL_TRANSFER {
        if spec_no_response(msg.control) {
            DoorbellAction::Fail(ControllerFailure::ShouldNeedResponse)
        } else if !spec_is_valid(msg.control) {
            DoorbellAction::Fail(ControllerFailure::NotValid)
        } else {
            DoorbellAction::ProcessNormal
        }
    } else if t == MESSAGE_TYPE_LINK {
        if spec_is_valid(msg.control) {
            DoorbellAction::Return
        } else if !spec_no_response(msg.control) {
            DoorbellAction::CompleteLink
        } else {
            DoorbellAction::Continue
        }
    } else {
        DoorbellAction::Fail(ControllerFailure::UnexpectedMessage(t))
    }
}

/// What the controller does with message `msg` after a doorbell.
pub fn doorbell_action(msg: &CiMessage) -> (r: DoorbellAction)
    ensures
        r == spec_doorbell_action(*msg),
{
    let t = message_type(msg.control);
    if t == MESSAGE_TYPE_SETUP_TRANSFER {
        if no_response(msg.control) {
            DoorbellAction::Return
        } else {
            DoorbellAction::StartSetup(decode_setup(msg.data1))
        }
    } else if t == MESSAGE_TYPE_NORMAL_TRANSFER {
        if no_response(msg.control) {
            DoorbellAction::Fail(ControllerFailure::ShouldNeedResponse)
        } else if !is_valid(msg.control) {
            DoorbellAction::Fail(ControllerFailure::NotValid)
        } else {
            DoorbellAction::ProcessNormal
        }
    } else if t == MESSAGE_TYPE_LINK {
        if is_valid(msg.control) {
            DoorbellAction::Return
        } else if !no_response(msg.control) {
            DoorbellAction::CompleteLink
        } else {
            DoorbellAction::Continue
        }
    } else {
        DoorbellAction::Fail(ControllerFailure::UnexpectedMessage(t))
    }
}

/// Succeeds when an endpoint in state `state` is active.
pub fn check_endpoint_active(state: u32) -> (r: Result<(), ControllerFailure>)
    ensures
        r is Ok <==> state == ENDPOINT_STATE_ACTIVE,
        r matches Err(e) ==> e == ControllerFailure::EndpointNotActive,
{
    if state != ENDPOINT_STATE_ACTIVE {
        Err(ControllerFailure::EndpointNotActive)
    } else {
        Ok(())
    }
}

/// The stage of a control transfer that follows its setup stage.
#[derive(Debug, Clone, Copy, PartialEq, Eq, Structural)]
pub enum DataStage {
    /// A data stage: `length` bytes at address `buffer` go in `direction`.
    Data { direction: UsbIpDirection, length: u32, buffer: u64 },
    /// No data stage: the status stage follows directly.
    NoData { direction: UsbIpDirection },
}

/// The stage that message `msg` starts after the setup stage of `setup`.
pub open spec fn spec_setup_data_stage(msg: CiMessage, setup: SetupPacket) -> Result<
    DataStage,
    ControllerFailure,
> {
    if !spec_is_valid(msg.control) {
        Err(ControllerFailure::NotValid)
    } else if spec_message_type(msg.control) == MESSAGE_TYPE_NORMAL_TRANSFER {
        if spec_no_response(msg.control) {
            Err(ControllerFailure::ShouldNeedResponse)
        } else {
            Ok(
                DataStage::Data {
                    direction: spec_direction(setup.request_type),
                    length: msg.data0 & NORMAL_TRANSFER_DATA0_LENGTH,
                    buffer: msg.data1,
                },
            )
        }
    } else {
        Ok(DataStage::NoData { direction: spec_direction(setup.request_type) })
    }
}

/// The stage that message `msg` starts after the setup stage of `setup`.
pub fn setup_data_stage(msg: &CiMessage, setup: &SetupPacket) -> (r: Result<
    DataStage,
    ControllerFailure,
>)
    ensures
        r == spec_setup_data_stage(*msg, *setup),
{
    if !is_valid(msg.control) {
        Err(ControllerFailure::NotValid)
    } else if message_type(msg.control) == MESSAGE_TYPE_NORMAL_TRANSFER {
        if no_response(msg.control) {
            Err(ControllerFailure::ShouldNeedResponse)
        } else {
            Ok(
                DataStage::Data {
                    direction: transfer_direction(setup.request_type),
                    length: msg.data0 & NORMAL_TRANSFER_DATA0_LENGTH,
                    buffer: msg.data1,
                },
            )
        }
    } else {
        Ok(DataStage::NoData { direction: transfer_direction(setup.request_type) })
    }
}

/// Whether `r` are the submit command parameters of a control transfer with
/// setup packet `setup` (carried in data1 word `data1`) on endpoint
/// `endpoint_address`: the direction of the request type, the endpoint number,
/// a transfer buffer of `wLength` bytes, the eight setup bytes, and zero for
/// the flags, start frame, packet count and interval.
pub open spec fn is_setup_submit(r: SubmitRequest, setup: SetupPacket, endpoint_address: u8, data1: u64) -> bool {
    &&& r.direction == spec_direction(setup.request_type)
    &&& r.ep == endpoint_number(endpoint_address)
    &&& r.transfer_flags == 0
    &&& r.transfer_buffer_length == setup.length as u32
    &&& r.start_frame == 0
    &&& r.number_of_packets == 0
    &&& r.interval == 0
    &&& r.setup_bytes@ == le_u64_bytes(data1)
}

/// The submit command parameters of a control transfer.
pub fn setup_submit(setup: &SetupPacket, endpoint_address: u8, data1: u64) -> (r: SubmitRequest)
    ensures
        is_setup_submit(r, *setup, endpoint_address, data1),
{
    SubmitRequest {
        direction: transfer_direction(setup.request_type),
        ep: (endpoint_address & 0x0fu8) as u32,
        transfer_flags: 0,
        transfer_buffer_length: setup.length as u32,
        start_frame: 0,
        number_of_packets: 0,
        interval: 0,
        setup_bytes: u64_le_bytes(data1),
    }
}

/// How many bytes of a control transfer's reply go into the transfer buffer
/// of `length` bytes: all `received` bytes of an IN transfer, which must fit,
/// and none for an OUT transfer.
pub fn setup_copy_length(direction: UsbIpDirection, received: usize, length: u32) -> (r: Result<
    usize,
    ControllerFailure,
>)
    ensures
        direction == UsbIpDirection::UsbDirOut ==> r == Ok::<usize, ControllerFailure>(0),
        direction == UsbIpDirection::UsbDirIn && received <= length ==> r == Ok::<
            usize,
            ControllerFailure,
        >(received),
        direction == UsbIpDirection::UsbDirIn && received > length ==> r == Err::<
            usize,
            ControllerFailure,
        >(ControllerFailure::ResponseTooLong),
{
    match direction {
        UsbIpDirection::UsbDirOut => Ok(0),
        UsbIpDirection::UsbDirIn => {
            if received as u64 <= length as u64 {
                Ok(received)
            } else {
                Err(ControllerFailure::ResponseTooLong)
            }
        },
    }
}

/// Whether message `msg`, after the data stage of a control transfer, is a
/// valid status transfer that needs a response, and if not, why.
pub open spec fn spec_setup_status_stage(msg: CiMessage) -> Result<(), ControllerFailure> {
    if !spec_is_valid(msg.control) {
        Err(ControllerFailure::NotValid)
    } else if spec_message_type(msg.control) != MESSAGE_TYPE_STATUS_TRANSFER {
        Err(ControllerFailure::NotStatusTransfer)
    } else if spec_no_response(msg.control) {
        Err(ControllerFailure::ShouldNeedResponse)
    } else {
        Ok(())
    }
}

/// Succeeds when message `msg`, after the data stage of a control transfer, is
/// a valid status transfer that needs a response.
pub fn setup_status_stage(msg: &CiMessage) -> (r: Result<(), ControllerFailure>)
    ensures
        r == spec_setup_status_stage(*msg),
        !spec_is_valid(msg.control) ==> r == Err::<(), ControllerFailure>(ControllerFailure::NotValid),
        spec_is_valid(msg.control) && spec_message_type(msg.control) != MESSAGE_TYPE_STATUS_TRANSFER
            ==> r == Err::<(), ControllerFailure>(ControllerFailure::NotStatusTransfer),
        spec_is_valid(msg.control) && spec_message_type(msg.control) == MESSAGE_TYPE_STATUS_TRANSFER
            && spec_no_response(msg.control) ==> r == Err::<(), ControllerFailure>(
            ControllerFailure::ShouldNeedResponse,
        ),
        r is Ok <==> (spec_is_valid(msg.control) && spec_message_type(msg.control)
            == MESSAGE_TYPE_STATUS_TRANSFER && !spec_no_response(msg.control)),
{
    if !is_valid(msg.control) {
        Err(ControllerFailure::NotValid)
    } else if message_type(msg.control) != MESSAGE_TYPE_STATUS_TRANSFER {
        Err(ControllerFailure::NotStatusTransfer)
    } else if no_response(msg.control) {
        Err(ControllerFailure::ShouldNeedResponse)
    } else {
        Ok(())
    }
}

/// Whether message `msg`, after the status stage of a control transfer, is
/// valid, or else a link that needs no response, and if neither, why.
pub open spec fn spec_setup_after_status(msg: CiMessage) -> Result<(), ControllerFailure> {
    if spec_is_valid(msg.control) {
        Ok(())
    } else if spec_message_type(msg.control) != MESSAGE_TYPE_LINK {
        Err(ControllerFailure::NotLink)
    } else if !spec_no_response(msg.control) {
        Err(ControllerFailure::ShouldNotNeedResponse)
    } else {
        Ok(())
    }
}

/// Succeeds when message `msg`, after the status stage of a control transfer,
/// is valid, or else is a link that needs no response.
pub fn setup_after_status(msg: &CiMessage) -> (r: Result<(), ControllerFailure>)
    ensures
        r == spec_setup_after_status(*msg),
        r is Ok <==> (spec_is_valid(msg.control) || (spec_message_type(msg.control)
            == MESSAGE_TYPE_LINK && spec_no_response(msg.control))),
        !spec_is_valid(msg.control) && spec_message_type(msg.control) != MESSAGE_TYPE_LINK ==> r
            == Err::<(), ControllerFailure>(ControllerFailure::NotLink),
        !spec_is_valid(msg.control) && spec_message_type(msg.control) == MESSAGE_TYPE_LINK
            && !spec_no_response(msg.control) ==> r == Err::<(), ControllerFailure>(
            ControllerFailure::ShouldNotNeedResponse,
        ),
{
    if !is_valid(msg.control) {
        if message_type(msg.control) != MESSAGE_TYPE_LINK {
            return Err(ControllerFailure::NotLink);
        }
        if !no_response(msg.control) {
            return Err(ControllerFailure::ShouldNotNeedResponse);
        }
    }
    Ok(())
}

/// Where a control transfer stands.
#[derive(Debug, Clone, Copy, PartialEq, Eq, Structural)]
pub enum ControlStage {
    /// The endpoint's current message is the setup stage.
    Setup,
    /// The setup stage is complete; the endpoint's current message starts the
    /// data stage, or is the status stage when there is no data stage.
    Data,
    /// The endpoint's current message is the status stage.
    Status,
    /// The status stage is complete; the endpoint's current message follows the transfer.
    AfterStatus,
    /// The transfer is over.
    Done,
}

/// What the controller does at one stage of a control transfer.
#[derive(Debug, Clone, Copy)]
pub enum ControlAction {
    /// Complete the endpoint's current message with success and `length` bytes.
    Complete { length: u32 },
    /// Send the submit command `request`; for an OUT transfer its transfer
    /// buffer is the `length` bytes at address `buffer`, for an IN transfer the
    /// reply's data goes there ([`setup_copy_length`] says how much). Then
    /// complete the endpoint's current message with success and `length` bytes.
    SubmitData { request: SubmitRequest, direction: UsbIpDirection, length: u32, buffer: u64 },
    /// Send the submit command `request` with no transfer buffer, and complete nothing.
    SubmitNoData { request: SubmitRequest },
    /// Nothing more: the transfer is over.
    Finish,
}

/// A control transfer on an endpoint: the setup packet and the data1 word of
/// the setup transfer message that started it, the endpoint's address, and the
/// stage it has reached.
#[derive(Debug, Clone, Copy)]
pub struct ControlTransfer {
    pub setup: SetupPacket,
    pub setup_data1: u64,
    pub endpoint_address: u8,
    pub stage: ControlStage,
}

/// `t` at stage `stage`.
pub open spec fn at_stage(t: ControlTransfer, stage: ControlStage) -> ControlTransfer {
    ControlTransfer { stage, ..t }
}

/// Whether `r` and `next` are what one step of control transfer `t` gives when
/// the endpoint's current message is `msg` and the endpoint is in state
/// `endpoint_state`. The setup message is completed with no data. Then, on an
/// active endpoint, a normal transfer that needs a response is the data stage:
/// the submit command is sent and that message completed with its length;
/// any other valid message means there is no data stage: the submit command is
/// sent and nothing completed. The status message, a valid status transfer
/// that needs a response, is completed with no data. The message after it must
/// be valid, or a link that needs no response, and the transfer is over. A
/// failed check leaves the transfer where it was.
pub open spec fn spec_control_step(
    t: ControlTransfer,
    msg: CiMessage,
    endpoint_state: u32,
    r: Result<ControlAction, ControllerFailure>,
    next: ControlTransfer,
) -> bool {
    match t.stage {
        ControlStage::Setup => r == Ok::<ControlAction, ControllerFailure>(
            ControlAction::Complete { length: 0 },
        ) && next == at_stage(t, ControlStage::Data),
        ControlStage::Data => if endpoint_state != ENDPOINT_STATE_ACTIVE {
            r == Err::<ControlAction, ControllerFailure>(ControllerFailure::EndpointNotActive)
                && next == t
        } else {
            match spec_setup_data_stage(msg, t.setup) {
                Err(e) => r == Err::<ControlAction, ControllerFailure>(e) && next == t,
                Ok(DataStage::Data { direction, length, buffer }) => {
                    &&& next == at_stage(t, ControlStage::Status)
                    &&& r matches Ok(
                        ControlAction::SubmitData { request, direction: d, length: l, buffer: b },
                    )
                    &&& d == direction
                    &&& l == length
                    &&& b == buffer
                    &&& is_setup_submit(request, t.setup, t.endpoint_address, t.setup_data1)
                },
                Ok(DataStage::NoData { .. }) => {
                    &&& next == at_stage(t, ControlStage::Status)
                    &&& r matches Ok(ControlAction::SubmitNoData { request })
                    &&& is_setup_submit(request, t.setup, t.endpoint_address, t.setup_data1)
                },
            }
        },
        ControlStage::Status => match spec_setup_status_stage(msg) {
            Err(e) => r == Err::<ControlAction, ControllerFailure>(e) && next == t,
            Ok(()) => r == Ok::<ControlAction, ControllerFailure>(
                ControlAction::Complete { length: 0 },
            ) && next == at_stage(t, ControlStage::AfterStatus),
        },
        ControlStage::AfterStatus => match spec_setup_after_status(msg) {
            Err(e) => r == Err::<ControlAction, ControllerFailure>(e) && next == t,
            Ok(()) => r == Ok::<ControlAction, ControllerFailure>(ControlAction::Finish) && next
                == at_stage(t, ControlStage::Done),
        },
        ControlStage::Done => r == Ok::<ControlAction, ControllerFailure>(ControlAction::Finish)
            && next == t,
    }
}

impl ControlTransfer {
    /// The control transfer that a setup transfer message with data1 word
    /// `setup_data1` starts on endpoint `endpoint_address`.
    pub fn new(setup_data1: u64, endpoint_address: u8) -> (r: Self)
        ensures
            r == (ControlTransfer {
                setup: spec_decode_setup(setup_data1),
                setup_data1,
                endpoint_address,
                stage: ControlStage::Setup,
            }),
    {
        ControlTransfer {
            setup: decode_setup(setup_data1),
            setup_data1,
            endpoint_address,
            stage: ControlStage::Setup,
        }
    }

    /// One step of the transfer, where the endpoint's current message is `msg`
    /// and the endpoint is in state `endpoint_state`: what to do, or why the
    /// controller cannot go on.
    pub fn step(&mut self, msg: &CiMessage, endpoint_state: u32) -> (r: Result<
        ControlAction,
        ControllerFailure,
    >)
        ensures
            spec_control_step(*old(self), *msg, endpoint_state, r, *final(self)),
    {
        match self.stage {
            ControlStage::Setup => {
                self.stage = ControlStage::Data;
                Ok(ControlAction::Complete { length: 0 })
            },
            ControlStage::Data => {
                if let Err(e) = check_endpoint_active(endpoint_state) {
                    return Err(e);
                }
                let request = setup_submit(&self.setup, self.endpoint_address, self.setup_data1);
                match setup_data_stage(msg, &self.setup) {
                    Err(e) => Err(e),
                    Ok(DataStage::Data { direction, length, buffer }) => {
                        self.stage = ControlStage::Status;
                        Ok(ControlAction::SubmitData { request, direction, length, buffer })
                    },
                    Ok(DataStage::NoData { .. }) => {
                        self.stage = ControlStage::Status;
                        Ok(ControlAction::SubmitNoData { request })
                    },
                }
            },
            ControlStage::Status => match setup_status_stage(msg) {
                Err(e) => Err(e),
                Ok(()) => {
                    self.stage = ControlStage::AfterStatus;
                    Ok(ControlAction::Complete { length: 0 })
                },
            },
            ControlStage::AfterStatus => match setup_after_status(msg) {
                Err(e) => Err(e),
                Ok(()) => {
                    self.stage = ControlStage::Done;
                    Ok(ControlAction::Finish)
                },
            },
            ControlStage::Done => Ok(ControlAction::Finish),
        }
    }
}

/// What the controller does with the current message of an endpoint while it
/// runs the endpoint's normal transfers.
#[derive(Debug, Clone, Copy)]
pub enum NormalAction {
    /// No normal transfer to run: stop.
    Stop,
    /// Send this submit command for the transfer of `length` bytes at address `buffer`.
    Submit { request: SubmitRequest, length: u32, buffer: u64 },
    /// Stop: the message is not what the controller expects.
    Fail(ControllerFailure),
}

/// The submit command parameters of a normal transfer of `length` bytes on
/// endpoint `endpoint_address`: no setup packet, interval 10.
pub open spec fn spec_normal_submit(endpoint_address: u8, length: u32) -> SubmitRequest {
    SubmitRequest {
        direction: spec_direction(endpoint_address),
        ep: endpoint_number(endpoint_address),
        transfer_flags: 0,
        transfer_buffer_length: length,
        start_frame: 0,
        number_of_packets: 0,
        interval: NORMAL_TRANSFER_INTERVAL,
        setup_bytes: [0u8; SETUP_BYTES_SIZE],
    }
}

/// What the controller does with message `msg` of endpoint `endpoint_address`
/// while it runs the endpoint's normal transfers: it stops at a message that is
/// not valid or not a normal transfer, and sends a submit command for a normal
/// transfer that needs a response.
pub open spec fn spec_normal_action(msg: CiMessage, endpoint_address: u8) -> NormalAction {
    if !spec_is_valid(msg.control) {
        NormalAction::Stop
    } else if spec_message_type(msg.control) != MESSAGE_TYPE_NORMAL_TRANSFER {
        NormalAction::Stop
    } else if spec_no_response(msg.control) {
        NormalAction::Fail(ControllerFailure::ShouldNeedResponse)
    } else {
        NormalAction::Submit {
            request: spec_normal_submit(endpoint_address, msg.data0 & NORMAL_TRANSFER_DATA0_LENGTH),
            length: msg.data0 & NORMAL_TRANSFER_DATA0_LENGTH,
            buffer: msg.data1,
        }
    }
}

/// What the controller does with message `msg` of endpoint `endpoint_address`
/// while it runs the endpoint's normal transfers.
pub fn normal_transfer_action(msg: &CiMessage, endpoint_address: u8) -> (r: NormalAction)
    ensures
        r == spec_normal_action(*msg, endpoint_address),
{
    if !is_valid(msg.control) {
        return NormalAction::Stop;
    }
    let t = message_type(msg.control);
    if t != MESSAGE_TYPE_NORMAL_TRANSFER {
        // A link met here is valid, so it never needs to be completed.
        return NormalAction::Stop;
    }
    if no_response(msg.control) {
        return NormalAction::Fail(ControllerFailure::ShouldNeedResponse);
    }
    let length = msg.data0 & NORMAL_TRANSFER_DATA0_LENGTH;
    let request = SubmitRequest {
        direction: transfer_direction(endpoint_address),
        ep: (endpoint_address & 0x0fu8) as u32,
        transfer_flags: 0,
        transfer_buffer_length: length,
        start_frame: 0,
        number_of_packets: 0,
        interval: NORMAL_TRANSFER_INTERVAL,
        setup_bytes: [0u8; SETUP_BYTES_SIZE],
    };
    NormalAction::Submit { request, length, buffer: msg.data1 }
}

/// How many bytes of a normal transfer's reply go into the transfer buffer of
/// `length` bytes: for an IN transfer as many as were received, at most
/// `length`; none for an OUT transfer.
pub fn normal_copy_length(direction: UsbIpDirection, received: usize, length: u32) -> (r: usize)
    ensures
        direction == UsbIpDirection::UsbDirOut ==> r == 0,
        direction == UsbIpDirection::UsbDirIn ==> r == (if received <= length {
            received as int
        } else {
            length as int
        }),
{
    match direction {
        UsbIpDirection::UsbDirOut => 0,
        UsbIpDirection::UsbDirIn => {
            if received as u64 <= length as u64 {
                received
            } else {
                length as usize
            }
        },
    }
}

/// Whether a failure with error code `code` to complete a transfer stops the
/// controller: every code but the one of a transfer that is no longer active.
pub fn completion_error_is_fatal(code: i64) -> (r: bool)
    ensures
        r == (code != TRANSFER_NO_LONGER_ACTIVE),
{
    code != TRANSFER_NO_LONGER_ACTIVE
}


// ---------------------------------------------------------------------------
// Laws
// ---------------------------------------------------------------------------
/// Both capabilities messages decode as valid messages of their own type that
/// need no response.
pub proof fn lemma_capabilities_decode()
    ensures
        spec_message_type(spec_controller_capabilities().control)
            == MESSAGE_TYPE_CONTROLLER_CAPABILITIES,
        spec_is_valid(spec_controller_capabilities().control),
        spec_no_response(spec_controller_capabilities().control),
        spec_message_type(spec_port_capabilities().control) == MESSAGE_TYPE_PORT_CAPABILITIES,
        spec_is_valid(spec_port_capabilities().control),
        spec_no_response(spec_port_capabilities().control),
{
    let c = spec_controller_capabilities().control;
    let p = spec_port_capabilities().control;
    assert(0u32 | 0x4000u32 | 0x8000u32 | (1u32 << 16u32) == 0x0001_c000u32) by (bit_vector);
    assert(1u32 | 0x4000u32 | 0x8000u32 | (1u32 << 16u32) | (0u32 << 24u32) == 0x0001_c001u32)
        by (bit_vector);
    assert(0x0001_c000u32 & 0x3fu32 == 0u32 && 0x0001_c000u32 & 0x8000u32 != 0u32
        && 0x0001_c000u32 & 0x4000u32 != 0u32) by (bit_vector);
    assert(0x0001_c001u32 & 0x3fu32 == 1u32 && 0x0001_c001u32 & 0x8000u32 != 0u32
        && 0x0001_c001u32 & 0x4000u32 != 0u32) by (bit_vector);
}

/// Whether `addrs` are the addresses 1, 2, 3, ... in order, as the controller
/// hands them out when it creates devices.
pub open spec fn sequential_addresses(addrs: Seq<usize>) -> bool {
    forall|i: int| 0 <= i < addrs.len() ==> #[trigger] addrs[i] == i + 1
}

/// Whether `after` is what the device list `before` becomes when the
/// controller handles command `msg`: a created device goes after the others
/// with the address the command's action gives it and no endpoints (as
/// [`create_device`] adds it); a created endpoint goes to the first device with
/// the address the endpoint reports, the list staying as it is when none has
/// it (as [`add_endpoint_to`] adds it); every other command leaves the list as
/// it is.
pub open spec fn spec_command_step<D, E>(
    before: Seq<DeviceModel<D, E>>,
    msg: CiMessage,
    after: Seq<DeviceModel<D, E>>,
) -> bool {
    match spec_command_action(msg, before) {
        CommandAction::CreateDevice { address } => exists|state_machine: D|
            after == before.push(#[trigger] created_device(state_machine, address)),
        CommandAction::CreateEndpoint => exists|address: usize, endpoint: EndpointModel<E>|
            after == #[trigger] spec_add_endpoint(before, address, endpoint),
        _ => after == before,
    }
}

/// Adding an endpoint keeps the devices and their addresses.
pub proof fn lemma_add_endpoint_keeps_addresses<D, E>(
    devices: Seq<DeviceModel<D, E>>,
    address: usize,
    endpoint: EndpointModel<E>,
)
    ensures
        spec_add_endpoint(devices, address, endpoint).len() == devices.len(),
        device_addresses(spec_add_endpoint(devices, address, endpoint)) == device_addresses(devices),
{
    assert(device_addresses(spec_add_endpoint(devices, address, endpoint)) =~= device_addresses(
        devices,
    ));
}

/// One command keeps the device addresses 1, 2, 3, ... in creation order: a
/// created device gets the next address, and no device is removed.
pub proof fn lemma_command_step_keeps_addresses<D, E>(
    before: Seq<DeviceModel<D, E>>,
    msg: CiMessage,
    after: Seq<DeviceModel<D, E>>,
)
    requires
        sequential_addresses(device_addresses(before)),
        before.len() < usize::MAX,
        spec_command_step(before, msg, after),
    ensures
        sequential_addresses(device_addresses(after)),
        after.len() == before.len() || after.len() == before.len() + 1,
        device_addresses(after).take(before.len() as int) == device_addresses(before),
{
    match spec_command_action(msg, before) {
        CommandAction::CreateDevice { address } => {
            let sm = choose|sm: D| after == before.push(#[trigger] created_device(sm, address));
            let addrs = device_addresses(after);
            assert forall|i: int| 0 <= i < addrs.len() implies #[trigger] addrs[i] == i + 1 by {
                if i < before.len() {
                    assert(addrs[i] == device_addresses(before)[i]);
                }
            }
            assert(addrs.take(before.len() as int) =~= device_addresses(before));
        },
        CommandAction::CreateEndpoint => {
            let (a, e) = choose|a: usize, e: EndpointModel<E>|
                after == #[trigger] spec_add_endpoint(before, a, e);
            lemma_add_endpoint_keeps_addresses(before, a, e);
            assert(device_addresses(after).take(before.len() as int) =~= device_addresses(before));
        },
        _ => {
            assert(device_addresses(after).take(before.len() as int) =~= device_addresses(before));
        },
    }
}

/// Over any run of commands that starts with no devices, the device addresses
/// are 1, 2, 3, ... in the order the devices were created, and no command ever
/// removes a device: the list only grows.
#[verifier::spinoff_prover]
pub proof fn lemma_command_run_keeps_addresses<D, E>(
    msgs: Seq<CiMessage>,
    lists: Seq<Seq<DeviceModel<D, E>>>,
)
    requires
        lists.len() == msgs.len() + 1,
        lists[0].len() == 0,
        forall|k: int|
            0 <= k < msgs.len() ==> (#[trigger] lists[k]).len() < usize::MAX && spec_command_step(
                lists[k],
                msgs[k],
                lists[k + 1],
            ),
    ensures
        forall|k: int|
            0 <= k < lists.len() ==> sequential_addresses(device_addresses(#[trigger] lists[k])),
        forall|k: int, l: int|
            0 <= k <= l < lists.len() ==> (#[trigger] lists[k]).len() <= (#[trigger] lists[l]).len(),
    decreases msgs.len(),
{
    if msgs.len() == 0 {
        assert(sequential_addresses(device_addresses(lists[0])));
    } else {
        let n = msgs.len() - 1;
        let shorter = lists.take(lists.len() - 1);
        assert(shorter[0] == lists[0]);
        assert forall|k: int| 0 <= k < msgs.take(n).len() implies (#[trigger] shorter[k]).len()
            < usize::MAX && spec_command_step(shorter[k], msgs.take(n)[k], shorter[k + 1]) by {
            assert(shorter[k] == lists[k]);
            assert(shorter[k + 1] == lists[k + 1]);
            assert(msgs.take(n)[k] == msgs[k]);
        }
        lemma_command_run_keeps_addresses(msgs.take(n), shorter);
        assert(lists[n] == shorter[n]);
        assert(sequential_addresses(device_addresses(lists[n])));
        assert(lists[n].len() < usize::MAX && spec_command_step(lists[n], msgs[n], lists[n + 1]));
        lemma_command_step_keeps_addresses(lists[n], msgs[n], lists[n + 1]);
        assert forall|k: int| 0 <= k < lists.len() implies sequential_addresses(
            device_addresses(#[trigger] lists[k]),
        ) by {
            if k < lists.len() - 1 {
                assert(lists[k] == shorter[k]);
            }
        }
        assert forall|k: int, l: int| 0 <= k <= l < lists.len() implies (#[trigger] lists[k]).len()
            <= (#[trigger] lists[l]).len() by {
            if l < lists.len() - 1 {
                assert(lists[k] == shorter[k]);
                assert(lists[l] == shorter[l]);
            } else if k < lists.len() - 1 {
                assert(lists[k] == shorter[k]);
                assert(lists[n] == shorter[n]);
                assert(shorter[k].len() <= shorter[n].len());
            }
        }
    }
}

/// The submit commands the controller sends, in order, while it runs the
/// normal transfers of an endpoint at `endpoint_address` whose messages come
/// as `msgs`: one for each message until the first one on which
/// [`normal_transfer_action`] does not submit.
pub open spec fn normal_run_submits(msgs: Seq<CiMessage>, endpoint_address: u8) -> Seq<SubmitRequest>
    decreases msgs.len(),
{
    if msgs.len() == 0 {
        Seq::empty()
    } else {
        match spec_normal_action(msgs[0], endpoint_address) {
            NormalAction::Submit { request, .. } => seq![request] + normal_run_submits(
                msgs.drop_first(),
                endpoint_address,
            ),
            _ => Seq::empty(),
        }
    }
}

/// Whether `msg` is a valid normal transfer that needs a response.
pub open spec fn is_pending_normal_transfer(msg: CiMessage) -> bool {
    &&& spec_is_valid(msg.control)
    &&& spec_message_type(msg.control) == MESSAGE_TYPE_NORMAL_TRANSFER
    &&& !spec_no_response(msg.control)
}

/// When an endpoint's queue holds `k` valid normal transfers that need a
/// response followed by a message that is not valid, the controller sends
/// exactly `k` submit commands, one for each transfer and in queue order, each
/// for that transfer's length, and then stops.
pub proof fn lemma_normal_queue_submits(msgs: Seq<CiMessage>, k: int, endpoint_address: u8)
    requires
        0 <= k < msgs.len(),
        forall|i: int| 0 <= i < k ==> is_pending_normal_transfer(#[trigger] msgs[i]),
        !spec_is_valid(msgs[k].control),
    ensures
        spec_normal_action(msgs[k], endpoint_address) is Stop,
        normal_run_submits(msgs, endpoint_address) == Seq::new(
            k as nat,
            |i: int| spec_normal_submit(endpoint_address, msgs[i].data0 & NORMAL_TRANSFER_DATA0_LENGTH),
        ),
    decreases k,
{
    if k == 0 {
        assert(normal_run_submits(msgs, endpoint_address) =~= Seq::<SubmitRequest>::empty());
    } else {
        let rest = msgs.drop_first();
        assert forall|i: int| 0 <= i < k - 1 implies is_pending_normal_transfer(#[trigger] rest[i]) by {
            assert(rest[i] == msgs[i + 1]);
            assert(is_pending_normal_transfer(msgs[i + 1]));
        }
        assert(rest[k - 1] == msgs[k]);
        lemma_normal_queue_submits(rest, k - 1, endpoint_address);
        assert(is_pending_normal_transfer(msgs[0]));
        assert(normal_run_submits(msgs, endpoint_address) =~= Seq::new(
            k as nat,
            |i: int| spec_normal_submit(endpoint_address, msgs[i].data0 & NORMAL_TRANSFER_DATA0_LENGTH),
        ));
    }
}

/// How many bytes action `a` completes the endpoint's current message with,
/// when it completes it.
pub open spec fn completion_length(a: ControlAction) -> Option<u32> {
    match a {
        ControlAction::Complete { length } => Some(length),
        ControlAction::SubmitData { length, .. } => Some(length),
        _ => None,
    }
}

/// A control transfer that runs to its end takes four steps: it completes its
/// setup message with no data; then sends one submit command, which carries
/// the setup packet it started with, and completes the data message with the
/// data stage's length when there is a data stage (a normal transfer), or
/// completes nothing when there is none; then completes its status message, a
/// status transfer, with no data; then finishes. It completes nothing else.
pub proof fn lemma_control_transfer_completions(
    transfers: Seq<ControlTransfer>,
    msgs: Seq<CiMessage>,
    endpoint_states: Seq<u32>,
    actions: Seq<ControlAction>,
)
    requires
        transfers.len() == 5,
        msgs.len() == 4,
        endpoint_states.len() == 4,
        actions.len() == 4,
        transfers[0].stage == ControlStage::Setup,
        forall|k: int|
            0 <= k < 4 ==> spec_control_step(
                #[trigger] transfers[k],
                msgs[k],
                endpoint_states[k],
                Ok::<ControlAction, ControllerFailure>(actions[k]),
                transfers[k + 1],
            ),
    ensures
        completion_length(actions[0]) == Some(0u32),
        completion_length(actions[1]) == (if spec_message_type(msgs[1].control)
            == MESSAGE_TYPE_NORMAL_TRANSFER {
            Some(msgs[1].data0 & NORMAL_TRANSFER_DATA0_LENGTH)
        } else {
            None
        }),
        actions[1] matches ControlAction::SubmitData { request, .. } ==> is_setup_submit(
            request,
            transfers[0].setup,
            transfers[0].endpoint_address,
            transfers[0].setup_data1,
        ),
        actions[1] matches ControlAction::SubmitNoData { request } ==> is_setup_submit(
            request,
            transfers[0].setup,
            transfers[0].endpoint_address,
            transfers[0].setup_data1,
        ),
        actions[1] is SubmitData || actions[1] is SubmitNoData,
        spec_message_type(msgs[2].control) == MESSAGE_TYPE_STATUS_TRANSFER,
        completion_length(actions[2]) == Some(0u32),
        actions[3] is Finish,
        transfers[4].stage == ControlStage::Done,
{
    assert(spec_control_step(transfers[0], msgs[0], endpoint_states[0], Ok(actions[0]), transfers[1]));
    assert(spec_control_step(transfers[1], msgs[1], endpoint_states[1], Ok(actions[1]), transfers[2]));
    assert(spec_control_step(transfers[2], msgs[2], endpoint_states[2], Ok(actions[2]), transfers[3]));
    assert(spec_control_step(transfers[3], msgs[3], endpoint_states[3], Ok(actions[3]), transfers[4]));
}

/// In a list with addresses 1, 2, 3, ..., the search for an address that
/// fits in a byte finds the device that was created with it.
pub proof fn lemma_created_device_is_found(addrs: Seq<usize>, address: u8)
    requires
        sequential_addresses(addrs),
        1 <= address <= addrs.len(),
    ensures
        find_u8_from(addrs, address, 0) == Ok::<int, ControllerFailure>(address - 1),
{
    lemma_find_from_below(addrs, address, 0);
}

proof fn lemma_find_from_below(addrs: Seq<usize>, address: u8, i: int)
    requires
        sequential_addresses(addrs),
        1 <= address <= addrs.len(),
        0 <= i <= address - 1,
    ensures
        find_u8_from(addrs, address, i) == Ok::<int, ControllerFailure>(address - 1),
    decreases address - 1 - i,
{
    assert(addrs[i] == i + 1);
    if i < address - 1 {
        lemma_find_from_below(addrs, address, i + 1);
    }
}

/// The eight setup bytes sent for a control transfer carry the setup packet
/// decoded from the same data1 word: `bmRequestType`, `bRequest`, then
/// `wValue`, `wIndex` and `wLength`, each little-endian.
pub proof fn lemma_setup_bytes_carry_packet(data1: u64)
    ensures
        ({
            let b = le_u64_bytes(data1);
            let p = spec_decode_setup(data1);
            &&& b[0] == p.request_type
            &&& b[1] == p.request
            &&& b[2] as u16 | ((b[3] as u16) << 8u16) == p.value
            &&& b[4] as u16 | ((b[5] as u16) << 8u16) == p.index
            &&& b[6] as u16 | ((b[7] as u16) << 8u16) == p.length
        }),
{
    let b0 = data1 as u8;
    let b1 = (data1 >> 8) as u8;
    let b2 = (data1 >> 16) as u8;
    let b3 = (data1 >> 24) as u8;
    let b4 = (data1 >> 32) as u8;
    let b5 = (data1 >> 40) as u8;
    let b6 = (data1 >> 48) as u8;
    let b7 = (data1 >> 56) as u8;
    assert(b0 == (data1 & 0xffu64) as u8 && b1 == ((data1 & 0xff00u64) >> 8u64) as u8) by (bit_vector)
        requires
            b0 == data1 as u8,
            b1 == (data1 >> 8) as u8,
    ;
    assert(b2 as u16 | ((b3 as u16) << 8u16) == ((data1 & 0xffff_0000u64) >> 16u64) as u16)
        by (bit_vector)
        requires
            b2 == (data1 >> 16) as u8,
            b3 == (data1 >> 24) as u8,
    ;
    assert(b4 as u16 | ((b5 as u16) << 8u16) == ((data1 & 0xffff_0000_0000u64) >> 32u64) as u16)
        by (bit_vector)
        requires
            b4 == (data1 >> 32) as u8,
            b5 == (data1 >> 40) as u8,
    ;
    assert(b6 as u16 | ((b7 as u16) << 8u16) == ((data1 & 0xffff_0000_0000_0000u64) >> 48u64) as u16)
        by (bit_vector)
        requires
            b6 == (data1 >> 48) as u8,
            b7 == (data1 >> 56) as u8,
    ;
}

/// The setup packet carried in a data1 word, field by field: `bmRequestType`
/// is its lowest byte, `bRequest` the next byte, then `wValue`, `wIndex` and
/// `wLength` are its three upper 16-bit quarters, from low to high.
pub proof fn lemma_decode_setup_fields(data1: u64)
    ensures
        spec_decode_setup(data1).request_type == data1 % 0x100,
        spec_decode_setup(data1).request == (data1 / 0x100) % 0x100,
        spec_decode_setup(data1).value == (data1 / 0x1_0000) % 0x1_0000,
        spec_decode_setup(data1).index == (data1 / 0x1_0000_0000) % 0x1_0000,
        spec_decode_setup(data1).length == data1 / 0x1_0000_0000_0000,
{
    assert((data1 & 0xffu64) as u8 == data1 % 0x100 && ((data1 & 0xff00u64) >> 8u64) as u8 == (
    data1 / 0x100) % 0x100) by (bit_vector);
    assert(((data1 & 0xffff_0000u64) >> 16u64) as u16 == (data1 / 0x1_0000) % 0x1_0000)
        by (bit_vector);
    assert(((data1 & 0xffff_0000_0000u64) >> 32u64) as u16 == (data1 / 0x1_0000_0000) % 0x1_0000)
        by (bit_vector);
    assert(((data1 & 0xffff_0000_0000_0000u64) >> 48u64) as u16 == data1 / 0x1_0000_0000_0000)
        by (bit_vector);
}

/// Whether `direction` is IN exactly when bit 7 of `byte` is set, OUT otherwise.
pub open spec fn direction_of_bit7(direction: UsbIpDirection, byte: u8) -> bool {
    (direction == UsbIpDirection::UsbDirIn) == (byte >= 0x80)
}

/// The stage after the setup stage of a control transfer goes in the direction
/// of the setup packet's `bmRequestType`: IN exactly when its bit 7 is set. It
/// is a data stage exactly when the message is a valid normal transfer (type
/// 57) that needs a response; that stage moves the low 28 bits of the
/// message's data0 word, in bytes, at the address in its data1 word. Any other
/// valid message means there is no data stage; a message that is not valid is
/// refused.
pub proof fn lemma_data_stage_follows_request_type(msg: CiMessage, setup: SetupPacket)
    ensures
        spec_setup_data_stage(msg, setup) is Err <==> (msg.control & 0x8000 == 0 || (msg.control
            & 0x3f == 57 && msg.control & 0x4000 != 0)),
        spec_setup_data_stage(msg, setup) matches Ok(DataStage::Data { direction, length, buffer })
            ==> {
            &&& direction_of_bit7(direction, setup.request_type)
            &&& length == msg.data0 % 0x1000_0000
            &&& buffer == msg.data1
            &&& msg.control & 0x3f == 57
        },
        spec_setup_data_stage(msg, setup) matches Ok(DataStage::NoData { direction }) ==> {
            &&& direction_of_bit7(direction, setup.request_type)
            &&& msg.control & 0x3f != 57
        },
{
    let b = setup.request_type;
    assert((b & 0x80u8 != 0) == (b >= 0x80)) by (bit_vector);
    let d0 = msg.data0;
    assert(d0 & 0x0fff_ffffu32 == d0 % 0x1000_0000) by (bit_vector);
}

/// Whether submit command `request` asks for `wLength` bytes of control
/// transfer `t`, on the endpoint number (low four bits) of its endpoint
/// address, with the eight setup bytes `t` started with, `bmRequestType` first
/// and `bRequest` second.
pub open spec fn carries_setup(request: SubmitRequest, t: ControlTransfer) -> bool {
    &&& request.transfer_buffer_length == t.setup.length
    &&& request.ep == t.endpoint_address % 16
    &&& request.setup_bytes@.len() == 8
    &&& request.setup_bytes@[0] == t.setup_data1 % 0x100
    &&& request.setup_bytes@[1] == (t.setup_data1 / 0x100) % 0x100
}

/// The submit command sent for the data stage of a control transfer moves
/// data the same way the data stage does, and both go in the direction of the
/// setup packet's `bmRequestType` (IN exactly when its bit 7 is set); the
/// command asks for `wLength` bytes, on the endpoint number of the transfer's
/// endpoint address, and carries the eight setup bytes the transfer started
/// with, `bmRequestType` first.
pub proof fn lemma_control_submit_direction(
    t: ControlTransfer,
    msg: CiMessage,
    endpoint_state: u32,
    r: Result<ControlAction, ControllerFailure>,
    next: ControlTransfer,
)
    requires
        spec_control_step(t, msg, endpoint_state, r, next),
    ensures
        r matches Ok(ControlAction::SubmitData { request, direction, length, .. }) ==> {
            &&& request.direction == direction
            &&& direction_of_bit7(direction, t.setup.request_type)
            &&& length == msg.data0 % 0x1000_0000
            &&& carries_setup(request, t)
        },
        r matches Ok(ControlAction::SubmitNoData { request }) ==> {
            &&& direction_of_bit7(request.direction, t.setup.request_type)
            &&& carries_setup(request, t)
        },
{
    let b = t.setup.request_type;
    assert((b & 0x80u8 != 0) == (b >= 0x80)) by (bit_vector);
    let a = t.endpoint_address;
    assert((a & 0x0fu8) == a % 16) by (bit_vector);
    let d0 = msg.data0;
    assert(d0 & 0x0fff_ffffu32 == d0 % 0x1000_0000) by (bit_vector);
    let d1 = t.setup_data1;
    assert(d1 as u8 == d1 % 0x100 && (d1 >> 8) as u8 == (d1 / 0x100) % 0x100) by (bit_vector);
}

/// The controller submits a normal transfer exactly when the message is a
/// valid normal transfer (type 57) that needs a response. The submit command
/// goes in the direction of the endpoint address, IN exactly when its bit 7 is
/// set, on the endpoint number in its low four bits, for the low 28 bits of the
/// message's data0 word in bytes at the address in its data1 word, with no
/// setup bytes, no flags, start frame 0, no packets and interval 10. An
/// invalid message, or a valid one of another type, stops the run.
pub proof fn lemma_normal_submit_follows_endpoint(msg: CiMessage, endpoint_address: u8)
    ensures
        (spec_normal_action(msg, endpoint_address) is Submit) <==> (msg.control & 0x8000 != 0
            && msg.control & 0x3f == 57 && msg.control & 0x4000 == 0),
        (spec_normal_action(msg, endpoint_address) is Stop) <==> (msg.control & 0x8000 == 0
            || msg.control & 0x3f != 57),
        spec_normal_action(msg, endpoint_address) matches NormalAction::Submit {
            request,
            length,
            buffer,
        } ==> {
            &&& direction_of_bit7(request.direction, endpoint_address)
            &&& request.ep == endpoint_address % 16
            &&& length == msg.data0 % 0x1000_0000
            &&& request.transfer_buffer_length == length
            &&& buffer == msg.data1
            &&& request.transfer_flags == 0
            &&& request.start_frame == 0
            &&& request.number_of_packets == 0
            &&& request.interval == 10
            &&& request.setup_bytes@ == seq![0u8, 0u8, 0u8, 0u8, 0u8, 0u8, 0u8, 0u8]
        },
{
    let a = endpoint_address;
    assert((a & 0x80u8 != 0) == (a >= 0x80)) by (bit_vector);
    assert((a & 0x0fu8) == a % 16) by (bit_vector);
    let d0 = msg.data0;
    assert(d0 & 0x0fff_ffffu32 == d0 % 0x1000_0000) by (bit_vector);
    assert([0u8; SETUP_BYTES_SIZE]@ =~= seq![0u8, 0u8, 0u8, 0u8, 0u8, 0u8, 0u8, 0u8]);
}

/// A search for `address` from index `i` on that succeeds finds an entry equal
/// to `address`, at or after `i`, with no entry from `i` up to it that equals
/// `address` or does not fit in a byte.
pub proof fn lemma_find_u8_from_finds_first(addrs: Seq<usize>, address: u8, i: int)
    ensures
        find_u8_from(addrs, address, i) matches Ok(k) ==> {
            &&& i <= k < addrs.len()
            &&& addrs[k] == address
            &&& forall|j: int| i <= j < k ==> #[trigger] addrs[j] != address && addrs[j] <= 255
        },
    decreases addrs.len() - i,
{
    if 0 <= i < addrs.len() && addrs[i] <= 255 && addrs[i] != address {
        lemma_find_u8_from_finds_first(addrs, address, i + 1);
    }
}

/// What the controller does with a command, by its type (the low six bits of
/// its control word): it answers controller power-on, start and pause (16,
/// 18, 19) through the controller, port power-on and status (24, 30) through
/// the port, resets the port on a port reset (28), creates a device at the
/// next address, one more than the devices it has, on device create (32),
/// creates an endpoint on endpoint create (40), and on endpoint destroy, pause
/// and set-next-transfer (41, 43, 46) answers through the endpoint that the
/// low byte (device address) and the next byte (endpoint address) of data0
/// name: the first device with that address and its first endpoint with that
/// address. Any other type is refused as not implemented.
pub proof fn lemma_command_action_by_type<D, E>(msg: CiMessage, devices: Seq<DeviceModel<D, E>>)
    requires
        devices.len() < usize::MAX,
        forall|i: int| 0 <= i < devices.len() ==> (#[trigger] devices[i]).endpoints.len() < usize::MAX,
    ensures
        ({
            let t = msg.control % 64;
            let a = spec_command_action(msg, devices);
            &&& (t == 16 || t == 18 || t == 19) ==> a == CommandAction::RespondController
            &&& (t == 24 || t == 30) ==> a == CommandAction::RespondPort
            &&& t == 28 ==> a == CommandAction::ResetPort
            &&& t == 32 ==> a == CommandAction::CreateDevice { address: (devices.len() + 1) as usize }
            &&& t == 40 ==> a == CommandAction::CreateEndpoint
            &&& (t == 41 || t == 43 || t == 46) ==> (a is RespondEndpoint || a is Fail)
            &&& !(t == 16 || t == 18 || t == 19 || t == 24 || t == 28 || t == 30 || t == 32 || t
                == 40 || t == 41 || t == 43 || t == 46) ==> a == CommandAction::Fail(
                ControllerFailure::UnimplementedMessage(t as u32),
            )
        }),
        spec_command_action(msg, devices) matches CommandAction::RespondEndpoint { device, endpoint }
            ==> {
            &&& device < devices.len()
            &&& devices[device as int].address == msg.data0 % 256
            &&& forall|j: int| 0 <= j < device ==> (#[trigger] devices[j]).address != msg.data0 % 256
            &&& endpoint < devices[device as int].endpoints.len()
            &&& devices[device as int].endpoints[endpoint as int].address == (msg.data0 / 256) % 256
        },
{
    let c = msg.control;
    assert(c & 0x3fu32 == c % 64) by (bit_vector);
    let d0 = msg.data0;
    assert((d0 & 0xffu32) as u8 == d0 % 256 && ((d0 & 0xff00u32) >> 8u32) as u8 == (d0 / 256) % 256)
        by (bit_vector);
    let da = command_device_address(msg.data0);
    let ea = command_endpoint_address(msg.data0);
    lemma_find_u8_from_finds_first(device_addresses(devices), da, 0);
    if let Ok((i, k)) = spec_endpoint_target(devices, da, ea) {
        assert(spec_find_device(devices, da) == Ok::<int, ControllerFailure>(i));
        assert(device_addresses(devices)[i] == devices[i].address);
        let eps = endpoint_addresses(devices[i].endpoints);
        lemma_find_u8_from_finds_first(eps, ea, 0);
        assert(find_u8_from(eps, ea, 0) == Ok::<int, ControllerFailure>(k));
        assert(eps[k] == devices[i].endpoints[k].address);
        assert(devices[i].endpoints.len() < usize::MAX);
        assert forall|j: int| 0 <= j < i implies (#[trigger] devices[j]).address != msg.data0 % 256 by {
            assert(device_addresses(devices)[j] == devices[j].address);
        }
    }
}

/// A doorbell names the device address in its low byte, the endpoint address
/// in its next byte, and the stream id in its upper 16 bits; it is refused
/// exactly when the stream id does not fit in a byte.
pub proof fn lemma_doorbell_fields(db: u32)
    ensures
        (doorbell_stream_field(db) > 255) <==> db / 0x1_0000 > 255,
        doorbell_stream_field(db) == db / 0x1_0000,
        (db & DOORBELL_DEVICE_ADDRESS) as u8 == db % 256,
        ((db & DOORBELL_ENDPOINT_ADDRESS) >> DOORBELL_ENDPOINT_ADDRESS_PHASE) as u8 == (db / 256) % 256,
{
    assert((db & 0xffff_0000u32) >> 16u32 == db / 0x1_0000) by (bit_vector);
    assert((db & 0xffu32) as u8 == db % 256 && ((db & 0xff00u32) >> 8u32) as u8 == (db / 256) % 256)
        by (bit_vector);
}

/// What the controller does after a doorbell, by the type (the low six bits of
/// the control word) of the endpoint's current message: a setup transfer (56)
/// starts a control transfer with the setup packet in data1, unless it needs
/// no response; a valid normal transfer (57) that needs a response starts the
/// endpoint's normal transfers, and any other normal transfer is refused; a
/// link (60) that is not valid and needs a response is completed, a valid one
/// ends the batch, and one that needs no response is passed over; any other
/// type is refused as unexpected.
pub proof fn lemma_doorbell_action_by_type(msg: CiMessage)
    ensures
        ({
            let t = msg.control % 64;
            let valid = msg.control & 0x8000 != 0;
            let no_resp = msg.control & 0x4000 != 0;
            let a = spec_doorbell_action(msg);
            &&& t == 56 && no_resp ==> a == DoorbellAction::Return
            &&& t == 56 && !no_resp ==> a == DoorbellAction::StartSetup(spec_decode_setup(msg.data1))
            &&& t == 57 ==> (a == DoorbellAction::ProcessNormal <==> (valid && !no_resp))
            &&& t == 57 && !(valid && !no_resp) ==> a is Fail
            &&& t == 60 && valid ==> a == DoorbellAction::Return
            &&& t == 60 && !valid && !no_resp ==> a == DoorbellAction::CompleteLink
            &&& t == 60 && !valid && no_resp ==> a == DoorbellAction::Continue
            &&& !(t == 56 || t == 57 || t == 60) ==> a == DoorbellAction::Fail(
                ControllerFailure::UnexpectedMessage(t as u32),
            )
        }),
{
    let c = msg.control;
    assert(c & 0x3fu32 == c % 64) by (bit_vector);
}

} // verus!
