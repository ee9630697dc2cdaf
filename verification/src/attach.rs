//! Choosing the device to attach among those a server lists.
use vstd::prelude::*;
use vstd::utf8::encode_utf8;
use crate::usbip::{Device, DeviceModel};

verus! {

/// How the user names the device to attach: by bus id, by device number,
/// or by vendor and product id, in that order of precedence.
#[derive(Debug)]
pub struct AttachConfig {
    pub busid: Option<String>,
    pub device: Option<u32>,
    pub vendor_id: Option<u16>,
    pub product_id: Option<u16>,
}

/// Whether `name` is the bus id held in the NUL-padded field `field`: the
/// bytes of `field` before its first 0 byte, or all of them when it has none.
pub open spec fn names_busid(field: Seq<u8>, name: Seq<u8>) -> bool {
    &&& name.len() <= field.len()
    &&& forall|i: int| 0 <= i < name.len() ==> #[trigger] name[i] != 0 && field[i] == name[i]
    &&& (name.len() == field.len() || field[name.len() as int] == 0)
}

/// Whether `d` is the device that `config` names. A bus id matches when its
/// UTF-8 bytes are the device's bus id, that is its bus-id bytes up to the
/// first 0 byte; without a bus id a device number matches the device number;
/// without either, a vendor id and a product id must both be given and both
/// match. A config that names nothing matches no device.
pub open spec fn device_matches(d: DeviceModel, config: AttachConfig) -> bool {
    match config.busid {
        Some(busid) => names_busid(d.busid, encode_utf8(busid@)),
        None => match config.device {
            Some(devnum) => d.devnum == devnum,
            None => match (config.vendor_id, config.product_id) {
                (Some(vendor_id), Some(product_id)) => d.id_vendor == vendor_id && d.id_product
                    == product_id,
                _ => false,
            },
        },
    }
}

/// Whether `name` is the bus id held in the NUL-padded field `field`.
pub fn busid_equals(field: &[u8], name: &[u8]) -> (r: bool)
    ensures
        r == names_busid(field@, name@),
{
    if name.len() > field.len() {
        return false;
    }
    let n = name.len();
    let mut i: usize = 0;
    while i < n
        invariant
            n == name@.len(),
            n <= field@.len(),
            i <= n,
            forall|j: int| 0 <= j < i ==> #[trigger] name@[j] != 0 && field@[j] == name@[j],
        decreases n - i,
    {
        if name[i] == 0 || field[i] != name[i] {
            return false;
        }
        i = i + 1;
    }
    n == field.len() || field[n] == 0
}

/// Whether `d` is the device that `config` names.
pub fn matches_config(d: &Device, config: &AttachConfig) -> (r: bool)
    ensures
        r == device_matches(d@, *config),
{
    if let Some(busid) = &config.busid {
        busid_equals(d.get_busid().as_slice(), busid.as_str().as_bytes())
    } else if let Some(device) = &config.device {
        d.get_devnum() == *device
    } else if let (Some(vendor_id), Some(product_id)) = (config.vendor_id, config.product_id) {
        d.get_id_vendor() == vendor_id && d.get_id_product() == product_id
    } else {
        false
    }
}

/// The first device in `devices` that `config` names, if any.
pub fn find_target_device<'a>(devices: &'a [Device], config: &AttachConfig) -> (r: Option<
    &'a Device,
>)
    ensures
        r is None <==> forall|i: int|
            0 <= i < devices@.len() ==> !device_matches(#[trigger] devices@[i]@, *config),
        r matches Some(d) ==> exists|i: int|
            {
                &&& 0 <= i < devices@.len()
                &&& *d == devices@[i]
                &&& device_matches(devices@[i]@, *config)
                &&& forall|j: int|
                    0 <= j < i ==> !device_matches(#[trigger] devices@[j]@, *config)
            },
{
    let n = devices.len();
    let mut i: usize = 0;
    while i < n
        invariant
            n == devices@.len(),
            i <= n,
            forall|j: int| 0 <= j < i ==> !device_matches(#[trigger] devices@[j]@, *config),
        decreases n - i,
    {
        if matches_config(&devices[i], config) {
            return Some(&devices[i]);
        }
        i = i + 1;
    }
    None
}

/// The bus id held in a NUL-padded field is one name only: when the first `k`
/// bytes of `field` are not 0 and the byte after them is 0 (or there is none),
/// the names that match the field are exactly its first `k` bytes.
pub proof fn lemma_busid_is_bytes_before_nul(field: Seq<u8>, k: int, name: Seq<u8>)
    requires
        0 <= k <= field.len(),
        forall|i: int| 0 <= i < k ==> field[i] != 0,
        k == field.len() || field[k] == 0,
    ensures
        names_busid(field, name) <==> name == field.take(k),
{
    if names_busid(field, name) {
        let m = name.len() as int;
        if m < k {
            assert(field[m] != 0);
        } else if m > k {
            assert(name[k] != 0);
        }
        assert(name =~= field.take(k));
    }
    if name == field.take(k) {
        assert forall|i: int| 0 <= i < name.len() implies #[trigger] name[i] != 0 && field[i]
            == name[i] by {
            assert(field[i] != 0);
        }
    }
}

/// Which field a config selects by: a bus id, when given, decides alone; else
/// a device number, when given, decides alone and matches exactly the devices
/// with that device number; else a device matches exactly when both a vendor
/// id and a product id are given and the device's vendor id equals the one
/// asked for and its product id equals the one asked for.
pub proof fn lemma_config_selects_by(d: DeviceModel, config: AttachConfig)
    ensures
        config.busid matches Some(busid) ==> (device_matches(d, config) <==> names_busid(
            d.busid,
            encode_utf8(busid@),
        )),
        config.busid is None ==> (config.device matches Some(devnum) ==> (device_matches(
            d,
            config,
        ) <==> d.devnum == devnum)),
        config.busid is None && config.device is None ==> (device_matches(d, config) <==> (
        config.vendor_id == Some(d.id_vendor) && config.product_id == Some(d.id_product))),
{
}

} // verus!
