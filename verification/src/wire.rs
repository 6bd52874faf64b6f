//! The wire-format shapes exchanged with the backend and with peer hubs,
//! and the validating conversions between them and the in-memory device
//! model.
//!
//! The codec itself (serializing these shapes to bytes and back) is owned by
//! the host side of the [`crate::system::Ffi`] boundary; the core works on
//! the decoded shapes.  Names travel as UTF-8 text on the wire and are kept
//! here as their bytes.

use vstd::prelude::*;

use crate::address::{
    addr_bytes_of, addr_to_u64, addr_val, lemma_addr_bytes_of_val, lemma_addr_val_48,
    u64_to_addr_bytes,
};
use crate::constants::MAX_BLE_SIZE_IN_BYTES;
use crate::device::{clone_bytes, Device, DeviceInfo, DeviceInfoView, DeviceView};

verus! {

/// Whether `b` is a UTF-8 continuation byte.
pub open spec fn is_continuation(b: u8) -> bool {
    0x80 <= b < 0xC0
}

/// Whether `s[i..]` is well-formed UTF-8.
pub open spec fn utf8_valid_from(s: Seq<u8>, i: int) -> bool
    decreases s.len() - i,
{
    if i >= s.len() {
        true
    } else {
        let b0 = s[i];
        if b0 < 0x80 {
            utf8_valid_from(s, i + 1)
        } else if 0xC2 <= b0 <= 0xDF {
            i + 1 < s.len() && is_continuation(s[i + 1]) && utf8_valid_from(s, i + 2)
        } else if b0 == 0xE0 {
            i + 2 < s.len() && 0xA0 <= s[i + 1] < 0xC0 && is_continuation(s[i + 2])
                && utf8_valid_from(s, i + 3)
        } else if (0xE1 <= b0 <= 0xEC) || b0 == 0xEE || b0 == 0xEF {
            i + 2 < s.len() && is_continuation(s[i + 1]) && is_continuation(s[i + 2])
                && utf8_valid_from(s, i + 3)
        } else if b0 == 0xED {
            i + 2 < s.len() && 0x80 <= s[i + 1] < 0xA0 && is_continuation(s[i + 2])
                && utf8_valid_from(s, i + 3)
        } else if b0 == 0xF0 {
            i + 3 < s.len() && 0x90 <= s[i + 1] < 0xC0 && is_continuation(s[i + 2])
                && is_continuation(s[i + 3]) && utf8_valid_from(s, i + 4)
        } else if 0xF1 <= b0 <= 0xF3 {
            i + 3 < s.len() && is_continuation(s[i + 1]) && is_continuation(s[i + 2])
                && is_continuation(s[i + 3]) && utf8_valid_from(s, i + 4)
        } else if b0 == 0xF4 {
            i + 3 < s.len() && 0x80 <= s[i + 1] < 0x90 && is_continuation(s[i + 2])
                && is_continuation(s[i + 3]) && utf8_valid_from(s, i + 4)
        } else {
            false
        }
    }
}

/// Whether a byte string is well-formed UTF-8.
pub open spec fn utf8_valid(s: Seq<u8>) -> bool {
    utf8_valid_from(s, 0)
}

/// Checks that a byte string is well-formed UTF-8 text.
pub fn is_valid_utf8(s: &Vec<u8>) -> (r: bool)
    ensures
        r == utf8_valid(s@),
{
    let n = s.len();
    let mut i: usize = 0;
    while i < n
        invariant
            n == s@.len(),
            0 <= i <= n,
            utf8_valid(s@) == utf8_valid_from(s@, i as int),
        decreases n - i,
    {
        let b0 = s[i];
        if b0 < 0x80 {
            i = i + 1;
        } else if 0xC2 <= b0 && b0 <= 0xDF {
            if !(i + 1 < n && 0x80 <= s[i + 1] && s[i + 1] < 0xC0) {
                return false;
            }
            i = i + 2;
        } else if b0 == 0xE0 {
            if !(n - i > 2 && 0xA0 <= s[i + 1] && s[i + 1] < 0xC0 && 0x80 <= s[i + 2] && s[i + 2]
                < 0xC0) {
                return false;
            }
            i = i + 3;
        } else if (0xE1 <= b0 && b0 <= 0xEC) || b0 == 0xEE || b0 == 0xEF {
            if !(n - i > 2 && 0x80 <= s[i + 1] && s[i + 1] < 0xC0 && 0x80 <= s[i + 2] && s[i + 2]
                < 0xC0) {
                return false;
            }
            i = i + 3;
        } else if b0 == 0xED {
            if !(n - i > 2 && 0x80 <= s[i + 1] && s[i + 1] < 0xA0 && 0x80 <= s[i + 2] && s[i + 2]
                < 0xC0) {
                return false;
            }
            i = i + 3;
        } else if b0 == 0xF0 {
            if !(n - i > 3 && 0x90 <= s[i + 1] && s[i + 1] < 0xC0 && 0x80 <= s[i + 2] && s[i + 2]
                < 0xC0 && 0x80 <= s[i + 3] && s[i + 3] < 0xC0) {
                return false;
            }
            i = i + 4;
        } else if 0xF1 <= b0 && b0 <= 0xF3 {
            if !(n - i > 3 && 0x80 <= s[i + 1] && s[i + 1] < 0xC0 && 0x80 <= s[i + 2] && s[i + 2]
                < 0xC0 && 0x80 <= s[i + 3] && s[i + 3] < 0xC0) {
                return false;
            }
            i = i + 4;
        } else if b0 == 0xF4 {
            if !(n - i > 3 && 0x80 <= s[i + 1] && s[i + 1] < 0x90 && 0x80 <= s[i + 2] && s[i + 2]
                < 0xC0 && 0x80 <= s[i + 3] && s[i + 3] < 0xC0) {
                return false;
            }
            i = i + 4;
        } else {
            return false;
        }
    }
    true
}

/// Mathematical model of a [`WireDeviceInfo`].
pub struct WireDeviceInfoView {
    pub address: int,
    pub name: Seq<u8>,
    pub device_type: int,
}

/// One device entry as it travels on the wire: the address packed into a
/// little-endian signed 64-bit integer whose two highest bytes must be
/// zero, the UTF-8 name, and a small kind code.
#[derive(Debug, PartialEq, Eq)]
pub struct WireDeviceInfo {
    pub address: i64,
    pub name: Vec<u8>,
    pub device_type: i32,
}

impl View for WireDeviceInfo {
    type V = WireDeviceInfoView;

    open spec fn view(&self) -> WireDeviceInfoView {
        WireDeviceInfoView {
            address: self.address as int,
            name: self.name@,
            device_type: self.device_type as int,
        }
    }
}

/// Why a wire device entry could not be converted to a [`Device`].
#[derive(Clone, Copy, Debug, PartialEq, Eq, Structural)]
pub enum ProtobufDeviceInfoToDeviceError {
    /// Bytes 6 and 7 of the packed address were not zero.
    LastAddressBytesAreNotNull,
    /// The name does not fit in [`MAX_BLE_SIZE_IN_BYTES`] bytes.
    NameTooLong,
    /// The device kind code is outside the recognized set; carries the
    /// offending code.
    WrongDeviceInfo(i32),
}

/// The outcome of converting one wire device entry, as a function of its
/// model: the address padding is checked first, then the name length, then
/// the kind code.
pub open spec fn wire_to_device_spec(w: WireDeviceInfoView) -> Result<
    DeviceView,
    ProtobufDeviceInfoToDeviceError,
> {
    if !(0 <= w.address < 0x1000000000000) {
        Err(ProtobufDeviceInfoToDeviceError::LastAddressBytesAreNotNull)
    } else if w.name.len() > MAX_BLE_SIZE_IN_BYTES {
        Err(ProtobufDeviceInfoToDeviceError::NameTooLong)
    } else {
        let device_info = DeviceInfoView { address: addr_bytes_of(w.address), name: w.name };
        if w.device_type == 0 {
            Ok(DeviceView::Unknown)
        } else if w.device_type == 1 {
            Ok(
                DeviceView::TI {
                    device_info,
                    humidity_sensor_data: None,
                    temperature_sensor_data: None,
                },
            )
        } else if w.device_type == 2 {
            Ok(
                DeviceView::Nordic {
                    device_info,
                    humidity_sensor_data: None,
                    temperature_sensor_data: None,
                },
            )
        } else if w.device_type == 3 {
            Ok(
                DeviceView::Pico {
                    device_info,
                    dht11_humidity_sensor_data: None,
                    dht22_humidity_sensor_data: None,
                    dht11_temperature_sensor_data: None,
                    dht22_temperature_sensor_data: None,
                    pico_temperature_sensor_data: None,
                },
            )
        } else if w.device_type == 4 {
            Ok(DeviceView::Hub { device_info })
        } else {
            Err(ProtobufDeviceInfoToDeviceError::WrongDeviceInfo(w.device_type as i32))
        }
    }
}

impl Device {
    /// Converts one wire device entry, validating the address padding, the
    /// name length and the kind code.
    pub fn try_from_wire(value: &WireDeviceInfo) -> (r: Result<
        Device,
        ProtobufDeviceInfoToDeviceError,
    >)
        ensures
            r is Ok <==> wire_to_device_spec(value@) is Ok,
            r is Ok ==> r->Ok_0@ == wire_to_device_spec(value@)->Ok_0,
            r is Err ==> r->Err_0 == wire_to_device_spec(value@)->Err_0,
    {
        if value.address < 0 || value.address >= 0x1000000000000i64 {
            return Err(ProtobufDeviceInfoToDeviceError::LastAddressBytesAreNotNull);
        }
        if value.name.len() > MAX_BLE_SIZE_IN_BYTES {
            return Err(ProtobufDeviceInfoToDeviceError::NameTooLong);
        }
        let address = u64_to_addr_bytes(value.address as u64);
        let name = clone_bytes(&value.name);
        let device_info = DeviceInfo { address, name };
        match value.device_type {
            0 => Ok(Device::Unknown),
            1 => Ok(
                Device::TI {
                    device_info,
                    humidity_sensor_data: None,
                    temperature_sensor_data: None,
                },
            ),
            2 => Ok(
                Device::Nordic {
                    device_info,
                    humidity_sensor_data: None,
                    temperature_sensor_data: None,
                },
            ),
            3 => Ok(
                Device::Pico {
                    device_info,
                    dht11_humidity_sensor_data: None,
                    dht22_humidity_sensor_data: None,
                    dht11_temperature_sensor_data: None,
                    dht22_temperature_sensor_data: None,
                    pico_temperature_sensor_data: None,
                },
            ),
            4 => Ok(Device::Hub { device_info }),
            val => Err(ProtobufDeviceInfoToDeviceError::WrongDeviceInfo(val)),
        }
    }
}

/// The 8-byte address value reinterpreted as a signed 64-bit integer, as
/// packing it little-endian into the wire's signed field does.
pub open spec fn i64_of_addr_val(v: int) -> int {
    if v < 0x8000000000000000 {
        v
    } else {
        v - 0x10000000000000000
    }
}

/// Reinterprets a 64-bit address value as the wire's signed address field.
fn addr_value_to_i64(v: u64) -> (r: i64)
    ensures
        r as int == i64_of_addr_val(v as int),
{
    if v <= 0x7fffffffffffffff {
        v as i64
    } else {
        ((v - 0x8000000000000000) as i64) + i64::MIN
    }
}

impl DeviceInfo {
    /// Converts a device identity to its wire form, as the discovery session
    /// reports it: kind code 0, name required to be valid UTF-8 text.
    /// Returns `None` when the name is not UTF-8; callers treat that as a
    /// soft failure and report a name-encoding error.
    pub fn to_wire(&self) -> (r: Option<WireDeviceInfo>)
        ensures
            r is Some <==> utf8_valid(self@.name),
            r is Some ==> r->0@ == (WireDeviceInfoView {
                address: i64_of_addr_val(addr_val(self@.address)),
                name: self@.name,
                device_type: 0,
            }),
    {
        if !is_valid_utf8(&self.name) {
            return None;
        }
        let address = addr_value_to_i64(addr_to_u64(&self.address));
        Some(WireDeviceInfo { address, name: clone_bytes(&self.name), device_type: 0 })
    }
}

/// The wire form of a non-`Unknown` device, kind code included.
pub open spec fn device_to_wire_spec(d: DeviceView) -> WireDeviceInfoView {
    WireDeviceInfoView {
        address: i64_of_addr_val(addr_val(d.info().address)),
        name: d.info().name,
        device_type: d.kind_code(),
    }
}

/// Converts a device to its wire form for the peer relay, mapping the kind
/// to its wire code.  An `Unknown` device has no wire form and yields
/// `None`; the relay never reaches one.
pub fn device_to_wire(device: &Device) -> (r: Option<WireDeviceInfo>)
    ensures
        r is Some <==> !device@.is_unknown(),
        r is Some ==> r->0@ == device_to_wire_spec(device@),
{
    let (device_info, code): (&DeviceInfo, i32) = match device {
        Device::Unknown => {
            return None;
        },
        Device::TI { device_info, .. } => (device_info, 1),
        Device::Nordic { device_info, .. } => (device_info, 2),
        Device::Pico { device_info, .. } => (device_info, 3),
        Device::Hub { device_info } => (device_info, 4),
    };
    let address = addr_value_to_i64(addr_to_u64(&device_info.address));
    Some(WireDeviceInfo { address, name: clone_bytes(&device_info.name), device_type: code })
}

/// The address invariant: a converted device always carries zero in bytes
/// 6 and 7 of its address, and a wire entry whose packed address does not
/// fit 48 bits is rejected.
pub proof fn lemma_address_padding_invariant(w: WireDeviceInfoView)
    ensures
        !(0 <= w.address < 0x1000000000000) ==> wire_to_device_spec(w) == Result::<
            DeviceView,
            ProtobufDeviceInfoToDeviceError,
        >::Err(ProtobufDeviceInfoToDeviceError::LastAddressBytesAreNotNull),
        wire_to_device_spec(w) matches Ok(d) ==> d.is_unknown() || (d.info().address[6] == 0
            && d.info().address[7] == 0),
{
}

/// Round trip: converting a device to its wire form and back yields a
/// device with the same address, the same name and the same kind (sensor
/// readings are not carried on the wire and come back empty).
pub proof fn lemma_wire_round_trip(d: DeviceView)
    requires
        !d.is_unknown(),
        d.info().address.len() == 8,
        d.info().address[6] == 0,
        d.info().address[7] == 0,
        d.info().name.len() <= MAX_BLE_SIZE_IN_BYTES,
    ensures
        wire_to_device_spec(device_to_wire_spec(d)) matches Ok(back) && back.eq_by_address(d)
            && back.info().name == d.info().name && back.kind_code() == d.kind_code(),
{
    let addr = d.info().address;
    lemma_addr_val_48(addr);
    lemma_addr_bytes_of_val(addr);
}

/// A liveness ping, sent to the backend every heartbeat period.
#[derive(Clone, Copy, Debug, PartialEq, Eq, Structural)]
pub struct Ping {}

impl Default for Ping {
    /// The (only) ping value.
    fn default() -> (r: Self)
        ensures
            r == (Ping {  }),
    {
        Ping {  }
    }
}

/// A backend command asking the hub to start a discovery session.
#[derive(Clone, Copy, Debug, PartialEq, Eq, Structural)]
pub struct GetDevicesList {}

impl Default for GetDevicesList {
    /// The (only) value of the command.
    fn default() -> (r: Self)
        ensures
            r == (GetDevicesList {  }),
    {
        GetDevicesList {  }
    }
}

/// A backend command asking the hub to stop discovering.
#[derive(Clone, Copy, Debug, PartialEq, Eq, Structural)]
pub struct StopGetDevicesList {}

impl Default for StopGetDevicesList {
    /// The (only) value of the command.
    fn default() -> (r: Self)
        ensures
            r == (StopGetDevicesList {  }),
    {
        StopGetDevicesList {  }
    }
}

/// A list of wire device entries.
#[derive(Debug, PartialEq, Eq)]
pub struct DevicesList {
    pub devices: Vec<WireDeviceInfo>,
}

impl View for DevicesList {
    type V = Seq<WireDeviceInfoView>;

    open spec fn view(&self) -> Seq<WireDeviceInfoView> {
        self.devices@.map_values(|w: WireDeviceInfo| w@)
    }
}

/// The payload of a packet sent to the backend.
#[derive(Debug, PartialEq, Eq)]
pub enum FirmwareToBackendType {
    /// A liveness ping.
    Ping(Ping),
    /// One newly found device.
    DeviceInfo(WireDeviceInfo),
}

/// A packet sent to the backend over the transport.
#[derive(Debug, PartialEq, Eq)]
pub struct FirmwareToBackendPacket {
    pub packet_type: Option<FirmwareToBackendType>,
}

/// The payload of a peer-to-peer relay packet.
#[derive(Debug, PartialEq, Eq)]
pub enum FirmwareToFirmwareType {
    /// The consolidated device list.
    DevicesList(DevicesList),
}

/// A peer-to-peer relay packet: the last registry update time as seconds
/// since the epoch, and the consolidated device list.
#[derive(Debug, PartialEq, Eq)]
pub struct FirmwareToFirmwarePacket {
    pub timestamp: i64,
    pub packet_type: Option<FirmwareToFirmwareType>,
}

/// The payload of a backend command packet.
#[derive(Debug, PartialEq, Eq)]
pub enum BackendToFirmwareType {
    /// Replace the registry contents with this list.
    Devices(DevicesList),
    /// Stop discovering.
    StopGetDevicesList(StopGetDevicesList),
    /// Start discovering.
    GetDevicesList(GetDevicesList),
}

/// A command packet received from the backend.  An absent payload is a
/// no-op.
#[derive(Debug, PartialEq, Eq)]
pub struct BackendToFirmwarePacket {
    pub timestamp: i64,
    pub packet_type: Option<BackendToFirmwareType>,
}

} // verus!
