//! The in-memory device model: addresses, names, sensor readings, and the
//! tagged union of device kinds.
//!
//! A device's identity is its radio hardware address: equality is defined by
//! address only, since names and sensor readings may be stale or differ
//! across reports.

use vstd::prelude::*;

use crate::time::Time;

verus! {

/// One timestamped sensor reading; only the latest value per slot is kept.
///
/// The reading itself is an IEEE-754 single-precision value carried as its
/// raw bit pattern, so that the core never computes on it.
#[derive(Clone, Copy, PartialEq, Eq, Structural, Debug)]
pub struct SensorData {
    pub time_obtained: Time,
    pub value_bits: u32,
}

/// Mathematical model of a [`DeviceInfo`].
pub struct DeviceInfoView {
    pub address: Seq<u8>,
    pub name: Seq<u8>,
}

/// The identity of a device: its address and its human-readable name.
///
/// The address is always 6 bytes long, but for convenience it is kept as 8
/// bytes with the two highest set to zero; every wire-boundary conversion
/// enforces that padding.  The name is bounded at
/// [`crate::constants::MAX_BLE_SIZE_IN_BYTES`] bytes by the same
/// conversions.
#[derive(Debug)]
pub struct DeviceInfo {
    pub address: [u8; 8],
    pub name: Vec<u8>,
}

impl View for DeviceInfo {
    type V = DeviceInfoView;

    open spec fn view(&self) -> DeviceInfoView {
        DeviceInfoView { address: self.address@, name: self.name@ }
    }
}

impl DeviceInfo {
    /// A new identity from an address and a name.
    pub fn new(address: [u8; 8], name: Vec<u8>) -> (r: DeviceInfo)
        ensures
            r@.address == address@,
            r@.name == name@,
    {
        DeviceInfo { address, name }
    }
}

/// Copies a byte vector.
pub fn clone_bytes(v: &Vec<u8>) -> (r: Vec<u8>)
    ensures
        r@ == v@,
{
    let mut r: Vec<u8> = Vec::new();
    let mut i: usize = 0;
    while i < v.len()
        invariant
            i <= v@.len(),
            r@ == v@.take(i as int),
        decreases v@.len() - i,
    {
        r.push(v[i]);
        proof {
            assert(v@.take(i as int).push(v@[i as int]) =~= v@.take(i as int + 1));
        }
        i += 1;
    }
    proof {
        assert(v@.take(v@.len() as int) =~= v@);
    }
    r
}

/// Compares two 8-byte addresses.
pub fn bytes8_eq(a: &[u8; 8], b: &[u8; 8]) -> (r: bool)
    ensures
        r == (a@ == b@),
{
    let r = a[0] == b[0] && a[1] == b[1] && a[2] == b[2] && a[3] == b[3] && a[4] == b[4] && a[5]
        == b[5] && a[6] == b[6] && a[7] == b[7];
    proof {
        if r {
            assert(a@ =~= b@);
        }
    }
    r
}

impl Clone for DeviceInfo {
    /// Copies the identity, address and name alike.
    fn clone(&self) -> (r: Self)
        ensures
            r@ == self@,
    {
        DeviceInfo { address: self.address, name: clone_bytes(&self.name) }
    }
}

impl PartialEq for DeviceInfo {
    /// Identity comparison: by address only.
    fn eq(&self, other: &Self) -> (r: bool) {
        bytes8_eq(&self.address, &other.address)
    }
}

impl vstd::std_specs::cmp::PartialEqSpecImpl for DeviceInfo {
    open spec fn obeys_eq_spec() -> bool {
        true
    }

    open spec fn eq_spec(&self, other: &Self) -> bool {
        self@.address == other@.address
    }
}

/// Mathematical model of a [`Device`].
pub enum DeviceView {
    Unknown,
    TI {
        device_info: DeviceInfoView,
        humidity_sensor_data: Option<SensorData>,
        temperature_sensor_data: Option<SensorData>,
    },
    Nordic {
        device_info: DeviceInfoView,
        humidity_sensor_data: Option<SensorData>,
        temperature_sensor_data: Option<SensorData>,
    },
    Pico {
        device_info: DeviceInfoView,
        dht11_humidity_sensor_data: Option<SensorData>,
        dht22_humidity_sensor_data: Option<SensorData>,
        dht11_temperature_sensor_data: Option<SensorData>,
        dht22_temperature_sensor_data: Option<SensorData>,
        pico_temperature_sensor_data: Option<SensorData>,
    },
    Hub { device_info: DeviceInfoView },
}

/// A remote device, tagged by kind.
///
/// A device can carry one sensor reading slot per sensor its kind supports.
/// `Unknown` is a placeholder kind that must never reach connection logic.
#[derive(Debug)]
pub enum Device {
    /// An unknown device kind; reported on the wire as kind code 0.
    Unknown,
    /// A TI tag; reported on the wire as kind code 1.
    TI {
        device_info: DeviceInfo,
        humidity_sensor_data: Option<SensorData>,
        temperature_sensor_data: Option<SensorData>,
    },
    /// A Nordic tag; reported on the wire as kind code 2.
    Nordic {
        device_info: DeviceInfo,
        humidity_sensor_data: Option<SensorData>,
        temperature_sensor_data: Option<SensorData>,
    },
    /// A custom sensor module; reported on the wire as kind code 3.
    Pico {
        device_info: DeviceInfo,
        dht11_humidity_sensor_data: Option<SensorData>,
        dht22_humidity_sensor_data: Option<SensorData>,
        dht11_temperature_sensor_data: Option<SensorData>,
        dht22_temperature_sensor_data: Option<SensorData>,
        pico_temperature_sensor_data: Option<SensorData>,
    },
    /// Another hub; reported on the wire as kind code 4.
    Hub { device_info: DeviceInfo },
}

impl View for Device {
    type V = DeviceView;

    open spec fn view(&self) -> DeviceView {
        match self {
            Device::Unknown => DeviceView::Unknown,
            Device::TI { device_info, humidity_sensor_data, temperature_sensor_data } =>
                DeviceView::TI {
                    device_info: device_info@,
                    humidity_sensor_data: *humidity_sensor_data,
                    temperature_sensor_data: *temperature_sensor_data,
                },
            Device::Nordic { device_info, humidity_sensor_data, temperature_sensor_data } =>
                DeviceView::Nordic {
                    device_info: device_info@,
                    humidity_sensor_data: *humidity_sensor_data,
                    temperature_sensor_data: *temperature_sensor_data,
                },
            Device::Pico {
                device_info,
                dht11_humidity_sensor_data,
                dht22_humidity_sensor_data,
                dht11_temperature_sensor_data,
                dht22_temperature_sensor_data,
                pico_temperature_sensor_data,
            } => DeviceView::Pico {
                device_info: device_info@,
                dht11_humidity_sensor_data: *dht11_humidity_sensor_data,
                dht22_humidity_sensor_data: *dht22_humidity_sensor_data,
                dht11_temperature_sensor_data: *dht11_temperature_sensor_data,
                dht22_temperature_sensor_data: *dht22_temperature_sensor_data,
                pico_temperature_sensor_data: *pico_temperature_sensor_data,
            },
            Device::Hub { device_info } => DeviceView::Hub { device_info: device_info@ },
        }
    }
}

impl DeviceView {
    /// Whether this is the `Unknown` placeholder kind.
    pub open spec fn is_unknown(self) -> bool {
        self is Unknown
    }

    /// The identity of a non-`Unknown` device.
    pub open spec fn info(self) -> DeviceInfoView {
        match self {
            DeviceView::Unknown => arbitrary(),
            DeviceView::TI { device_info, .. } => device_info,
            DeviceView::Nordic { device_info, .. } => device_info,
            DeviceView::Pico { device_info, .. } => device_info,
            DeviceView::Hub { device_info } => device_info,
        }
    }

    /// The wire kind code of this device's kind.
    pub open spec fn kind_code(self) -> int {
        match self {
            DeviceView::Unknown => 0,
            DeviceView::TI { .. } => 1,
            DeviceView::Nordic { .. } => 2,
            DeviceView::Pico { .. } => 3,
            DeviceView::Hub { .. } => 4,
        }
    }

    /// Equality of devices: by address only.  `Unknown` devices carry no
    /// address and are equal only to each other.
    pub open spec fn eq_by_address(self, other: DeviceView) -> bool {
        if self is Unknown || other is Unknown {
            self is Unknown && other is Unknown
        } else {
            self.info().address == other.info().address
        }
    }
}

impl Device {
    /// The identity of this device, or `None` for the `Unknown` kind.
    pub fn device_info(&self) -> (r: Option<&DeviceInfo>)
        ensures
            r is Some <==> !self@.is_unknown(),
            r is Some ==> r->0@ == self@.info(),
    {
        match self {
            Device::Unknown => None,
            Device::TI { device_info, .. } => Some(device_info),
            Device::Nordic { device_info, .. } => Some(device_info),
            Device::Pico { device_info, .. } => Some(device_info),
            Device::Hub { device_info } => Some(device_info),
        }
    }
}

impl Clone for Device {
    /// Copies the device, identity and sensor slots alike.
    fn clone(&self) -> (r: Self)
        ensures
            r@ == self@,
    {
        match self {
            Device::Unknown => Device::Unknown,
            Device::TI { device_info, humidity_sensor_data, temperature_sensor_data } =>
                Device::TI {
                    device_info: device_info.clone(),
                    humidity_sensor_data: *humidity_sensor_data,
                    temperature_sensor_data: *temperature_sensor_data,
                },
            Device::Nordic { device_info, humidity_sensor_data, temperature_sensor_data } =>
                Device::Nordic {
                    device_info: device_info.clone(),
                    humidity_sensor_data: *humidity_sensor_data,
                    temperature_sensor_data: *temperature_sensor_data,
                },
            Device::Pico {
                device_info,
                dht11_humidity_sensor_data,
                dht22_humidity_sensor_data,
                dht11_temperature_sensor_data,
                dht22_temperature_sensor_data,
                pico_temperature_sensor_data,
            } => Device::Pico {
                device_info: device_info.clone(),
                dht11_humidity_sensor_data: *dht11_humidity_sensor_data,
                dht22_humidity_sensor_data: *dht22_humidity_sensor_data,
                dht11_temperature_sensor_data: *dht11_temperature_sensor_data,
                dht22_temperature_sensor_data: *dht22_temperature_sensor_data,
                pico_temperature_sensor_data: *pico_temperature_sensor_data,
            },
            Device::Hub { device_info } => Device::Hub { device_info: device_info.clone() },
        }
    }
}

impl PartialEq for Device {
    /// Device equality: by address only; `Unknown` equals only `Unknown`.
    fn eq(&self, other: &Self) -> (r: bool) {
        match (self.device_info(), other.device_info()) {
            (Some(a), Some(b)) => bytes8_eq(&a.address, &b.address),
            (None, None) => true,
            _ => false,
        }
    }
}

impl vstd::std_specs::cmp::PartialEqSpecImpl for Device {
    open spec fn obeys_eq_spec() -> bool {
        true
    }

    open spec fn eq_spec(&self, other: &Self) -> bool {
        self@.eq_by_address(other@)
    }
}

/// The views of a sequence of devices.
pub open spec fn device_views(s: Seq<Device>) -> Seq<DeviceView> {
    s.map_values(|d: Device| d@)
}

/// Whether a device equal by address to `d` occurs in `devs`.
pub open spec fn contains_by_address(devs: Seq<DeviceView>, d: DeviceView) -> bool {
    exists|i: int| 0 <= i < devs.len() && devs[i].eq_by_address(d)
}

/// Looks for a device equal by address to `device`.
pub fn contains_device(v: &Vec<Device>, device: &Device) -> (r: bool)
    ensures
        r == contains_by_address(device_views(v@), device@),
{
    let ghost dv = device_views(v@);
    let mut i: usize = 0;
    while i < v.len()
        invariant
            i <= v@.len(),
            dv == device_views(v@),
            forall|k: int| 0 <= k < i ==> !dv[k].eq_by_address(device@),
        decreases v@.len() - i,
    {
        if v[i] == *device {
            proof {
                assert(dv[i as int] == v@[i as int]@);
                assert(dv[i as int].eq_by_address(device@));
            }
            return true;
        }
        proof {
            assert(dv[i as int] == v@[i as int]@);
        }
        i += 1;
    }
    false
}

/// Copies a sequence of devices.
pub fn clone_devices(v: &Vec<Device>) -> (r: Vec<Device>)
    ensures
        r@.len() == v@.len(),
        device_views(r@) == device_views(v@),
{
    let mut r: Vec<Device> = Vec::new();
    let mut i: usize = 0;
    while i < v.len()
        invariant
            i <= v@.len(),
            r@.len() == i,
            forall|k: int| 0 <= k < i ==> r@[k]@ == v@[k]@,
        decreases v@.len() - i,
    {
        r.push(v[i].clone());
        i += 1;
    }
    proof {
        assert(device_views(r@) =~= device_views(v@));
    }
    r
}

/// Two devices with the same address compare equal whatever their names,
/// kinds or sensor payloads: the address is the hardware identity.
pub proof fn lemma_equality_by_address(a: Device, b: Device)
    requires
        !a@.is_unknown(),
        !b@.is_unknown(),
        a@.info().address == b@.info().address,
    ensures
        a@.eq_by_address(b@),
{
}

} // verus!
