//! The bounded, deduplicated device registry, and the batch replacement of
//! its contents from a wire device list.

use vstd::prelude::*;

use crate::constants::MAX_DEVICES;
use crate::device::{clone_devices, contains_by_address, contains_device, device_views, Device,
    DeviceView};
use crate::system::{FFIMessage, Ffi};
use crate::wire::{wire_to_device_spec, ProtobufDeviceInfoToDeviceError, WireDeviceInfo,
    WireDeviceInfoView};

verus! {

/// Why a batch replacement of the registry failed.
#[derive(Clone, Copy, Debug, PartialEq, Eq, Structural)]
pub enum AddDeviceError {
    /// More devices than the registry can hold.
    TooManyDevices,
    /// A name longer than the allowed maximum.
    NameTooLong,
    /// A device kind code outside the recognized set.
    WrongDeviceType,
    /// Bytes 6 and 7 of a packed address were not zero.
    LastAddressBytesAreNotNull,
}

impl core::convert::From<AddDeviceError> for FFIMessage {
    /// The host status message reporting this error.
    fn from(value: AddDeviceError) -> (r: FFIMessage) {
        match value {
            AddDeviceError::TooManyDevices => FFIMessage::TooManyDevices,
            AddDeviceError::NameTooLong => FFIMessage::NameTooLong,
            AddDeviceError::WrongDeviceType => FFIMessage::WrongDeviceType,
            AddDeviceError::LastAddressBytesAreNotNull => FFIMessage::UnableToConvert,
        }
    }
}

impl vstd::std_specs::convert::FromSpecImpl<AddDeviceError> for FFIMessage {
    open spec fn obeys_from_spec() -> bool {
        true
    }

    open spec fn from_spec(value: AddDeviceError) -> FFIMessage {
        match value {
            AddDeviceError::TooManyDevices => FFIMessage::TooManyDevices,
            AddDeviceError::NameTooLong => FFIMessage::NameTooLong,
            AddDeviceError::WrongDeviceType => FFIMessage::WrongDeviceType,
            AddDeviceError::LastAddressBytesAreNotNull => FFIMessage::UnableToConvert,
        }
    }
}

/// The capacity-bounded, order-irrelevant, deduplicated set of known
/// devices.  Its contents are fully replaced whenever a new device list
/// arrives from the backend.
#[derive(Debug)]
pub struct DeviceRegistry {
    capacity: usize,
    devices: Vec<Device>,
}

impl View for DeviceRegistry {
    type V = Seq<DeviceView>;

    closed spec fn view(&self) -> Seq<DeviceView> {
        device_views(self.devices@)
    }
}

impl DeviceRegistry {
    #[verifier::type_invariant]
    spec fn type_inv(self) -> bool {
        self.devices@.len() <= self.capacity && self.capacity <= MAX_DEVICES
    }

    /// How many devices the registry can hold.
    pub closed spec fn cap(&self) -> int {
        self.capacity as int
    }

    /// An empty registry with the standard capacity.
    pub fn new() -> (r: DeviceRegistry)
        ensures
            r@ == Seq::<DeviceView>::empty(),
            r.cap() == MAX_DEVICES as int,
    {
        let r = DeviceRegistry { capacity: MAX_DEVICES, devices: Vec::new() };
        proof {
            assert(r@ =~= Seq::<DeviceView>::empty());
        }
        r
    }

    /// An empty registry with a chosen capacity.
    pub fn with_capacity(capacity: usize) -> (r: DeviceRegistry)
        requires
            capacity <= MAX_DEVICES,
        ensures
            r@ == Seq::<DeviceView>::empty(),
            r.cap() == capacity as int,
    {
        let r = DeviceRegistry { capacity, devices: Vec::new() };
        proof {
            assert(r@ =~= Seq::<DeviceView>::empty());
        }
        r
    }

    /// How many devices the registry holds; never more than its capacity,
    /// which is at most [`MAX_DEVICES`].
    pub fn len(&self) -> (r: usize)
        ensures
            r == self@.len(),
            self@.len() <= self.cap() <= MAX_DEVICES,
    {
        proof {
            use_type_invariant(&*self);
        }
        self.devices.len()
    }

    /// How many devices the registry can hold.
    pub fn capacity(&self) -> (r: usize)
        ensures
            r == self.cap(),
    {
        self.capacity
    }

    /// Removes every device.
    pub fn clear(&mut self)
        ensures
            final(self)@ == Seq::<DeviceView>::empty(),
            final(self).cap() == old(self).cap(),
    {
        proof {
            use_type_invariant(&*self);
        }
        self.devices = Vec::new();
        proof {
            assert(self@ =~= Seq::<DeviceView>::empty());
        }
    }

    /// The device at position `i`.
    pub fn get(&self, i: usize) -> (r: &Device)
        requires
            i < self@.len(),
        ensures
            r@ == self@[i as int],
    {
        &self.devices[i]
    }

    /// Whether a device equal by address to `device` is registered.
    pub fn contains(&self, device: &Device) -> (r: bool)
        ensures
            r == contains_by_address(self@, device@),
    {
        contains_device(&self.devices, device)
    }
}

impl Clone for DeviceRegistry {
    /// Copies the registry, capacity and contents alike.
    fn clone(&self) -> (r: Self)
        ensures
            r@ == self@,
            r.cap() == self.cap(),
    {
        proof {
            use_type_invariant(&*self);
        }
        DeviceRegistry { capacity: self.capacity, devices: clone_devices(&self.devices) }
    }
}

/// The [`AddDeviceError`] reporting a failed wire conversion.
pub open spec fn add_error_of(e: ProtobufDeviceInfoToDeviceError) -> AddDeviceError {
    match e {
        ProtobufDeviceInfoToDeviceError::LastAddressBytesAreNotNull =>
            AddDeviceError::LastAddressBytesAreNotNull,
        ProtobufDeviceInfoToDeviceError::NameTooLong => AddDeviceError::NameTooLong,
        ProtobufDeviceInfoToDeviceError::WrongDeviceInfo(_) => AddDeviceError::WrongDeviceType,
    }
}

/// What replacing a registry's contents from `entries` yields, starting
/// from the already-rebuilt prefix `devs`: the final contents and the
/// error, if any.  Conversion failures and capacity exhaustion stop the
/// loop at once, leaving the registry partially repopulated.
pub open spec fn add_devices_spec(
    entries: Seq<WireDeviceInfoView>,
    devs: Seq<DeviceView>,
    cap: int,
) -> (Seq<DeviceView>, Option<AddDeviceError>)
    decreases entries.len(),
{
    if entries.len() == 0 {
        (devs, None)
    } else {
        match wire_to_device_spec(entries[0]) {
            Err(e) => (devs, Some(add_error_of(e))),
            Ok(d) => {
                if contains_by_address(devs, d) {
                    add_devices_spec(entries.drop_first(), devs, cap)
                } else if devs.len() < cap {
                    add_devices_spec(entries.drop_first(), devs.push(d), cap)
                } else {
                    (devs, Some(AddDeviceError::TooManyDevices))
                }
            },
        }
    }
}

/// The views of a slice of wire device entries.
pub open spec fn wire_entry_views(s: Seq<WireDeviceInfo>) -> Seq<WireDeviceInfoView> {
    s.map_values(|w: WireDeviceInfo| w@)
}

/// Replaces the registry contents with the converted wire device list.
///
/// The registry is cleared first; each entry is validated and converted,
/// entries equal by address to an already-registered device are skipped,
/// and the rest are appended.  The first conversion failure or capacity
/// overflow stops the loop and is returned, leaving the registry with the
/// entries accepted so far; capacity overflow is also reported to the
/// host.
#[verifier::rlimit(50)]
pub fn add_devices<F: Ffi>(
    devices: &mut DeviceRegistry,
    esp32: &F,
    protobuf_devices: &[WireDeviceInfo],
) -> (r: Result<(), AddDeviceError>)
    ensures
        ({
            let sr = add_devices_spec(
                wire_entry_views(protobuf_devices@),
                Seq::empty(),
                old(devices).cap(),
            );
            &&& final(devices)@ == sr.0
            &&& final(devices).cap() == old(devices).cap()
            &&& (r is Ok <==> sr.1 is None)
            &&& (r is Err ==> Some(r->Err_0) == sr.1)
        }),
{
    proof {
        use_type_invariant(&*devices);
    }
    let ghost entries = wire_entry_views(protobuf_devices@);
    let ghost cap = devices.cap();
    let capacity = devices.capacity;
    let mut out: Vec<Device> = Vec::new();
    proof {
        assert(device_views(out@) =~= Seq::<DeviceView>::empty());
        assert(entries.skip(0) =~= entries);
    }
    let n = protobuf_devices.len();
    let mut j: usize = 0;
    while j < n
        invariant
            j <= n,
            n == protobuf_devices@.len(),
            entries == wire_entry_views(protobuf_devices@),
            cap == capacity as int,
            cap == old(devices).cap(),
            capacity <= MAX_DEVICES,
            out@.len() <= capacity,
            devices.capacity == capacity,
            add_devices_spec(entries, Seq::empty(), cap) == add_devices_spec(
                entries.skip(j as int),
                device_views(out@),
                cap,
            ),
        decreases n - j,
    {
        let w = &protobuf_devices[j];
        proof {
            assert(entries.skip(j as int)[0] == w@);
            assert(entries.skip(j as int).drop_first() =~= entries.skip(j as int + 1));
        }
        match Device::try_from_wire(w) {
            Err(e) => {
                let err = match e {
                    ProtobufDeviceInfoToDeviceError::LastAddressBytesAreNotNull =>
                        AddDeviceError::LastAddressBytesAreNotNull,
                    ProtobufDeviceInfoToDeviceError::NameTooLong => AddDeviceError::NameTooLong,
                    ProtobufDeviceInfoToDeviceError::WrongDeviceInfo(_) =>
                        AddDeviceError::WrongDeviceType,
                };
                proof {
                    assert(add_devices_spec(entries.skip(j as int), device_views(out@), cap) == (
                    device_views(out@),
                    Some(add_error_of(e)),
                    ));
                }
                devices.devices = out;
                return Err(err);
            },
            Ok(d) => {
                if !contains_device(&out, &d) {
                    if out.len() < capacity {
                        let ghost out_prev = out@;
                        out.push(d);
                        proof {
                            assert(device_views(out@) =~= device_views(out_prev).push(d@));
                            assert(add_devices_spec(
                                entries.skip(j as int),
                                device_views(out_prev),
                                cap,
                            ) == add_devices_spec(
                                entries.skip(j as int + 1),
                                device_views(out@),
                                cap,
                            ));
                        }
                    } else {
                        proof {
                            assert(add_devices_spec(
                                entries.skip(j as int),
                                device_views(out@),
                                cap,
                            ) == (device_views(out@), Some(AddDeviceError::TooManyDevices)));
                        }
                        esp32.send_message(FFIMessage::TooManyDevices);
                        devices.devices = out;
                        return Err(AddDeviceError::TooManyDevices);
                    }
                } else {
                    proof {
                        assert(add_devices_spec(entries.skip(j as int), device_views(out@), cap)
                            == add_devices_spec(
                            entries.skip(j as int + 1),
                            device_views(out@),
                            cap,
                        ));
                    }
                }
            },
        }
        j += 1;
    }
    proof {
        assert(entries.skip(n as int) =~= Seq::<WireDeviceInfoView>::empty());
    }
    devices.devices = out;
    Ok(())
}

/// Replacing from valid entries with pairwise distinct addresses, none
/// already present, succeeds while they fit and stops with a capacity
/// error, the registry full, the moment they do not.
#[verifier::rlimit(100)]
#[verifier::spinoff_prover]
proof fn lemma_add_devices_distinct(
    entries: Seq<WireDeviceInfoView>,
    devs: Seq<DeviceView>,
    cap: int,
)
    requires
        0 <= cap,
        devs.len() <= cap,
        forall|i: int| 0 <= i < entries.len() ==> (#[trigger] wire_to_device_spec(
            entries[i],
        )) is Ok,
        forall|i: int, j: int|
            0 <= i < j < entries.len() ==> !wire_to_device_spec(
                entries[i],
            )->Ok_0.eq_by_address(wire_to_device_spec(entries[j])->Ok_0),
        forall|i: int|
            0 <= i < entries.len() ==> !contains_by_address(
                devs,
                wire_to_device_spec(#[trigger] entries[i])->Ok_0,
            ),
    ensures
        devs.len() + entries.len() <= cap ==> add_devices_spec(entries, devs, cap).1 is None
            && add_devices_spec(entries, devs, cap).0.len() == devs.len() + entries.len(),
        devs.len() + entries.len() > cap ==> add_devices_spec(entries, devs, cap).1 == Some(
            AddDeviceError::TooManyDevices,
        ) && add_devices_spec(entries, devs, cap).0.len() == cap,
    decreases entries.len(),
{
    if entries.len() > 0 {
        let d = wire_to_device_spec(entries[0])->Ok_0;
        assert(!contains_by_address(devs, d));
        if devs.len() < cap {
            let rest = entries.drop_first();
            let devs2 = devs.push(d);
            assert forall|i: int| 0 <= i < rest.len() implies (#[trigger] wire_to_device_spec(
                rest[i],
            )) is Ok by {
                assert(rest[i] == entries[i + 1]);
            }
            assert forall|i: int, j: int| 0 <= i < j < rest.len() implies !wire_to_device_spec(
                rest[i],
            )->Ok_0.eq_by_address(wire_to_device_spec(rest[j])->Ok_0) by {
                assert(rest[i] == entries[i + 1]);
                assert(rest[j] == entries[j + 1]);
            }
            assert forall|i: int| 0 <= i < rest.len() implies !contains_by_address(
                devs2,
                wire_to_device_spec(#[trigger] rest[i])->Ok_0,
            ) by {
                assert(rest[i] == entries[i + 1]);
                let di = wire_to_device_spec(entries[i + 1])->Ok_0;
                assert(!contains_by_address(devs, di));
                assert(!di.eq_by_address(d) && !d.eq_by_address(di));
                assert forall|k: int| 0 <= k < devs2.len() implies !devs2[k].eq_by_address(
                    di,
                ) by {
                    if k < devs.len() {
                        assert(!devs[k].eq_by_address(di));
                    } else {
                        assert(devs2[k] == d);
                    }
                }
            }
            lemma_add_devices_distinct(rest, devs2, cap);
        }
    }
}

/// Whether no two devices in the sequence are equal by address.
pub open spec fn distinct_addresses(devs: Seq<DeviceView>) -> bool {
    forall|i: int, j: int| 0 <= i < j < devs.len() ==> !devs[i].eq_by_address(devs[j])
}

/// The registry never holds two devices equal by address: whatever the
/// wire list — valid or not, duplicated or not — a batch replacement
/// starting from a pairwise-distinct prefix leaves the contents pairwise
/// distinct, each address kept once, at its first occurrence.
pub proof fn lemma_registry_distinct(
    entries: Seq<WireDeviceInfoView>,
    devs: Seq<DeviceView>,
    cap: int,
)
    requires
        distinct_addresses(devs),
    ensures
        distinct_addresses(add_devices_spec(entries, devs, cap).0),
    decreases entries.len(),
{
    if entries.len() > 0 {
        match wire_to_device_spec(entries[0]) {
            Err(_) => {},
            Ok(d) => {
                if contains_by_address(devs, d) {
                    lemma_registry_distinct(entries.drop_first(), devs, cap);
                } else if devs.len() < cap {
                    let devs2 = devs.push(d);
                    assert forall|i: int, j: int| 0 <= i < j < devs2.len() implies !devs2[
                    i].eq_by_address(devs2[j]) by {
                        if j < devs.len() {
                            assert(!devs[i].eq_by_address(devs[j]));
                        } else {
                            assert(devs2[j] == d);
                            assert(devs2[i] == devs[i]);
                            assert(!devs[i].eq_by_address(d));
                        }
                    }
                    lemma_registry_distinct(entries.drop_first(), devs2, cap);
                }
            },
        }
    }
}

/// Equality by address in the registry: when a second valid entry carries
/// the same address as an already-registered one, whatever its name, kind
/// or payload, the second is a duplicate — not inserted, and no error.
pub proof fn lemma_duplicate_address_skipped(
    e1: WireDeviceInfoView,
    e2: WireDeviceInfoView,
    cap: int,
)
    requires
        1 <= cap,
        wire_to_device_spec(e1) is Ok,
        wire_to_device_spec(e2) is Ok,
        wire_to_device_spec(e1)->Ok_0.eq_by_address(wire_to_device_spec(e2)->Ok_0),
    ensures
        add_devices_spec(seq![e1, e2], Seq::empty(), cap).0 == seq![
            wire_to_device_spec(e1)->Ok_0,
        ],
        add_devices_spec(seq![e1, e2], Seq::empty(), cap).1 is None,
{
    let d1 = wire_to_device_spec(e1)->Ok_0;
    let d2 = wire_to_device_spec(e2)->Ok_0;
    let s = seq![e1, e2];
    assert(!contains_by_address(Seq::empty(), d1));
    assert(s.drop_first() =~= seq![e2]);
    assert(Seq::<DeviceView>::empty().push(d1) =~= seq![d1]);
    assert(add_devices_spec(s, Seq::empty(), cap) == add_devices_spec(seq![e2], seq![d1], cap));
    assert(contains_by_address(seq![d1], d2)) by {
        assert(seq![d1][0].eq_by_address(d2));
    }
    assert(seq![e2].drop_first() =~= Seq::<WireDeviceInfoView>::empty());
    assert(add_devices_spec(seq![e2], seq![d1], cap) == add_devices_spec(
        Seq::<WireDeviceInfoView>::empty(),
        seq![d1],
        cap,
    ));
    assert(add_devices_spec(Seq::<WireDeviceInfoView>::empty(), seq![d1], cap) == (
    seq![d1],
    None::<AddDeviceError>,
    ));
}

/// Capacity enforcement: replacing a registry of capacity `cap` from a
/// list of valid entries with pairwise distinct addresses accepts them all
/// while they fit, and fails with a capacity error, the registry holding
/// exactly `cap` devices, as soon as they do not.
pub proof fn lemma_capacity_enforcement(entries: Seq<WireDeviceInfoView>, cap: int)
    requires
        0 <= cap,
        forall|i: int| 0 <= i < entries.len() ==> (#[trigger] wire_to_device_spec(
            entries[i],
        )) is Ok,
        forall|i: int, j: int|
            0 <= i < j < entries.len() ==> !wire_to_device_spec(
                entries[i],
            )->Ok_0.eq_by_address(wire_to_device_spec(entries[j])->Ok_0),
    ensures
        entries.len() <= cap ==> add_devices_spec(entries, Seq::empty(), cap).1 is None
            && add_devices_spec(entries, Seq::empty(), cap).0.len() == entries.len(),
        entries.len() > cap ==> add_devices_spec(entries, Seq::empty(), cap).1 == Some(
            AddDeviceError::TooManyDevices,
        ) && add_devices_spec(entries, Seq::empty(), cap).0.len() == cap,
{
    lemma_add_devices_distinct(entries, Seq::empty(), cap);
}

} // verus!
