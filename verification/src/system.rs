//! The capability boundary between the verified core and the host runtime.
//!
//! The core is written entirely against the [`Ffi`] trait and the
//! [`SharedFlag`] handle; the production implementation wraps the real
//! hardware and transport primitives, and tests supply doubles.  Nothing is
//! assumed of what these methods return: every caller in the core handles
//! every outcome.

use vstd::prelude::*;

use crate::device::DeviceInfo;
use crate::time::{Duration, Time};
use crate::wire::{BackendToFirmwarePacket, FirmwareToBackendPacket, FirmwareToFirmwarePacket};

verus! {

/// Quick, small status messages passed one-way through the host interface.
#[derive(Clone, Copy, Debug, PartialEq, Eq, Structural)]
pub enum FFIMessage {
    /// A transport message does not fit in the read buffer.
    TooMuchData,
    /// An inbound packet could not be decoded.
    ProtobufDecodeError,
    /// An integer conversion was out of bounds.
    TryFromIntError,
    /// More devices than the registry or the found-set can hold.
    TooManyDevices,
    /// A device sent does not fit requirements.
    UnableToConvert,
    /// A panic in the core.
    PanicErr,
    /// An outbound packet could not be encoded.
    ProtobufEncodeError,
    /// A long-running task completed; tasks must run forever.
    AssertExitedFuture,
    /// A device name was not legal UTF-8.
    BLENameUTF8Error,
    /// A time too far in the future to be represented.
    TimeOverflow,
    /// An `Unknown` device reached connection logic.
    UsingUnknownDevice,
    /// An internal bookkeeping step failed that never should.
    GenericAssertionError,
    /// The working connection queue ran out of room.
    RegDeviceOutOfRoomError,
    /// A device name longer than the allowed maximum.
    NameTooLong,
    /// A device kind code outside the recognized set.
    WrongDeviceType,
}

/// Why a transport read failed.
#[derive(Clone, Copy, Debug, PartialEq, Eq, Structural)]
pub enum ReadError {
    /// The packet sent from the server does not fit in the read buffer.
    OutOfMemory,
}

/// An outbound packet could not be encoded.
#[derive(Clone, Copy, Debug, PartialEq, Eq, Structural)]
pub struct EncodeError {}

/// An inbound packet could not be decoded.
#[derive(Clone, Copy, Debug, PartialEq, Eq, Structural)]
pub struct DecodeError {}

/// A duration too large for the host's sleep primitive.
#[derive(Clone, Copy, Debug, PartialEq, Eq, Structural)]
pub struct DurationTooLargeError {}

/// A scanned device name that was not legal UTF-8.
#[derive(Clone, Copy, Debug, PartialEq, Eq, Structural)]
pub struct NameUtf8Error {}

/// The host interface.
///
/// One production implementation drives the real radio, transport, LEDs and
/// clock; tests implement it with doubles.  The codec for the wire shapes
/// lives on the host side of this boundary, so transport methods take and
/// return decoded packets.  No method carries a contract: the core is
/// verified to behave for every value a host could hand back.
pub trait Ffi {
    /// Prints text to the host debug console.
    fn print(&self, text: &str);

    /// Pauses for the duration; fails when the duration does not fit the
    /// host's microsecond integer.
    fn sleep(&self, t: Duration) -> Result<(), DurationTooLargeError>;

    /// Polls the transport for one inbound packet.  The outer error reports
    /// a message that did not fit the read buffer; the inner result is the
    /// decode outcome; the boolean tells whether more data is already
    /// waiting.
    fn get_websocket_data(&self) -> Result<
        (Result<BackendToFirmwarePacket, DecodeError>, bool),
        ReadError,
    >;

    /// Passes a quick status message to the host.
    fn send_message(&self, msg: FFIMessage);

    /// Reads the wall clock, assumed UTC.
    fn get_time(&self) -> Time;

    /// Turns an LED on or off.
    fn set_led(&self, which: u8, state: bool);

    /// Starts a remote device scan.
    fn start_remote_device_scan(&self);

    /// Polls one result of the running scan, if any; the host reports a
    /// name that was not valid UTF-8 as an error.
    fn get_remote_device_scan_result(&self) -> Option<Result<DeviceInfo, NameUtf8Error>>;

    /// Stops the running remote device scan.
    fn stop_remote_device_scan(&self);

    /// Encodes and sends a packet to the backend.
    fn send_data(&self, packet: FirmwareToBackendPacket) -> Result<(), EncodeError>;

    /// Asks the radio to connect to the devices with these address keys.
    fn connect_devices(&self, devices: &Vec<u64>);

    /// Encodes and sends a peer-to-peer packet to the target device.
    fn ble_send_packet(&self, target: &DeviceInfo, packet: FirmwareToFirmwarePacket) -> Result<
        (),
        EncodeError,
    >;
}

/// A handle to a boolean flag shared between tasks.
///
/// The discovery flag is the one piece of state shared without a lock; the
/// host backs this handle with an atomic cell.  Loads and stores carry no
/// contract: another task may change the flag between any two calls.
pub trait SharedFlag {
    /// Reads the flag.
    fn load(&self) -> bool;

    /// Writes the flag.
    fn store(&self, value: bool);
}

} // verus!
