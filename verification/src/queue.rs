//! The working connection queue: a bounded FIFO of devices that the
//! reconciliation task rotates through connection batches.

use vstd::prelude::*;

use crate::constants::MAX_DEVICES;
use crate::device::{contains_by_address, contains_device, device_views, Device, DeviceView};

verus! {

/// A bounded FIFO of devices; the front is at position 0.  Devices popped
/// from the front during a connection batch are pushed to the back, so the
/// queue acts as a rotating ring.
#[derive(Debug)]
pub struct DeviceQueue {
    devices: Vec<Device>,
}

impl View for DeviceQueue {
    type V = Seq<DeviceView>;

    closed spec fn view(&self) -> Seq<DeviceView> {
        device_views(self.devices@)
    }
}

impl DeviceQueue {
    #[verifier::type_invariant]
    spec fn type_inv(self) -> bool {
        self.devices@.len() <= MAX_DEVICES
    }

    /// An empty queue.
    pub fn new() -> (r: DeviceQueue)
        ensures
            r@ == Seq::<DeviceView>::empty(),
    {
        let r = DeviceQueue { devices: Vec::new() };
        proof {
            assert(r@ =~= Seq::<DeviceView>::empty());
        }
        r
    }

    /// How many devices the queue holds; never more than [`MAX_DEVICES`].
    pub fn len(&self) -> (r: usize)
        ensures
            r == self@.len(),
            self@.len() <= MAX_DEVICES,
    {
        proof {
            use_type_invariant(&*self);
        }
        self.devices.len()
    }

    /// Appends a device at the back; a full queue hands the device back.
    pub fn push_back(&mut self, device: Device) -> (r: Result<(), Device>)
        ensures
            old(self)@.len() < MAX_DEVICES ==> r is Ok && final(self)@ == old(self)@.push(
                device@,
            ),
            old(self)@.len() >= MAX_DEVICES ==> r is Err && final(self)@ == old(self)@
                && r->Err_0@ == device@,
    {
        proof {
            use_type_invariant(&*self);
        }
        if self.devices.len() < MAX_DEVICES {
            let ghost prev = self.devices@;
            let mut v: Vec<Device> = Vec::new();
            core::mem::swap(&mut v, &mut self.devices);
            v.push(device);
            self.devices = v;
            proof {
                assert(device_views(self.devices@) =~= device_views(prev).push(
                    self.devices@[prev.len() as int]@,
                ));
            }
            Ok(())
        } else {
            Err(device)
        }
    }

    /// Removes and returns the front device, if any.
    pub fn pop_front(&mut self) -> (r: Option<Device>)
        ensures
            old(self)@.len() <= MAX_DEVICES,
            old(self)@.len() == 0 ==> r is None && final(self)@ == old(self)@,
            old(self)@.len() > 0 ==> r is Some && r->0@ == old(self)@[0] && final(self)@ == old(
                self,
            )@.drop_first(),
    {
        proof {
            use_type_invariant(&*self);
        }
        if self.devices.len() == 0 {
            None
        } else {
            let ghost prev = self.devices@;
            let mut v: Vec<Device> = Vec::new();
            core::mem::swap(&mut v, &mut self.devices);
            let device = v.remove(0);
            self.devices = v;
            proof {
                assert(device_views(self.devices@) =~= device_views(prev).drop_first());
            }
            Some(device)
        }
    }

    /// Removes every device.
    pub fn clear(&mut self)
        ensures
            final(self)@ == Seq::<DeviceView>::empty(),
    {
        proof {
            use_type_invariant(&*self);
        }
        self.devices = Vec::new();
        proof {
            assert(self@ =~= Seq::<DeviceView>::empty());
        }
    }

    /// The device at position `i`, the front being position 0.
    pub fn get(&self, i: usize) -> (r: &Device)
        requires
            i < self@.len(),
        ensures
            r@ == self@[i as int],
    {
        &self.devices[i]
    }

    /// Whether a device equal by address to `device` is queued.
    pub fn contains(&self, device: &Device) -> (r: bool)
        ensures
            r == contains_by_address(self@, device@),
    {
        contains_device(&self.devices, device)
    }
}

} // verus!
