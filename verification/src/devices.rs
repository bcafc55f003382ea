//! Choosing the input devices whose raw events are asked for.

use vstd::prelude::*;

verus! {

/// What the pipeline reads of an input device: its identifier and the code
/// of its use.
#[derive(Clone, Copy, Debug, PartialEq, Eq)]
pub struct InputDevice {
    pub device_id: u8,
    pub device_use: u8,
}

/// `x11rb::protocol::xinput::DeviceUse::IS_X_POINTER` compared with the use
/// of the given code: the core pointer has the code 0.
#[verifier::external_body]
fn is_x_pointer(device_use: u8) -> (b: bool)
    ensures
        b == (device_use == 0),
{
    x11rb::protocol::xinput::DeviceUse::from(device_use)
        == x11rb::protocol::xinput::DeviceUse::IS_X_POINTER
}

/// The identifier under which events of a device are selected, if the
/// device is the core pointer.
pub open spec fn pointer_id() -> spec_fn(InputDevice) -> Option<u16> {
    |device: InputDevice|
        if device.device_use == 0 {
            Some(device.device_id as u16)
        } else {
            None
        }
}

/// The devices whose raw events are selected: the identifiers of the core
/// pointer devices among `devices`, in their order there.
pub fn select_events(devices: &Vec<InputDevice>) -> (ids: Vec<u16>)
    ensures
        ids@ == devices@.filter_map(pointer_id()),
{
    let mut ids: Vec<u16> = Vec::new();
    let mut i: usize = 0;
    proof {
        assert(devices@.take(0) =~= Seq::<InputDevice>::empty());
    }
    while i < devices.len()
        invariant
            i <= devices@.len(),
            ids@ == devices@.take(i as int).filter_map(pointer_id()),
        decreases devices@.len() - i,
    {
        let device = devices[i];
        proof {
            assert(devices@.take(i + 1).drop_last() =~= devices@.take(i as int));
            assert(devices@.take(i + 1).last() == device);
        }
        if is_x_pointer(device.device_use) {
            ids.push(device.device_id as u16);
            proof {
                assert(ids@ =~= devices@.take(i as int).filter_map(pointer_id()) + seq![
                    device.device_id as u16,
                ]);
            }
        }
        i = i + 1;
    }
    proof {
        assert(devices@.take(devices@.len() as int) =~= devices@);
    }
    ids
}

} // verus!
