//! The set of devices that are present, and what to do with each
//! notification about a device.

use crate::decoder::{
    decode_service_data, service_entries, service_reading, DecodeFailure, SensorData,
};
use crate::supervisor::WatchdogState;
use std::collections::{HashMap, HashSet};
use uuid::Uuid;
use vstd::prelude::*;

verus! {

broadcast use vstd::std_specs::hash::group_hash_axioms;

/// A notification about one device. A device is known by the number of its
/// address.
#[derive(Debug, Clone, Copy, PartialEq, Eq)]
pub enum DeviceEvent {
    /// The device with this address appeared.
    Added(u64),
    /// The device with this address went away.
    Removed(u64),
}

/// What to do with a notification.
#[derive(Debug, Clone, Copy, PartialEq, Eq)]
pub enum RouterAction {
    /// The device is new: fetch its service data and decode it.
    Process(u64),
    /// The device is present already: nothing to do.
    Skip,
    /// The device is gone.
    Forget(u64),
}

/// The devices present after `event`.
pub open spec fn seen_after(seen: Set<u64>, event: DeviceEvent) -> Set<u64> {
    match event {
        DeviceEvent::Added(address) => seen.insert(address),
        DeviceEvent::Removed(address) => seen.remove(address),
    }
}

/// What `event` calls for when the devices in `seen` are present.
pub open spec fn routed(seen: Set<u64>, event: DeviceEvent) -> RouterAction {
    match event {
        DeviceEvent::Added(address) => if seen.contains(address) {
            RouterAction::Skip
        } else {
            RouterAction::Process(address)
        },
        DeviceEvent::Removed(address) => RouterAction::Forget(address),
    }
}

/// The address that a notification is about.
pub open spec fn address_of(event: DeviceEvent) -> u64 {
    match event {
        DeviceEvent::Added(address) => address,
        DeviceEvent::Removed(address) => address,
    }
}

/// The devices present after all of `events`, in their order.
pub open spec fn seen_after_all(seen: Set<u64>, events: Seq<DeviceEvent>) -> Set<u64>
    decreases events.len(),
{
    if events.len() == 0 {
        seen
    } else {
        seen_after(seen_after_all(seen, events.drop_last()), events.last())
    }
}

/// The six bytes of a device address as one number, first byte first.
pub open spec fn address_number(bytes: Seq<u8>) -> int {
    bytes[0] * 0x100_0000_0000 + bytes[1] * 0x1_0000_0000 + bytes[2] * 0x100_0000 + bytes[3]
        * 0x1_0000 + bytes[4] * 0x100 + bytes[5]
}

/// The number by which the router knows the device with the address `bytes`.
pub fn address_key(bytes: [u8; 6]) -> (key: u64)
    ensures
        key == address_number(bytes@),
        key < 0x1_0000_0000_0000,
{
    (bytes[0] as u64) * 0x100_0000_0000 + (bytes[1] as u64) * 0x1_0000_0000 + (bytes[2] as u64)
        * 0x100_0000 + (bytes[3] as u64) * 0x1_0000 + (bytes[4] as u64) * 0x100 + (bytes[5] as u64)
}

/// The address of the device that the router knows by `key`. Only the low 48
/// bits of `key` count.
pub fn key_address(key: u64) -> (bytes: [u8; 6])
    ensures
        address_number(bytes@) == key % 0x1_0000_0000_0000,
{
    let low5 = key / 0x100;
    let low4 = low5 / 0x100;
    let low3 = low4 / 0x100;
    let low2 = low3 / 0x100;
    let low1 = low2 / 0x100;
    let bytes = [
        (low1 % 0x100) as u8,
        (low2 % 0x100) as u8,
        (low3 % 0x100) as u8,
        (low4 % 0x100) as u8,
        (low5 % 0x100) as u8,
        (key % 0x100) as u8,
    ];
    proof {
        let number = address_number(bytes@);
        let high = (low1 / 0x100) as int;
        assert(key == low5 * 0x100 + bytes@[5]);
        assert(low5 == low4 * 0x100 + bytes@[4]);
        assert(low4 == low3 * 0x100 + bytes@[3]);
        assert(low3 == low2 * 0x100 + bytes@[2]);
        assert(low2 == low1 * 0x100 + bytes@[1]);
        assert(low1 == high * 0x100 + bytes@[0]);
        assert(key == high * 0x1_0000_0000_0000 + number);
        assert(0 <= number < 0x1_0000_0000_0000);
        vstd::arithmetic::div_mod::lemma_fundamental_div_mod_converse(
            key as int,
            0x1_0000_0000_0000,
            high,
            number,
        );
    }
    bytes
}

/// Each byte of an address is a digit of its number in base 256.
proof fn lemma_address_digits(bytes: Seq<u8>)
    requires
        bytes.len() == 6,
    ensures
        bytes[5] == address_number(bytes) % 0x100,
        bytes[4] == (address_number(bytes) / 0x100) % 0x100,
        bytes[3] == (address_number(bytes) / 0x1_0000) % 0x100,
        bytes[2] == (address_number(bytes) / 0x100_0000) % 0x100,
        bytes[1] == (address_number(bytes) / 0x1_0000_0000) % 0x100,
        bytes[0] == address_number(bytes) / 0x100_0000_0000,
{
    let number = address_number(bytes);
    let above1: int = bytes[0] as int;
    let above2: int = above1 * 0x100 + bytes[1];
    let above3: int = above2 * 0x100 + bytes[2];
    let above4: int = above3 * 0x100 + bytes[3];
    let above5: int = above4 * 0x100 + bytes[4];
    assert(number == above5 * 0x100 + bytes[5]);
    vstd::arithmetic::div_mod::lemma_fundamental_div_mod_converse(
        number,
        0x100,
        above5,
        bytes[5] as int,
    );
    assert(number == above4 * 0x1_0000 + (bytes[4] * 0x100 + bytes[5]));
    vstd::arithmetic::div_mod::lemma_fundamental_div_mod_converse(
        number,
        0x1_0000,
        above4,
        bytes[4] * 0x100 + bytes[5],
    );
    assert(number == above3 * 0x100_0000 + (bytes[3] * 0x1_0000 + bytes[4] * 0x100 + bytes[5]));
    vstd::arithmetic::div_mod::lemma_fundamental_div_mod_converse(
        number,
        0x100_0000,
        above3,
        bytes[3] * 0x1_0000 + bytes[4] * 0x100 + bytes[5],
    );
    assert(number == above2 * 0x1_0000_0000 + (bytes[2] * 0x100_0000 + bytes[3] * 0x1_0000
        + bytes[4] * 0x100 + bytes[5]));
    vstd::arithmetic::div_mod::lemma_fundamental_div_mod_converse(
        number,
        0x1_0000_0000,
        above2,
        bytes[2] * 0x100_0000 + bytes[3] * 0x1_0000 + bytes[4] * 0x100 + bytes[5],
    );
    assert(number == above1 * 0x100_0000_0000 + (bytes[1] * 0x1_0000_0000 + bytes[2] * 0x100_0000
        + bytes[3] * 0x1_0000 + bytes[4] * 0x100 + bytes[5]));
    vstd::arithmetic::div_mod::lemma_fundamental_div_mod_converse(
        number,
        0x100_0000_0000,
        above1,
        bytes[1] * 0x1_0000_0000 + bytes[2] * 0x100_0000 + bytes[3] * 0x1_0000 + bytes[4] * 0x100
            + bytes[5],
    );
    vstd::arithmetic::div_mod::lemma_fundamental_div_mod_converse(
        above5,
        0x100,
        above4,
        bytes[4] as int,
    );
    vstd::arithmetic::div_mod::lemma_fundamental_div_mod_converse(
        above4,
        0x100,
        above3,
        bytes[3] as int,
    );
    vstd::arithmetic::div_mod::lemma_fundamental_div_mod_converse(
        above3,
        0x100,
        above2,
        bytes[2] as int,
    );
    vstd::arithmetic::div_mod::lemma_fundamental_div_mod_converse(
        above2,
        0x100,
        above1,
        bytes[1] as int,
    );
}

/// Two addresses with the same number are the same address.
pub proof fn lemma_address_number_injective(a: [u8; 6], b: [u8; 6])
    requires
        address_number(a@) == address_number(b@),
    ensures
        a@ == b@,
{
    lemma_address_digits(a@);
    lemma_address_digits(b@);
    assert(a@ =~= b@);
}

/// The devices that are present, by address.
pub struct DeviceRouter {
    seen: HashSet<u64>,
}

impl View for DeviceRouter {
    type V = Set<u64>;

    closed spec fn view(&self) -> Set<u64> {
        self.seen@
    }
}

impl DeviceRouter {
    /// A router with no device present.
    pub fn new() -> (router: Self)
        ensures
            router@ == Set::<u64>::empty(),
    {
        DeviceRouter { seen: HashSet::new() }
    }

    /// Whether the device is present.
    pub fn is_present(&self, address: u64) -> (present: bool)
        ensures
            present == self@.contains(address),
    {
        self.seen.contains(&address)
    }

    /// Takes one notification: a device that was not present becomes present
    /// and is to be processed, one that is present is skipped, one that is
    /// removed is forgotten.
    pub fn handle(&mut self, event: DeviceEvent) -> (action: RouterAction)
        ensures
            action == routed(old(self)@, event),
            final(self)@ == seen_after(old(self)@, event),
    {
        match event {
            DeviceEvent::Added(address) => {
                if !self.seen.contains(&address) {
                    self.seen.insert(address);
                    RouterAction::Process(address)
                } else {
                    assert(self.seen@.insert(address) =~= self.seen@);
                    RouterAction::Skip
                }
            },
            DeviceEvent::Removed(address) => {
                self.seen.remove(&address);
                RouterAction::Forget(address)
            },
        }
    }
}

/// Decodes the service data of a device that is to be processed, at time
/// `now_ms`. The watchdog's clock is set to `now_ms` where a reading came
/// out, and left alone where none did.
pub fn handle_device(
    data: &HashMap<Uuid, Vec<u8>>,
    now_ms: u64,
    watchdog: &mut WatchdogState,
) -> (reading: Result<SensorData, DecodeFailure>)
    ensures
        reading == service_reading(service_entries(*data)),
        reading is Ok ==> *final(watchdog) == (WatchdogState {
            last_decode_ms: now_ms,
            ..*old(watchdog)
        }),
        reading is Err ==> *final(watchdog) == *old(watchdog),
{
    let reading = decode_service_data(data);
    if reading.is_ok() {
        watchdog.record_decode_success(now_ms);
    }
    reading
}

/// A device that was removed is processed when it is added again.
pub proof fn lemma_readded_device_is_processed(seen: Set<u64>, address: u64)
    ensures
        routed(seen_after(seen, DeviceEvent::Removed(address)), DeviceEvent::Added(address))
            == RouterAction::Process(address),
{
}

/// A device that was added is skipped when it is added again before it was
/// removed, and the set of devices does not change.
pub proof fn lemma_repeated_add_is_skipped(seen: Set<u64>, address: u64)
    ensures
        routed(seen_after(seen, DeviceEvent::Added(address)), DeviceEvent::Added(address))
            == RouterAction::Skip,
        seen_after(seen_after(seen, DeviceEvent::Added(address)), DeviceEvent::Added(address))
            == seen_after(seen, DeviceEvent::Added(address)),
{
    assert(seen.insert(address).insert(address) =~= seen.insert(address));
}

/// After any notifications, a device is present exactly if the last
/// notification about it was an addition. `last` is the place of that
/// notification.
pub proof fn lemma_present_iff_last_added(
    seen: Set<u64>,
    events: Seq<DeviceEvent>,
    address: u64,
    last: int,
)
    requires
        0 <= last < events.len(),
        address_of(events[last]) == address,
        forall|j: int| last < j < events.len() ==> address_of(#[trigger] events[j]) != address,
    ensures
        seen_after_all(seen, events).contains(address) <==> events[last] is Added,
    decreases events.len(),
{
    let before = events.drop_last();
    if last < events.len() - 1 {
        assert(before[last] == events[last]);
        assert forall|j: int| last < j < before.len() implies address_of(#[trigger] before[j])
            != address by {
            assert(before[j] == events[j]);
        }
        lemma_present_iff_last_added(seen, before, address, last);
        assert(address_of(events[events.len() - 1]) != address);
    }
}

/// A device that no notification is about stays as it was.
pub proof fn lemma_untouched_device_unchanged(
    seen: Set<u64>,
    events: Seq<DeviceEvent>,
    address: u64,
)
    requires
        forall|j: int| 0 <= j < events.len() ==> address_of(#[trigger] events[j]) != address,
    ensures
        seen_after_all(seen, events).contains(address) <==> seen.contains(address),
    decreases events.len(),
{
    if events.len() > 0 {
        let before = events.drop_last();
        assert forall|j: int| 0 <= j < before.len() implies address_of(#[trigger] before[j])
            != address by {
            assert(before[j] == events[j]);
        }
        lemma_untouched_device_unchanged(seen, before, address);
        assert(address_of(events[events.len() - 1]) != address);
    }
}

} // verus!
