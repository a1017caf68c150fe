//! Finding the reader among the attached USB devices.

use crate::error::ReaderError;
use vstd::prelude::*;

verus! {

/// The part of a USB device descriptor that tells devices apart.
#[derive(Clone, Copy, Debug, PartialEq, Eq, Structural)]
pub struct DeviceIdentity {
    /// Vendor identifier.
    pub vendor_id: u16,
    /// Product identifier.
    pub product_id: u16,
}

/// Whether an entry of the enumeration is the device looked for. An entry is
/// `None` where the device's descriptor could not be read; such a device is
/// passed over.
pub open spec fn is_target(entry: Option<DeviceIdentity>, vendor_id: u16, product_id: u16) -> bool {
    entry == Some(DeviceIdentity { vendor_id, product_id })
}

/// Whether `index` is the place of the first device looked for.
pub open spec fn located_at(
    devices: Seq<Option<DeviceIdentity>>,
    vendor_id: u16,
    product_id: u16,
    index: int,
) -> bool {
    &&& 0 <= index < devices.len()
    &&& is_target(devices[index], vendor_id, product_id)
    &&& forall|j: int| 0 <= j < index ==> !is_target(#[trigger] devices[j], vendor_id, product_id)
}

/// Whether the enumeration holds no device looked for.
pub open spec fn absent(devices: Seq<Option<DeviceIdentity>>, vendor_id: u16, product_id: u16) -> bool {
    forall|j: int| 0 <= j < devices.len() ==> !is_target(#[trigger] devices[j], vendor_id, product_id)
}

/// At most one place is the first.
pub proof fn lemma_located_once(
    devices: Seq<Option<DeviceIdentity>>,
    vendor_id: u16,
    product_id: u16,
    first: int,
    second: int,
)
    requires
        located_at(devices, vendor_id, product_id, first),
        located_at(devices, vendor_id, product_id, second),
    ensures
        first == second,
{
    if first < second {
        assert(!is_target(devices[first], vendor_id, product_id));
    } else if second < first {
        assert(!is_target(devices[second], vendor_id, product_id));
    }
}

/// Looks through an enumeration of the attached devices, in its order, for
/// the first one with exactly the given vendor and product identifiers, and
/// returns its place. Devices without a readable descriptor are skipped.
pub fn locate(devices: &[Option<DeviceIdentity>], vendor_id: u16, product_id: u16) -> (found:
    Result<usize, ReaderError>)
    ensures
        match found {
            Ok(index) => located_at(devices@, vendor_id, product_id, index as int),
            Err(e) => e == ReaderError::DeviceNotFound && absent(devices@, vendor_id, product_id),
        },
{
    let mut i: usize = 0;
    while i < devices.len()
        invariant
            i <= devices.len(),
            forall|j: int| 0 <= j < i ==> !is_target(#[trigger] devices@[j], vendor_id, product_id),
        decreases devices.len() - i,
    {
        match devices[i] {
            Some(identity) => {
                if identity.vendor_id == vendor_id && identity.product_id == product_id {
                    return Ok(i);
                }
            },
            None => {},
        }
        i = i + 1;
    }
    Err(ReaderError::DeviceNotFound)
}

} // verus!
