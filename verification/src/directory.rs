//! Which of the attached devices are BlinkSticks.

use vstd::prelude::*;
use crate::error::BlinkStickError;
use crate::session::BlinkStick;

verus! {

/// The vendor id of a BlinkStick.
pub const VENDOR_ID: u16 = 0x20A0;

/// The product id of a BlinkStick.
pub const PRODUCT_ID: u16 = 0x41E5;

/// The two ids by which a device says what it is.
#[derive(Clone, Copy, Debug, PartialEq, Eq, Structural)]
pub struct DeviceIds {
    pub vendor_id: u16,
    pub product_id: u16,
}

/// Whether a device with these ids is a BlinkStick.
pub open spec fn is_blinkstick(ids: DeviceIds) -> bool {
    ids.vendor_id == VENDOR_ID && ids.product_id == PRODUCT_ID
}

/// Whether the descriptor of the device at `position` was read and shows a
/// BlinkStick.
pub open spec fn matches_at(descriptors: Seq<Option<DeviceIds>>, position: int) -> bool {
    0 <= position < descriptors.len() && descriptors[position] is Some && is_blinkstick(
        descriptors[position]->0,
    )
}

/// Whether the descriptor of some device could not be read.
pub open spec fn some_unreadable(descriptors: Seq<Option<DeviceIds>>) -> bool {
    exists|i: int| 0 <= i < descriptors.len() && #[trigger] descriptors[i] is None
}

/// The positions of the BlinkSticks among the attached devices, in the
/// order of the devices.
pub open spec fn blinksticks(descriptors: Seq<Option<DeviceIds>>) -> Seq<int>
    decreases descriptors.len(),
{
    if descriptors.len() == 0 {
        Seq::empty()
    } else {
        let before = blinksticks(descriptors.drop_last());
        if matches_at(descriptors, descriptors.len() - 1) {
            before.push(descriptors.len() - 1)
        } else {
            before
        }
    }
}

/// Whether `list` holds the numbers of `positions`, one for one.
pub open spec fn holds_positions(list: Seq<usize>, positions: Seq<int>) -> bool {
    list.len() == positions.len() && forall|k: int|
        0 <= k < list.len() ==> #[trigger] list[k] as int == positions[k]
}

/// What the search for all BlinkSticks gives: their positions, unless the
/// descriptor of some device could not be read.
pub open spec fn found_all(descriptors: Seq<Option<DeviceIds>>) -> Result<
    Seq<int>,
    BlinkStickError,
> {
    if some_unreadable(descriptors) {
        Err(BlinkStickError::DeviceDescriptorError)
    } else {
        Ok(blinksticks(descriptors))
    }
}

/// What the search for the first BlinkStick gives: its position, unless a
/// descriptor could not be read or no device is a BlinkStick.
pub open spec fn found_first(descriptors: Seq<Option<DeviceIds>>) -> Result<int, BlinkStickError> {
    match found_all(descriptors) {
        Err(error) => Err(error),
        Ok(found) => if found.len() == 0 {
            Err(BlinkStickError::NoDeviceFound)
        } else {
            Ok(found[0])
        },
    }
}

/// The positions that the search gives are those of the BlinkSticks: each
/// is the position of one, each BlinkStick has its position among them, and
/// they stand in rising order.
pub proof fn lemma_blinksticks(descriptors: Seq<Option<DeviceIds>>)
    ensures
        blinksticks(descriptors).len() <= descriptors.len(),
        forall|k: int|
            0 <= k < blinksticks(descriptors).len() ==> matches_at(
                descriptors,
                #[trigger] blinksticks(descriptors)[k],
            ),
        forall|i: int|
            matches_at(descriptors, i) ==> exists|k: int|
                0 <= k < blinksticks(descriptors).len() && #[trigger] blinksticks(descriptors)[k]
                    == i,
        forall|j: int, k: int|
            0 <= j < k < blinksticks(descriptors).len() ==> blinksticks(descriptors)[j]
                < blinksticks(descriptors)[k],
    decreases descriptors.len(),
{
    if descriptors.len() > 0 {
        let shorter = descriptors.drop_last();
        let last = descriptors.len() - 1;
        lemma_blinksticks(shorter);
        let before = blinksticks(shorter);
        let all = blinksticks(descriptors);
        assert forall|k: int| 0 <= k < before.len() implies matches_at(
            descriptors,
            #[trigger] before[k],
        ) by {
            assert(matches_at(shorter, before[k]));
        }
        assert forall|i: int| matches_at(descriptors, i) implies exists|k: int|
            0 <= k < all.len() && #[trigger] all[k] == i by {
            if i == last {
                assert(all[all.len() - 1] == i);
            } else {
                assert(matches_at(shorter, i));
                let k = choose|k: int| 0 <= k < before.len() && #[trigger] before[k] == i;
                assert(all[k] == i);
            }
        }
        assert forall|j: int, k: int| 0 <= j < k < all.len() implies all[j] < all[k] by {
            if k == before.len() {
                assert(matches_at(shorter, before[j]));
            }
        }
    }
}

/// Where no attached device is a BlinkStick and every descriptor was read,
/// the search for all gives an empty list and no failure.
pub proof fn lemma_none_found(descriptors: Seq<Option<DeviceIds>>)
    requires
        !some_unreadable(descriptors),
        forall|i: int| !matches_at(descriptors, i),
    ensures
        found_all(descriptors) == Ok::<Seq<int>, BlinkStickError>(Seq::empty()),
    decreases descriptors.len(),
{
    lemma_blinksticks(descriptors);
    let found = blinksticks(descriptors);
    if found.len() > 0 {
        assert(matches_at(descriptors, found[0]));
    }
    assert(found =~= Seq::empty());
}

impl BlinkStick {
    /// The positions of the BlinkSticks among the attached devices, of which
    /// `descriptors` holds the ids in the order of enumeration, or nothing
    /// for a device whose descriptor could not be read: that is a failure
    /// of the whole search.
    pub fn find_all(descriptors: &[Option<DeviceIds>]) -> (found: Result<Vec<usize>, BlinkStickError>)
        ensures
            (match found_all(descriptors@) {
                Ok(positions) => found is Ok && holds_positions(found->Ok_0@, positions),
                Err(error) => found is Err && found->Err_0 == error,
            }),
    {
        let mut result: Vec<usize> = Vec::new();
        let mut i: usize = 0;
        while i < descriptors.len()
            invariant
                i <= descriptors@.len(),
                holds_positions(result@, blinksticks(descriptors@.take(i as int))),
                forall|k: int| 0 <= k < i ==> #[trigger] descriptors@[k] is Some,
            decreases descriptors@.len() - i,
        {
            proof {
                assert(descriptors@.take(i + 1).drop_last() =~= descriptors@.take(i as int));
            }
            match descriptors[i] {
                None => {
                    return Err(BlinkStickError::DeviceDescriptorError);
                },
                Some(ids) => {
                    if ids.vendor_id == VENDOR_ID && ids.product_id == PRODUCT_ID {
                        result.push(i);
                    }
                },
            }
            i += 1;
        }
        assert(descriptors@.take(i as int) =~= descriptors@);
        Ok(result)
    }

    /// The position of the first BlinkStick among the attached devices.
    pub fn find_first(descriptors: &[Option<DeviceIds>]) -> (found: Result<usize, BlinkStickError>)
        ensures
            (match found_first(descriptors@) {
                Ok(position) => found is Ok && found->Ok_0 == position,
                Err(error) => found is Err && found->Err_0 == error,
            }),
    {
        match Self::find_all(descriptors) {
            Err(error) => Err(error),
            Ok(list) => {
                if list.len() == 0 {
                    Err(BlinkStickError::NoDeviceFound)
                } else {
                    Ok(list[0])
                }
            },
        }
    }
}

/// The positions of the BlinkSticks among the attached devices.
pub fn find_blinksticks(descriptors: &[Option<DeviceIds>]) -> (found: Result<
    Vec<usize>,
    BlinkStickError,
>)
    ensures
        (match found_all(descriptors@) {
            Ok(positions) => found is Ok && holds_positions(found->Ok_0@, positions),
            Err(error) => found is Err && found->Err_0 == error,
        }),
{
    BlinkStick::find_all(descriptors)
}

/// The position of the first BlinkStick among the attached devices.
pub fn find_first_blinkstick(descriptors: &[Option<DeviceIds>]) -> (found: Result<
    usize,
    BlinkStickError,
>)
    ensures
        (match found_first(descriptors@) {
            Ok(position) => found is Ok && found->Ok_0 == position,
            Err(error) => found is Err && found->Err_0 == error,
        }),
{
    BlinkStick::find_first(descriptors)
}

} // verus!
