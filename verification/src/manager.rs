//! Choosing a device among those attached to the host.

use crate::connect::DeviceDescriptor;
use crate::device::{PID, VID};
use crate::Error;
use vstd::prelude::*;

verus! {

/// Vendor and product id of the devices looked for.
#[derive(Debug, Clone, Copy, PartialEq, Eq, Structural)]
pub struct Filter {
    /// Device vendor id.
    pub vid: u16,
    /// Device product id.
    pub pid: u16,
}

impl Filter {
    /// Whether a device with the given descriptor is looked for.
    pub open spec fn admits(self, descriptor: DeviceDescriptor) -> bool {
        descriptor.vendor_id == self.vid && descriptor.product_id == self.pid
    }

    /// Whether a device with the given descriptor is looked for.
    pub fn matches(&self, descriptor: &DeviceDescriptor) -> (admitted: bool)
        ensures
            admitted == self.admits(*descriptor),
    {
        descriptor.vendor_id == self.vid && descriptor.product_id == self.pid
    }
}

impl Default for Filter {
    fn default() -> (filter: Filter)
        ensures
            filter == (Filter { vid: VID, pid: PID }),
    {
        Filter { vid: VID, pid: PID }
    }
}

/// The positions in `descriptors` of the devices that the filter admits, in
/// rising order.
pub open spec fn spec_devices_filtered(filter: Filter, descriptors: Seq<DeviceDescriptor>) -> Seq<
    int,
>
    decreases descriptors.len(),
{
    if descriptors.len() == 0 {
        Seq::empty()
    } else {
        let before = spec_devices_filtered(filter, descriptors.drop_last());
        if filter.admits(descriptors.last()) {
            before.push(descriptors.len() - 1)
        } else {
            before
        }
    }
}

/// The position in `descriptors` of the `index`-th device that the filter
/// admits; `InvalidIndex` where fewer devices are admitted.
pub open spec fn spec_device(filter: Filter, index: usize, descriptors: Seq<DeviceDescriptor>) -> Result<
    int,
    Error,
> {
    let matches = spec_devices_filtered(filter, descriptors);
    if index < matches.len() {
        Ok(matches[index as int])
    } else {
        Err(Error::InvalidIndex)
    }
}

/// The positions as mathematical integers.
pub open spec fn positions(matches: Seq<usize>) -> Seq<int> {
    matches.map_values(|at: usize| at as int)
}

/// Every position that [`spec_devices_filtered`] gives is one of an admitted
/// device, the positions rise, and no admitted device is left out.
pub proof fn lemma_devices_filtered(filter: Filter, descriptors: Seq<DeviceDescriptor>)
    ensures
        forall|k: int|
            0 <= k < spec_devices_filtered(filter, descriptors).len() ==> {
                let at = #[trigger] spec_devices_filtered(filter, descriptors)[k];
                0 <= at < descriptors.len() && filter.admits(descriptors[at])
            },
        forall|j: int, k: int|
            0 <= j < k < spec_devices_filtered(filter, descriptors).len()
                ==> spec_devices_filtered(filter, descriptors)[j] < spec_devices_filtered(
                filter,
                descriptors,
            )[k],
        forall|at: int|
            0 <= at < descriptors.len() && filter.admits(#[trigger] descriptors[at])
                ==> spec_devices_filtered(filter, descriptors).contains(at),
    decreases descriptors.len(),
{
    if descriptors.len() > 0 {
        let shorter = descriptors.drop_last();
        lemma_devices_filtered(filter, shorter);
        let before = spec_devices_filtered(filter, shorter);
        let all = spec_devices_filtered(filter, descriptors);
        assert forall|k: int| 0 <= k < all.len() implies {
            let at = #[trigger] all[k];
            0 <= at < descriptors.len() && filter.admits(descriptors[at])
        } by {
            if k < before.len() {
                assert(all[k] == before[k]);
                assert(shorter[before[k]] == descriptors[before[k]]);
            }
        }
        assert forall|at: int|
            0 <= at < descriptors.len() && filter.admits(#[trigger] descriptors[at]) implies all.contains(
            at,
        ) by {
            if at < descriptors.len() - 1 {
                assert(shorter[at] == descriptors[at]);
                let k = choose|k: int| 0 <= k < before.len() && before[k] == at;
                assert(all[k] == at);
            } else {
                assert(all[all.len() - 1] == at);
            }
        }
        assert forall|j: int, k: int| 0 <= j < k < all.len() implies all[j] < all[k] by {
            assert(all[j] == before[j]);
            if k < before.len() {
                assert(all[k] == before[k]);
            } else {
                assert(before[j] < shorter.len());
            }
        }
    }
}

/// Finds devices among those attached to the host.
pub struct Manager {}

impl Manager {
    /// The positions in `descriptors` of the devices that the filter
    /// admits.
    pub fn devices_filtered(filter: Filter, descriptors: &Vec<DeviceDescriptor>) -> (matches: Vec<
        usize,
    >)
        ensures
            positions(matches@) == spec_devices_filtered(filter, descriptors@),
    {
        let mut matches: Vec<usize> = Vec::new();
        let mut i: usize = 0;
        assert(positions(matches@) =~= Seq::<int>::empty());
        assert(descriptors@.take(0) =~= Seq::<DeviceDescriptor>::empty());
        while i < descriptors.len()
            invariant
                i <= descriptors@.len(),
                positions(matches@) == spec_devices_filtered(filter, descriptors@.take(i as int)),
            decreases descriptors@.len() - i,
        {
            proof {
                let next = descriptors@.take(i as int + 1);
                assert(next.drop_last() =~= descriptors@.take(i as int));
                assert(next.last() == descriptors@[i as int]);
            }
            if filter.matches(&descriptors[i]) {
                let ghost before = matches@;
                matches.push(i);
                assert(positions(matches@) =~= positions(before).push(i as int));
            }
            i += 1;
        }
        assert(descriptors@.take(i as int) =~= descriptors@);
        matches
    }

    /// The position in `descriptors` of the `index`-th device that the
    /// filter admits.
    pub fn device(filter: Filter, index: usize, descriptors: &Vec<DeviceDescriptor>) -> (found:
        Result<usize, Error>)
        ensures
            match found {
                Ok(at) => Ok::<int, Error>(at as int),
                Err(e) => Err(e),
            } == spec_device(filter, index, descriptors@),
    {
        let matches = Self::devices_filtered(filter, descriptors);
        if index >= matches.len() {
            return Err(Error::InvalidIndex);
        }
        Ok(matches[index])
    }
}

} // verus!
