//! Trustless payout when a stolen device is recovered.

use vstd::prelude::*;
use crate::HavenRegistry;
use crate::device::load_controlled_device;
use crate::types::{Address, DeviceView, ImeiHash, Payout, RegistryError};
use crate::laws::lemma_confirm_recovery_outcome;

verus! {

/// Confirms that the owner's stolen device has been recovered: marks it not
/// stolen, clears its recovery contact and removes its escrowed bounty. The
/// returned payout gives the released amount (zero when none was escrowed)
/// to `finder`.
///
/// Refused with `DeviceNotFound`, `NotOwner`, `DeviceClaimed` (an insurer
/// has taken the device over) or `NotStolen`, checked in that order.
pub fn confirm_recovery(
    registry: &mut HavenRegistry,
    owner: Address,
    hashed_imei: ImeiHash,
    finder: Address,
) -> (r: Result<Payout, RegistryError>)
    requires
        old(registry).wf(),
    ensures
        final(registry).wf(),
        match old(registry)@.confirm_recovery(owner@, hashed_imei@) {
            Ok(post) => {
                &&& r matches Ok(p)
                &&& p.recipient@ == finder@
                &&& p.amount == old(registry)@.bounty(hashed_imei@)
                &&& final(registry)@ == post
            },
            Err(e) => r == Err::<Payout, RegistryError>(e) && final(registry)@ == old(registry)@,
        },
        r is Ok <==> {
            &&& old(registry)@.devices.contains_key(hashed_imei@)
            &&& old(registry)@.devices[hashed_imei@].owner == owner@
            &&& old(registry)@.devices[hashed_imei@].insurer is None
            &&& old(registry)@.devices[hashed_imei@].is_stolen
        },
        r is Ok ==> {
            &&& final(registry)@.devices[hashed_imei@] == (DeviceView {
                is_stolen: false,
                recovery_contact: Seq::empty(),
                ..old(registry)@.devices[hashed_imei@]
            })
            &&& final(registry)@.bounty(hashed_imei@) == 0
        },
{
    proof {
        lemma_confirm_recovery_outcome(old(registry)@, owner@, hashed_imei@);
    }
    let mut device = match load_controlled_device(registry, &owner, &hashed_imei) {
        Ok(d) => d,
        Err(e) => return Err(e),
    };
    if !device.is_stolen {
        return Err(RegistryError::NotStolen);
    }
    let amount = match registry.bounty(&hashed_imei) {
        Some(a) => a,
        None => 0,
    };
    registry.remove_bounty(&hashed_imei);
    device.is_stolen = false;
    device.recovery_contact = Vec::new();
    registry.store_device(device);
    Ok(Payout { recipient: finder, amount })
}

} // verus!
