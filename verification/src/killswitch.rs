//! Stolen-state management: freezing a device and escrowing a recovery bounty.

use vstd::prelude::*;
use crate::HavenRegistry;
use crate::device::load_controlled_device;
use crate::types::{Address, DeviceView, ImeiHash, RegistryError};
use crate::laws::lemma_report_stolen_outcome;

verus! {

/// Reports the owner's device as stolen: marks it stolen, saves the recovery
/// contact and escrows `bounty_amount` under its hashed IMEI, replacing any
/// bounty escrowed before.
///
/// Refused with `DeviceNotFound`, `NotOwner` or `DeviceClaimed` (an insurer
/// has taken the device over), checked in that order.
pub fn report_stolen(
    registry: &mut HavenRegistry,
    owner: Address,
    hashed_imei: ImeiHash,
    bounty_amount: i128,
    recovery_contact: Vec<u8>,
) -> (r: Result<(), RegistryError>)
    requires
        old(registry).wf(),
    ensures
        final(registry).wf(),
        match old(registry)@.report_stolen(owner@, hashed_imei@, bounty_amount, recovery_contact@) {
            Ok(post) => r is Ok && final(registry)@ == post,
            Err(e) => r == Err::<(), RegistryError>(e) && final(registry)@ == old(registry)@,
        },
        r is Ok <==> {
            &&& old(registry)@.devices.contains_key(hashed_imei@)
            &&& old(registry)@.devices[hashed_imei@].owner == owner@
            &&& old(registry)@.devices[hashed_imei@].insurer is None
        },
        r is Ok ==> {
            &&& final(registry)@.devices[hashed_imei@] == (DeviceView {
                is_stolen: true,
                recovery_contact: recovery_contact@,
                ..old(registry)@.devices[hashed_imei@]
            })
            &&& final(registry)@.bounty(hashed_imei@) == bounty_amount
        },
{
    proof {
        lemma_report_stolen_outcome(old(registry)@, owner@, hashed_imei@, bounty_amount, recovery_contact@);
    }
    let mut device = match load_controlled_device(registry, &owner, &hashed_imei) {
        Ok(d) => d,
        Err(e) => return Err(e),
    };
    device.is_stolen = true;
    device.recovery_contact = recovery_contact;
    registry.store_device(device);
    registry.store_bounty(hashed_imei, bounty_amount);
    Ok(())
}

/// The bounty escrowed for the device under `hashed_imei`; zero when none is.
pub fn get_bounty(registry: &HavenRegistry, hashed_imei: ImeiHash) -> (r: i128)
    requires
        registry.wf(),
    ensures
        r == registry@.bounty(hashed_imei@),
{
    match registry.bounty(&hashed_imei) {
        Some(a) => a,
        None => 0,
    }
}

} // verus!
