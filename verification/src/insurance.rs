//! Proof-of-loss for insurers: a claim hands the device over to the insurer,
//! permanently.

use vstd::prelude::*;
use crate::HavenRegistry;
use crate::device::load_owned_device;
use crate::types::{Address, DeviceView, ImeiHash, RegistryError};
use crate::laws::lemma_claim_outcome;

verus! {

/// Files an insurance claim for the owner's device: `insurer` becomes the
/// device's authority, and the owner can no longer report or recover it. The
/// stolen flag, recovery contact and any escrowed bounty are left as they are.
///
/// Refused with `DeviceNotFound`, `NotOwner` or `ClaimAlreadyFiled`, checked
/// in that order.
pub fn file_insurance_claim(
    registry: &mut HavenRegistry,
    owner: Address,
    hashed_imei: ImeiHash,
    insurer: Address,
) -> (r: Result<(), RegistryError>)
    requires
        old(registry).wf(),
    ensures
        final(registry).wf(),
        match old(registry)@.file_insurance_claim(owner@, hashed_imei@, insurer@) {
            Ok(post) => r is Ok && final(registry)@ == post,
            Err(e) => r == Err::<(), RegistryError>(e) && final(registry)@ == old(registry)@,
        },
        r is Ok <==> {
            &&& old(registry)@.devices.contains_key(hashed_imei@)
            &&& old(registry)@.devices[hashed_imei@].owner == owner@
            &&& old(registry)@.devices[hashed_imei@].insurer is None
        },
        r is Ok ==> final(registry)@.devices[hashed_imei@] == (DeviceView {
            insurer: Some(insurer@),
            ..old(registry)@.devices[hashed_imei@]
        }),
{
    proof {
        lemma_claim_outcome(old(registry)@, owner@, hashed_imei@, insurer@);
    }
    let mut device = match load_owned_device(registry, &owner, &hashed_imei) {
        Ok(d) => d,
        Err(e) => return Err(e),
    };
    if device.insurer.is_some() {
        return Err(RegistryError::ClaimAlreadyFiled);
    }
    proof {
        registry.lemma_wf();
    }
    device.insurer = Some(insurer);
    registry.store_device(device);
    Ok(())
}

} // verus!
