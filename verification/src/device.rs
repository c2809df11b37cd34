//! Device registration and lookup.
//!
//! A device is registered under the SHA-256 hash of its IMEI, hashed before
//! it reaches the registry; anyone can then look its record up.

use vstd::prelude::*;
use crate::HavenRegistry;
use crate::model::fresh_device;
use crate::laws::{lemma_lookup_outcome, lemma_register_outcome};
use crate::types::{Address, DeviceState, ImeiHash, RegistryError};

verus! {

/// Registers a new device owned by `owner`, at ledger sequence
/// `ledger_sequence`, and counts it.
///
/// Refused with `DeviceAlreadyRegistered` when a record already exists under
/// `hashed_imei`, and then with `DeviceCountFull` when the counter is at its
/// maximum. The new record is not stolen, has an empty recovery contact
/// and no insurer.
pub fn register_device(
    registry: &mut HavenRegistry,
    owner: Address,
    hashed_imei: ImeiHash,
    device_model: Vec<u8>,
    ledger_sequence: u32,
) -> (r: Result<DeviceState, RegistryError>)
    requires
        old(registry).wf(),
    ensures
        final(registry).wf(),
        match old(registry)@.register_device(owner@, hashed_imei@, device_model@, ledger_sequence) {
            Ok(post) => {
                &&& r matches Ok(d)
                &&& d@ == fresh_device(owner@, hashed_imei@, device_model@, ledger_sequence)
                &&& final(registry)@ == post
            },
            Err(e) => r == Err::<DeviceState, RegistryError>(e) && final(registry)@ == old(registry)@,
        },
        r is Ok <==> !old(registry)@.devices.contains_key(hashed_imei@) && old(registry)@.device_count < u32::MAX,
        r matches Ok(d) ==> {
            &&& d.owner@ == owner@
            &&& d.hashed_imei@ == hashed_imei@
            &&& d.device_model@ == device_model@
            &&& d.registered_at == ledger_sequence
            &&& !d.is_stolen
            &&& d.recovery_contact@.len() == 0
            &&& d.insurer is None
            &&& final(registry)@.devices[hashed_imei@] == d@
            &&& final(registry)@.device_count == old(registry)@.device_count + 1
        },
{
    proof {
        lemma_register_outcome(old(registry)@, owner@, hashed_imei@, device_model@, ledger_sequence);
    }
    if registry.device(&hashed_imei).is_some() {
        return Err(RegistryError::DeviceAlreadyRegistered);
    }
    let count = registry.device_count();
    if count == u32::MAX {
        return Err(RegistryError::DeviceCountFull);
    }
    proof {
        registry.lemma_wf();
    }
    let device = DeviceState {
        owner,
        hashed_imei,
        device_model,
        is_stolen: false,
        registered_at: ledger_sequence,
        recovery_contact: Vec::new(),
        insurer: None,
    };
    let stored = device.clone();
    registry.store_device(stored);
    registry.store_device_count(count + 1);
    Ok(device)
}

/// The record of the device registered under `hashed_imei`.
///
/// Refused with `DeviceNotFound` when no device is registered under it.
pub fn get_device(registry: &HavenRegistry, hashed_imei: ImeiHash) -> (r: Result<DeviceState, RegistryError>)
    requires
        registry.wf(),
    ensures
        match registry@.lookup(hashed_imei@) {
            Ok(v) => r matches Ok(d) && d@ == v,
            Err(e) => r == Err::<DeviceState, RegistryError>(e),
        },
        registry@.devices.contains_key(hashed_imei@) ==> (r matches Ok(d) && d@ == registry@.devices[hashed_imei@]),
        !registry@.devices.contains_key(hashed_imei@) ==> r == Err::<DeviceState, RegistryError>(RegistryError::DeviceNotFound),
{
    proof {
        lemma_lookup_outcome(registry@, hashed_imei@);
    }
    match registry.device(&hashed_imei) {
        Some(d) => Ok(d),
        None => Err(RegistryError::DeviceNotFound),
    }
}

/// The record under `hashed_imei`, provided that `owner` owns it: refused
/// with `DeviceNotFound` or `NotOwner` otherwise.
pub(crate) fn load_owned_device(registry: &HavenRegistry, owner: &Address, hashed_imei: &ImeiHash) -> (r: Result<DeviceState, RegistryError>)
    requires
        registry.wf(),
    ensures
        match registry@.owned_device(owner@, hashed_imei@) {
            Ok(v) => r matches Ok(d) && d@ == v,
            Err(e) => r == Err::<DeviceState, RegistryError>(e),
        },
{
    let device = match registry.device(hashed_imei) {
        Some(d) => d,
        None => return Err(RegistryError::DeviceNotFound),
    };
    if device.owner != *owner {
        return Err(RegistryError::NotOwner);
    }
    Ok(device)
}

/// The record under `hashed_imei`, provided that `owner` owns it and still
/// controls it: refused with `DeviceNotFound`, `NotOwner` or `DeviceClaimed`.
pub(crate) fn load_controlled_device(registry: &HavenRegistry, owner: &Address, hashed_imei: &ImeiHash) -> (r: Result<DeviceState, RegistryError>)
    requires
        registry.wf(),
    ensures
        match registry@.controlled_device(owner@, hashed_imei@) {
            Ok(v) => r matches Ok(d) && d@ == v,
            Err(e) => r == Err::<DeviceState, RegistryError>(e),
        },
{
    let device = match load_owned_device(registry, owner, hashed_imei) {
        Ok(d) => d,
        Err(e) => return Err(e),
    };
    if device.insurer.is_some() {
        return Err(RegistryError::DeviceClaimed);
    }
    Ok(device)
}

} // verus!
