//! Haven device registry: hashed IMEIs become stateful records that can be
//! frozen as stolen with an escrowed bounty, recovered by their owner with the
//! bounty released to the finder, or handed over to an insurer.
//!
//! The registry's storage is a `HavenRegistry` value; its view is the
//! `RegistryView` state machine of `model`. Each request returns either its
//! result or the `RegistryError` that refused it, in which case the state is
//! unchanged. Authorization of the caller (the owner's or administrator's
//! signature) is the host's business and happens before a request reaches
//! the registry.

pub mod bytes;
pub mod types;
mod table;
pub mod model;
pub mod device;
pub mod killswitch;
pub mod recovery;
pub mod insurance;
pub mod laws;

use vstd::prelude::*;
use crate::table::Table;
use crate::model::RegistryView;
use crate::laws::lemma_initialize_outcome;
pub use crate::types::{Address, DataKey, DeviceState, DeviceView, ImeiHash, Payout, RegistryError};

verus! {

/// The registry's storage: the administrator and device counter (instance
/// entries), device records and escrowed bounties (persistent entries, keyed
/// by hashed IMEI).
pub struct HavenRegistry {
    admin: Option<Address>,
    device_count: u32,
    devices: Table<DeviceState>,
    bounties: Table<i128>,
}

impl View for HavenRegistry {
    type V = RegistryView;

    closed spec fn view(&self) -> RegistryView {
        RegistryView {
            admin: types::optional_address_view(self.admin),
            device_count: self.device_count,
            devices: self.devices@,
            bounties: self.bounties@,
        }
    }
}

impl HavenRegistry {
    /// The storage's invariant.
    pub closed spec fn wf(&self) -> bool {
        &&& self.devices.wf()
        &&& self.bounties.wf()
        &&& self@.valid()
        &&& self@.escrow_consistent()
    }

    /// What the invariant tells of the registry's state.
    pub proof fn lemma_wf(&self)
        requires
            self.wf(),
        ensures
            self@.valid(),
            self@.escrow_consistent(),
    {
    }

    /// A registry with nothing stored.
    pub fn new() -> (r: HavenRegistry)
        ensures
            r.wf(),
            r@ == RegistryView::empty(),
    {
        HavenRegistry { admin: None, device_count: 0, devices: Table::new(), bounties: Table::new() }
    }

    /// The administrator, if one is set.
    pub fn admin(&self) -> (r: Option<Address>)
        ensures
            types::optional_address_view(r) == self@.admin,
    {
        types::copy_optional_address(&self.admin)
    }

    /// Stores `admin` as the administrator of a registry that has none.
    pub fn store_admin(&mut self, admin: Address)
        requires
            old(self).wf(),
            old(self)@.admin is None,
        ensures
            final(self).wf(),
            final(self)@ == (RegistryView { admin: Some(admin@), ..old(self)@ }),
    {
        self.admin = Some(admin);
    }

    /// The stored device counter.
    pub fn device_count(&self) -> (r: u32)
        ensures
            r == self@.device_count,
    {
        self.device_count
    }

    /// Stores `count` as the device counter, which never goes down.
    pub fn store_device_count(&mut self, count: u32)
        requires
            old(self).wf(),
            old(self)@.device_count <= count,
        ensures
            final(self).wf(),
            final(self)@ == (RegistryView { device_count: count, ..old(self)@ }),
    {
        self.device_count = count;
    }

    /// A copy of the device record stored under `hashed_imei`, if any.
    pub fn device(&self, hashed_imei: &ImeiHash) -> (r: Option<DeviceState>)
        requires
            self.wf(),
        ensures
            match r {
                Some(d) => self@.devices.contains_key(hashed_imei@) && d@ == self@.devices[hashed_imei@],
                None => !self@.devices.contains_key(hashed_imei@),
            },
    {
        match self.devices.get(hashed_imei) {
            Some(d) => Some(d.clone()),
            None => None,
        }
    }

    /// Stores `device` under its own hashed IMEI, replacing any record there.
    pub fn store_device(&mut self, device: DeviceState)
        requires
            old(self).wf(),
            old(self)@.may_store_device(device@),
        ensures
            final(self).wf(),
            final(self)@ == (RegistryView {
                devices: old(self)@.devices.insert(device.hashed_imei@, device@),
                ..old(self)@
            }),
    {
        let key = device.hashed_imei;
        let ghost k = device.hashed_imei@;
        let ghost d = device@;
        self.devices.set(key, device);
        proof {
            self.devices.lemma_finite();
            assert forall|k2: Seq<u8>| #[trigger] self@.devices.contains_key(k2) implies self@.devices[k2].hashed_imei == k2 by {
                if k2 != k {
                    assert(old(self)@.devices.contains_key(k2));
                }
            }
            assert forall|k2: Seq<u8>| #[trigger] self@.bounties.contains_key(k2) implies self@.devices.contains_key(k2) && self@.devices[k2].is_stolen by {
                assert(old(self)@.bounties.contains_key(k2));
            }
        }
    }

    /// The bounty entry stored under `hashed_imei`, if any.
    pub fn bounty(&self, hashed_imei: &ImeiHash) -> (r: Option<i128>)
        requires
            self.wf(),
        ensures
            match r {
                Some(a) => self@.bounties.contains_key(hashed_imei@) && a == self@.bounties[hashed_imei@],
                None => !self@.bounties.contains_key(hashed_imei@),
            },
    {
        match self.bounties.get(hashed_imei) {
            Some(a) => Some(*a),
            None => None,
        }
    }

    /// Stores `amount` as the bounty under `hashed_imei`, which must hold a
    /// device reported as stolen.
    pub fn store_bounty(&mut self, hashed_imei: ImeiHash, amount: i128)
        requires
            old(self).wf(),
            old(self)@.devices.contains_key(hashed_imei@),
            old(self)@.devices[hashed_imei@].is_stolen,
        ensures
            final(self).wf(),
            final(self)@ == (RegistryView {
                bounties: old(self)@.bounties.insert(hashed_imei@, amount),
                ..old(self)@
            }),
    {
        self.bounties.set(hashed_imei, amount);
        proof {
            self.bounties.lemma_finite();
            assert forall|k2: Seq<u8>| #[trigger] self@.bounties.contains_key(k2) implies self@.devices.contains_key(k2) && self@.devices[k2].is_stolen by {
                if k2 != hashed_imei@ {
                    assert(old(self)@.bounties.contains_key(k2));
                }
            }
        }
    }

    /// Removes the bounty entry under `hashed_imei`, if any.
    pub fn remove_bounty(&mut self, hashed_imei: &ImeiHash)
        requires
            old(self).wf(),
        ensures
            final(self).wf(),
            final(self)@ == (RegistryView {
                bounties: old(self)@.bounties.remove(hashed_imei@),
                ..old(self)@
            }),
    {
        let _ = self.bounties.remove(hashed_imei);
        proof {
            self.bounties.lemma_finite();
            assert forall|k2: Seq<u8>| #[trigger] self@.bounties.contains_key(k2) implies self@.devices.contains_key(k2) && self@.devices[k2].is_stolen by {
                assert(old(self)@.bounties.contains_key(k2));
            }
        }
    }

    /// Sets the administrator of a registry that has none; the device
    /// counter is kept.
    ///
    /// Refused with `AlreadyInitialized` when an administrator is set.
    pub fn initialize(&mut self, admin: Address) -> (r: Result<(), RegistryError>)
        requires
            old(self).wf(),
        ensures
            final(self).wf(),
            match old(self)@.initialize(admin@) {
                Ok(post) => r is Ok && final(self)@ == post,
                Err(e) => r == Err::<(), RegistryError>(e) && final(self)@ == old(self)@,
            },
            r is Ok <==> old(self)@.admin is None,
            r is Ok ==> final(self)@.admin == Some(admin@),
    {
        proof {
            lemma_initialize_outcome(old(self)@, admin@);
        }
        if self.admin.is_some() {
            return Err(RegistryError::AlreadyInitialized);
        }
        self.store_admin(admin);
        Ok(())
    }

    /// Registers a new device; see `device::register_device`.
    pub fn register_device(
        &mut self,
        owner: Address,
        hashed_imei: ImeiHash,
        device_model: Vec<u8>,
        ledger_sequence: u32,
    ) -> (r: Result<DeviceState, RegistryError>)
        requires
            old(self).wf(),
        ensures
            final(self).wf(),
            match old(self)@.register_device(owner@, hashed_imei@, device_model@, ledger_sequence) {
                Ok(post) => {
                    &&& r matches Ok(d)
                    &&& d@ == model::fresh_device(owner@, hashed_imei@, device_model@, ledger_sequence)
                    &&& final(self)@ == post
                },
                Err(e) => r == Err::<DeviceState, RegistryError>(e) && final(self)@ == old(self)@,
            },
            r is Ok <==> !old(self)@.devices.contains_key(hashed_imei@) && old(self)@.device_count < u32::MAX,
            r matches Ok(d) ==> {
                &&& d.owner@ == owner@
                &&& d.hashed_imei@ == hashed_imei@
                &&& d.device_model@ == device_model@
                &&& d.registered_at == ledger_sequence
                &&& !d.is_stolen
                &&& d.recovery_contact@.len() == 0
                &&& d.insurer is None
                &&& final(self)@.devices[hashed_imei@] == d@
                &&& final(self)@.device_count == old(self)@.device_count + 1
            },
    {
        device::register_device(self, owner, hashed_imei, device_model, ledger_sequence)
    }

    /// The record of a registered device; see `device::get_device`.
    pub fn get_device(&self, hashed_imei: ImeiHash) -> (r: Result<DeviceState, RegistryError>)
        requires
            self.wf(),
        ensures
            match self@.lookup(hashed_imei@) {
                Ok(v) => r matches Ok(d) && d@ == v,
                Err(e) => r == Err::<DeviceState, RegistryError>(e),
            },
            self@.devices.contains_key(hashed_imei@) ==> (r matches Ok(d) && d@ == self@.devices[hashed_imei@]),
            !self@.devices.contains_key(hashed_imei@) ==> r == Err::<DeviceState, RegistryError>(RegistryError::DeviceNotFound),
    {
        device::get_device(self, hashed_imei)
    }

    /// Reports a device as stolen and escrows a bounty; see
    /// `killswitch::report_stolen`.
    pub fn report_stolen(
        &mut self,
        owner: Address,
        hashed_imei: ImeiHash,
        bounty_amount: i128,
        recovery_contact: Vec<u8>,
    ) -> (r: Result<(), RegistryError>)
        requires
            old(self).wf(),
        ensures
            final(self).wf(),
            match old(self)@.report_stolen(owner@, hashed_imei@, bounty_amount, recovery_contact@) {
                Ok(post) => r is Ok && final(self)@ == post,
                Err(e) => r == Err::<(), RegistryError>(e) && final(self)@ == old(self)@,
            },
            r is Ok <==> {
                &&& old(self)@.devices.contains_key(hashed_imei@)
                &&& old(self)@.devices[hashed_imei@].owner == owner@
                &&& old(self)@.devices[hashed_imei@].insurer is None
            },
            r is Ok ==> {
                &&& final(self)@.devices[hashed_imei@] == (DeviceView {
                    is_stolen: true,
                    recovery_contact: recovery_contact@,
                    ..old(self)@.devices[hashed_imei@]
                })
                &&& final(self)@.bounty(hashed_imei@) == bounty_amount
            },
    {
        killswitch::report_stolen(self, owner, hashed_imei, bounty_amount, recovery_contact)
    }

    /// The bounty escrowed for a device; see `killswitch::get_bounty`.
    pub fn get_bounty(&self, hashed_imei: ImeiHash) -> (r: i128)
        requires
            self.wf(),
        ensures
            r == self@.bounty(hashed_imei@),
    {
        killswitch::get_bounty(self, hashed_imei)
    }

    /// Confirms recovery of a stolen device and releases its bounty; see
    /// `recovery::confirm_recovery`.
    pub fn confirm_recovery(
        &mut self,
        owner: Address,
        hashed_imei: ImeiHash,
        finder: Address,
    ) -> (r: Result<Payout, RegistryError>)
        requires
            old(self).wf(),
        ensures
            final(self).wf(),
            match old(self)@.confirm_recovery(owner@, hashed_imei@) {
                Ok(post) => {
                    &&& r matches Ok(p)
                    &&& p.recipient@ == finder@
                    &&& p.amount == old(self)@.bounty(hashed_imei@)
                    &&& final(self)@ == post
                },
                Err(e) => r == Err::<Payout, RegistryError>(e) && final(self)@ == old(self)@,
            },
            r is Ok <==> {
                &&& old(self)@.devices.contains_key(hashed_imei@)
                &&& old(self)@.devices[hashed_imei@].owner == owner@
                &&& old(self)@.devices[hashed_imei@].insurer is None
                &&& old(self)@.devices[hashed_imei@].is_stolen
            },
            r is Ok ==> {
                &&& final(self)@.devices[hashed_imei@] == (DeviceView {
                    is_stolen: false,
                    recovery_contact: Seq::empty(),
                    ..old(self)@.devices[hashed_imei@]
                })
                &&& final(self)@.bounty(hashed_imei@) == 0
            },
    {
        recovery::confirm_recovery(self, owner, hashed_imei, finder)
    }

    /// Files an insurance claim; see `insurance::file_insurance_claim`.
    pub fn file_insurance_claim(
        &mut self,
        owner: Address,
        hashed_imei: ImeiHash,
        insurer: Address,
    ) -> (r: Result<(), RegistryError>)
        requires
            old(self).wf(),
        ensures
            final(self).wf(),
            match old(self)@.file_insurance_claim(owner@, hashed_imei@, insurer@) {
                Ok(post) => r is Ok && final(self)@ == post,
                Err(e) => r == Err::<(), RegistryError>(e) && final(self)@ == old(self)@,
            },
            r is Ok <==> {
                &&& old(self)@.devices.contains_key(hashed_imei@)
                &&& old(self)@.devices[hashed_imei@].owner == owner@
                &&& old(self)@.devices[hashed_imei@].insurer is None
            },
            r is Ok ==> final(self)@.devices[hashed_imei@] == (DeviceView {
                insurer: Some(insurer@),
                ..old(self)@.devices[hashed_imei@]
            }),
    {
        insurance::file_insurance_claim(self, owner, hashed_imei, insurer)
    }
}

} // verus!
