//! The registry as a mathematical state machine: its state, and what each
//! request does to it. The executable operations are specified against
//! these definitions.

use vstd::prelude::*;
use crate::types::{DeviceView, RegistryError};

verus! {

/// The registry's state as plain values: the administrator, the device
/// counter, the device records keyed by hashed IMEI, and the escrowed
/// bounties keyed by hashed IMEI.
pub struct RegistryView {
    pub admin: Option<Seq<u8>>,
    pub device_count: u32,
    pub devices: Map<Seq<u8>, DeviceView>,
    pub bounties: Map<Seq<u8>, i128>,
}

/// A request to the registry, by its arguments.
pub enum Request {
    Initialize { admin: Seq<u8> },
    RegisterDevice { owner: Seq<u8>, hashed_imei: Seq<u8>, device_model: Seq<u8>, ledger_sequence: u32 },
    ReportStolen { owner: Seq<u8>, hashed_imei: Seq<u8>, bounty_amount: i128, recovery_contact: Seq<u8> },
    ConfirmRecovery { owner: Seq<u8>, hashed_imei: Seq<u8> },
    FileInsuranceClaim { owner: Seq<u8>, hashed_imei: Seq<u8>, insurer: Seq<u8> },
}

/// The record of a device as it is first registered.
pub open spec fn fresh_device(owner: Seq<u8>, hashed_imei: Seq<u8>, device_model: Seq<u8>, ledger_sequence: u32) -> DeviceView {
    DeviceView {
        owner,
        hashed_imei,
        device_model,
        is_stolen: false,
        registered_at: ledger_sequence,
        recovery_contact: Seq::empty(),
        insurer: None,
    }
}

impl RegistryView {
    /// The state of a freshly deployed registry: nothing stored.
    pub open spec fn empty() -> RegistryView {
        RegistryView { admin: None, device_count: 0, devices: Map::empty(), bounties: Map::empty() }
    }

    /// Finitely many entries, and each device record sits under its own hashed IMEI.
    pub open spec fn valid(self) -> bool {
        &&& self.devices.dom().finite()
        &&& self.bounties.dom().finite()
        &&& forall|k: Seq<u8>| #[trigger] self.devices.contains_key(k) ==> self.devices[k].hashed_imei == k
    }

    /// Every escrowed bounty belongs to a registered device that is currently
    /// reported as stolen.
    pub open spec fn escrow_consistent(self) -> bool {
        forall|k: Seq<u8>| #[trigger] self.bounties.contains_key(k) ==> self.devices.contains_key(k) && self.devices[k].is_stolen
    }

    /// Whether `d` may be stored as a record in this state without leaving
    /// what requests can reach: a device under escrow stays stolen, and a
    /// record already stored keeps its owner, model, registration sequence
    /// and any insurer.
    pub open spec fn may_store_device(self, d: DeviceView) -> bool {
        &&& self.bounties.contains_key(d.hashed_imei) ==> d.is_stolen
        &&& self.devices.contains_key(d.hashed_imei) ==> {
            let old_d = self.devices[d.hashed_imei];
            &&& d.owner == old_d.owner
            &&& d.device_model == old_d.device_model
            &&& d.registered_at == old_d.registered_at
            &&& (old_d.insurer is Some ==> d.insurer == old_d.insurer)
        }
    }

    /// Sets the administrator once. The device counter keeps counting the
    /// devices registered so far.
    pub open spec fn initialize(self, admin: Seq<u8>) -> Result<RegistryView, RegistryError> {
        if self.admin is Some {
            Err(RegistryError::AlreadyInitialized)
        } else {
            Ok(RegistryView { admin: Some(admin), ..self })
        }
    }

    /// Adds a fresh record under a hashed IMEI not yet registered, and counts it.
    pub open spec fn register_device(self, owner: Seq<u8>, hashed_imei: Seq<u8>, device_model: Seq<u8>, ledger_sequence: u32) -> Result<RegistryView, RegistryError> {
        if self.devices.contains_key(hashed_imei) {
            Err(RegistryError::DeviceAlreadyRegistered)
        } else if self.device_count == u32::MAX {
            Err(RegistryError::DeviceCountFull)
        } else {
            Ok(RegistryView {
                devices: self.devices.insert(hashed_imei, fresh_device(owner, hashed_imei, device_model, ledger_sequence)),
                device_count: (self.device_count + 1) as u32,
                ..self
            })
        }
    }

    /// The record under a hashed IMEI.
    pub open spec fn lookup(self, hashed_imei: Seq<u8>) -> Result<DeviceView, RegistryError> {
        if self.devices.contains_key(hashed_imei) {
            Ok(self.devices[hashed_imei])
        } else {
            Err(RegistryError::DeviceNotFound)
        }
    }

    /// The record under a hashed IMEI, provided that `owner` owns it.
    pub open spec fn owned_device(self, owner: Seq<u8>, hashed_imei: Seq<u8>) -> Result<DeviceView, RegistryError> {
        match self.lookup(hashed_imei) {
            Ok(d) => if d.owner != owner { Err(RegistryError::NotOwner) } else { Ok(d) },
            Err(e) => Err(e),
        }
    }

    /// The record under a hashed IMEI, provided that `owner` owns it and still
    /// controls it: no insurance claim has been filed for it.
    pub open spec fn controlled_device(self, owner: Seq<u8>, hashed_imei: Seq<u8>) -> Result<DeviceView, RegistryError> {
        match self.owned_device(owner, hashed_imei) {
            Ok(d) => if d.insurer is Some { Err(RegistryError::DeviceClaimed) } else { Ok(d) },
            Err(e) => Err(e),
        }
    }

    /// Freezes the owner's device as stolen, records the recovery contact and
    /// escrows the bounty.
    pub open spec fn report_stolen(self, owner: Seq<u8>, hashed_imei: Seq<u8>, bounty_amount: i128, recovery_contact: Seq<u8>) -> Result<RegistryView, RegistryError> {
        match self.controlled_device(owner, hashed_imei) {
            Ok(d) => {
                Ok(RegistryView {
                    devices: self.devices.insert(hashed_imei, DeviceView { is_stolen: true, recovery_contact, ..d }),
                    bounties: self.bounties.insert(hashed_imei, bounty_amount),
                    ..self
                })
            },
            Err(e) => Err(e),
        }
    }

    /// The bounty escrowed under a hashed IMEI; zero when none is.
    pub open spec fn bounty(self, hashed_imei: Seq<u8>) -> i128 {
        if self.bounties.contains_key(hashed_imei) { self.bounties[hashed_imei] } else { 0 }
    }

    /// Unfreezes the owner's stolen device, clears its recovery contact and
    /// releases its escrowed bounty.
    pub open spec fn confirm_recovery(self, owner: Seq<u8>, hashed_imei: Seq<u8>) -> Result<RegistryView, RegistryError> {
        match self.controlled_device(owner, hashed_imei) {
            Ok(d) => if !d.is_stolen {
                Err(RegistryError::NotStolen)
            } else {
                Ok(RegistryView {
                    devices: self.devices.insert(hashed_imei, DeviceView { is_stolen: false, recovery_contact: Seq::empty(), ..d }),
                    bounties: self.bounties.remove(hashed_imei),
                    ..self
                })
            },
            Err(e) => Err(e),
        }
    }

    /// Hands the owner's device over to an insurer, once.
    pub open spec fn file_insurance_claim(self, owner: Seq<u8>, hashed_imei: Seq<u8>, insurer: Seq<u8>) -> Result<RegistryView, RegistryError> {
        match self.owned_device(owner, hashed_imei) {
            Ok(d) => if d.insurer is Some {
                Err(RegistryError::ClaimAlreadyFiled)
            } else {
                Ok(RegistryView {
                    devices: self.devices.insert(hashed_imei, DeviceView { insurer: Some(insurer), ..d }),
                    ..self
                })
            },
            Err(e) => Err(e),
        }
    }

    /// The outcome of a request: the new state, or why it was refused.
    pub open spec fn apply(self, request: Request) -> Result<RegistryView, RegistryError> {
        match request {
            Request::Initialize { admin } => self.initialize(admin),
            Request::RegisterDevice { owner, hashed_imei, device_model, ledger_sequence } =>
                self.register_device(owner, hashed_imei, device_model, ledger_sequence),
            Request::ReportStolen { owner, hashed_imei, bounty_amount, recovery_contact } =>
                self.report_stolen(owner, hashed_imei, bounty_amount, recovery_contact),
            Request::ConfirmRecovery { owner, hashed_imei } => self.confirm_recovery(owner, hashed_imei),
            Request::FileInsuranceClaim { owner, hashed_imei, insurer } =>
                self.file_insurance_claim(owner, hashed_imei, insurer),
        }
    }

    /// The state after a request: a refused request changes nothing.
    pub open spec fn next(self, request: Request) -> RegistryView {
        match self.apply(request) {
            Ok(post) => post,
            Err(_) => self,
        }
    }
}

/// The state after a sequence of requests, taken in order.
pub open spec fn run(v: RegistryView, requests: Seq<Request>) -> RegistryView
    decreases requests.len(),
{
    if requests.len() == 0 {
        v
    } else {
        run(v, requests.drop_last()).next(requests.last())
    }
}

} // verus!
