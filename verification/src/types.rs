//! The registry's own data: addresses, device records, storage keys and the
//! errors with which a request is refused.

use vstd::prelude::*;
use crate::bytes::{bytes_equal, copy_bytes};

verus! {

/// A Stellar address, held as the bytes of its strkey text
/// (`G...` for an account, `C...` for a contract).
#[derive(Debug)]
pub struct Address {
    pub strkey: Vec<u8>,
}

impl View for Address {
    type V = Seq<u8>;

    open spec fn view(&self) -> Seq<u8> {
        self.strkey@
    }
}

impl Address {
    /// The address whose strkey text is `strkey`.
    pub fn new(strkey: Vec<u8>) -> (r: Address)
        ensures
            r@ == strkey@,
    {
        Address { strkey }
    }
}

impl Clone for Address {
    fn clone(&self) -> (r: Self)
        ensures
            r@ == self@,
    {
        Address { strkey: copy_bytes(&self.strkey) }
    }
}

impl PartialEq for Address {
    fn eq(&self, other: &Self) -> (r: bool) {
        bytes_equal(&self.strkey, &other.strkey)
    }
}

impl vstd::std_specs::cmp::PartialEqSpecImpl for Address {
    open spec fn obeys_eq_spec() -> bool {
        true
    }

    open spec fn eq_spec(&self, other: &Address) -> bool {
        self@ == other@
    }
}

impl Eq for Address {
}

/// The SHA-256 hash of a device's IMEI; the raw IMEI never reaches the registry.
pub type ImeiHash = [u8; 32];

/// What a device record is, as plain mathematical values.
pub struct DeviceView {
    pub owner: Seq<u8>,
    pub hashed_imei: Seq<u8>,
    pub device_model: Seq<u8>,
    pub is_stolen: bool,
    pub registered_at: u32,
    pub recovery_contact: Seq<u8>,
    pub insurer: Option<Seq<u8>>,
}

/// The record kept for a registered device.
#[derive(Debug, PartialEq, Eq)]
pub struct DeviceState {
    /// The address of the device owner.
    pub owner: Address,
    /// SHA-256 hash of the device's IMEI.
    pub hashed_imei: ImeiHash,
    /// Human-readable device model (e.g. "iPhone 15 Pro").
    pub device_model: Vec<u8>,
    /// Whether the device has been reported as stolen.
    pub is_stolen: bool,
    /// Ledger sequence number at which the device was registered.
    pub registered_at: u32,
    /// Email or phone for recovery contact; empty when none is set.
    pub recovery_contact: Vec<u8>,
    /// The insurer that holds the device once a claim has been filed.
    pub insurer: Option<Address>,
}

pub open spec fn optional_address_view(a: Option<Address>) -> Option<Seq<u8>> {
    match a {
        Some(x) => Some(x@),
        None => None,
    }
}

impl View for DeviceState {
    type V = DeviceView;

    open spec fn view(&self) -> DeviceView {
        DeviceView {
            owner: self.owner@,
            hashed_imei: self.hashed_imei@,
            device_model: self.device_model@,
            is_stolen: self.is_stolen,
            registered_at: self.registered_at,
            recovery_contact: self.recovery_contact@,
            insurer: optional_address_view(self.insurer),
        }
    }
}

/// A copy of an optional address.
pub fn copy_optional_address(a: &Option<Address>) -> (r: Option<Address>)
    ensures
        optional_address_view(r) == optional_address_view(*a),
{
    match a {
        Some(x) => Some(x.clone()),
        None => None,
    }
}

impl Clone for DeviceState {
    fn clone(&self) -> (r: Self)
        ensures
            r@ == self@,
    {
        DeviceState {
            owner: self.owner.clone(),
            hashed_imei: self.hashed_imei,
            device_model: copy_bytes(&self.device_model),
            is_stolen: self.is_stolen,
            registered_at: self.registered_at,
            recovery_contact: copy_bytes(&self.recovery_contact),
            insurer: copy_optional_address(&self.insurer),
        }
    }
}

/// A bounty released on recovery: the amount, for the finder.
#[derive(Debug, PartialEq, Eq)]
pub struct Payout {
    pub recipient: Address,
    pub amount: i128,
}

/// The keys under which the registry's state is stored.
#[derive(Debug, Clone, Copy, PartialEq, Eq)]
pub enum DataKey {
    /// The contract administrator address.
    Admin,
    /// A hashed IMEI, keying its device record.
    Device(ImeiHash),
    /// A hashed IMEI, keying the escrowed bounty of its device.
    Bounty(ImeiHash),
    /// The total number of registered devices.
    DeviceCount,
}

/// Why the registry refused a request; each refusal leaves the state unchanged.
#[derive(Debug, Clone, Copy, PartialEq, Eq, Structural)]
pub enum RegistryError {
    /// `initialize` was called on a registry that has an administrator.
    AlreadyInitialized,
    /// A device with this hashed IMEI is already registered.
    DeviceAlreadyRegistered,
    /// The device counter is at its maximum; no further device can be counted.
    DeviceCountFull,
    /// No device with this hashed IMEI is registered.
    DeviceNotFound,
    /// The caller is not the device's registered owner.
    NotOwner,
    /// An insurer has taken the device over; its owner no longer controls it.
    DeviceClaimed,
    /// The device is not reported as stolen.
    NotStolen,
    /// An insurance claim has already been filed for the device.
    ClaimAlreadyFiled,
}

} // verus!
