use haven_registry::{Address, DeviceState, HavenRegistry, Payout, RegistryError};
use haven_registry::{device, insurance, killswitch, recovery};

fn addr(s: &str) -> Address {
    Address::new(s.as_bytes().to_vec())
}

fn imei(b: u8) -> [u8; 32] {
    let mut h = [0u8; 32];
    for (i, x) in h.iter_mut().enumerate() {
        *x = b.wrapping_add(i as u8);
    }
    h
}

fn owner() -> Address {
    addr("GOWNERAAAAAAAAAAAAAAAAAAAAAAAAAAAAAAAAAAAAAAAAAAAAAAAAAA")
}

fn stranger() -> Address {
    addr("GSTRANGERAAAAAAAAAAAAAAAAAAAAAAAAAAAAAAAAAAAAAAAAAAAAAAA")
}

fn finder() -> Address {
    addr("GFINDERAAAAAAAAAAAAAAAAAAAAAAAAAAAAAAAAAAAAAAAAAAAAAAAAA")
}

fn insurer() -> Address {
    addr("CINSURERAAAAAAAAAAAAAAAAAAAAAAAAAAAAAAAAAAAAAAAAAAAAAAAA")
}

fn registry_with_device() -> HavenRegistry {
    let mut reg = HavenRegistry::new();
    reg.initialize(addr("GADMIN")).unwrap();
    reg.register_device(owner(), imei(1), b"iPhone 15 Pro".to_vec(), 42).unwrap();
    reg
}

#[test]
fn initialize_sets_admin_and_counter() {
    let mut reg = HavenRegistry::new();
    assert!(reg.admin().is_none());
    assert_eq!(reg.initialize(addr("GADMIN")), Ok(()));
    assert_eq!(reg.admin(), Some(addr("GADMIN")));
    assert_eq!(reg.device_count(), 0);
}

#[test]
fn initialize_twice_is_refused() {
    let mut reg = HavenRegistry::new();
    reg.initialize(addr("GADMIN")).unwrap();
    assert_eq!(reg.initialize(addr("GOTHER")), Err(RegistryError::AlreadyInitialized));
    assert_eq!(reg.admin(), Some(addr("GADMIN")));
}

#[test]
fn register_creates_fresh_record() {
    let mut reg = HavenRegistry::new();
    reg.initialize(addr("GADMIN")).unwrap();
    let d = reg.register_device(owner(), imei(1), b"iPhone 15 Pro".to_vec(), 42).unwrap();
    assert_eq!(d.owner, owner());
    assert_eq!(d.hashed_imei, imei(1));
    assert_eq!(d.device_model, b"iPhone 15 Pro".to_vec());
    assert!(!d.is_stolen);
    assert_eq!(d.registered_at, 42);
    assert!(d.recovery_contact.is_empty());
    assert!(d.insurer.is_none());
    assert_eq!(reg.device_count(), 1);
}

#[test]
fn initialize_keeps_device_count() {
    let mut reg = HavenRegistry::new();
    reg.register_device(owner(), imei(1), b"a".to_vec(), 1).unwrap();
    reg.register_device(owner(), imei(2), b"b".to_vec(), 2).unwrap();
    reg.initialize(addr("GADMIN")).unwrap();
    assert_eq!(reg.device_count(), 2);
}

#[test]
fn full_counter_refuses_registration() {
    let mut reg = HavenRegistry::new();
    reg.store_device_count(u32::MAX);
    assert_eq!(
        reg.register_device(owner(), imei(1), b"a".to_vec(), 1),
        Err(RegistryError::DeviceCountFull)
    );
    assert_eq!(reg.get_device(imei(1)), Err(RegistryError::DeviceNotFound));
    assert_eq!(reg.device_count(), u32::MAX);
}

#[test]
fn register_then_get_returns_same_record() {
    let mut reg = HavenRegistry::new();
    let d = reg.register_device(owner(), imei(5), b"Pixel 8".to_vec(), 7).unwrap();
    assert_eq!(reg.get_device(imei(5)), Ok(d));
}

#[test]
fn register_before_initialize_counts_from_zero() {
    let mut reg = HavenRegistry::new();
    reg.register_device(owner(), imei(1), b"a".to_vec(), 1).unwrap();
    reg.register_device(owner(), imei(2), b"b".to_vec(), 2).unwrap();
    assert_eq!(reg.device_count(), 2);
}

#[test]
fn duplicate_registration_is_refused() {
    let mut reg = registry_with_device();
    let r = reg.register_device(stranger(), imei(1), b"Fake".to_vec(), 99);
    assert_eq!(r, Err(RegistryError::DeviceAlreadyRegistered));
    assert_eq!(reg.device_count(), 1);
    assert_eq!(reg.get_device(imei(1)).unwrap().owner, owner());
}

#[test]
fn get_unknown_device_is_refused() {
    let reg = registry_with_device();
    assert_eq!(reg.get_device(imei(9)), Err(RegistryError::DeviceNotFound));
}

#[test]
fn report_stolen_freezes_and_escrows() {
    let mut reg = registry_with_device();
    assert_eq!(reg.report_stolen(owner(), imei(1), 500, b"owner@example.com".to_vec()), Ok(()));
    let d = reg.get_device(imei(1)).unwrap();
    assert!(d.is_stolen);
    assert_eq!(d.recovery_contact, b"owner@example.com".to_vec());
    assert_eq!(reg.get_bounty(imei(1)), 500);
}

#[test]
fn report_stolen_errors() {
    let mut reg = registry_with_device();
    assert_eq!(reg.report_stolen(owner(), imei(2), 10, vec![]), Err(RegistryError::DeviceNotFound));
    assert_eq!(reg.report_stolen(stranger(), imei(1), 10, vec![]), Err(RegistryError::NotOwner));
    assert!(!reg.get_device(imei(1)).unwrap().is_stolen);
    assert_eq!(reg.get_bounty(imei(1)), 0);
}

#[test]
fn second_report_replaces_bounty_and_contact() {
    let mut reg = registry_with_device();
    reg.report_stolen(owner(), imei(1), 10, b"first".to_vec()).unwrap();
    assert_eq!(reg.report_stolen(owner(), imei(1), 20, b"second".to_vec()), Ok(()));
    assert_eq!(reg.get_bounty(imei(1)), 20);
    assert_eq!(reg.get_device(imei(1)).unwrap().recovery_contact, b"second".to_vec());
}

#[test]
fn zero_and_negative_bounties_are_stored() {
    let mut reg = registry_with_device();
    assert_eq!(reg.report_stolen(owner(), imei(1), 0, vec![]), Ok(()));
    assert_eq!(reg.bounty(&imei(1)), Some(0));
    assert_eq!(reg.report_stolen(owner(), imei(1), -5, vec![]), Ok(()));
    assert_eq!(reg.get_bounty(imei(1)), -5);
}

#[test]
fn bounty_defaults_to_zero() {
    let reg = registry_with_device();
    assert_eq!(reg.get_bounty(imei(1)), 0);
    assert_eq!(reg.get_bounty(imei(3)), 0);
}

#[test]
fn confirm_recovery_releases_bounty() {
    let mut reg = registry_with_device();
    reg.report_stolen(owner(), imei(1), 750, b"+15550100".to_vec()).unwrap();
    assert_eq!(reg.confirm_recovery(owner(), imei(1), finder()), Ok(Payout { recipient: finder(), amount: 750 }));
    let d = reg.get_device(imei(1)).unwrap();
    assert!(!d.is_stolen);
    assert!(d.recovery_contact.is_empty());
    assert_eq!(reg.get_bounty(imei(1)), 0);
    assert_eq!(reg.bounty(&imei(1)), None);
}

#[test]
fn confirm_recovery_errors() {
    let mut reg = registry_with_device();
    assert_eq!(reg.confirm_recovery(owner(), imei(1), finder()), Err(RegistryError::NotStolen));
    assert_eq!(reg.confirm_recovery(owner(), imei(4), finder()), Err(RegistryError::DeviceNotFound));
    reg.report_stolen(owner(), imei(1), 5, vec![]).unwrap();
    assert_eq!(reg.confirm_recovery(stranger(), imei(1), finder()), Err(RegistryError::NotOwner));
    assert!(reg.get_device(imei(1)).unwrap().is_stolen);
    assert_eq!(reg.get_bounty(imei(1)), 5);
}

#[test]
fn recovery_undoes_report() {
    let mut reg = registry_with_device();
    let before = reg.get_device(imei(1)).unwrap();
    reg.report_stolen(owner(), imei(1), 300, b"call me".to_vec()).unwrap();
    reg.confirm_recovery(owner(), imei(1), finder()).unwrap();
    assert_eq!(reg.get_device(imei(1)), Ok(before));
    assert_eq!(reg.bounty(&imei(1)), None);
    assert_eq!(reg.device_count(), 1);
}

#[test]
fn insurance_claim_sets_insurer_once() {
    let mut reg = registry_with_device();
    reg.report_stolen(owner(), imei(1), 100, vec![]).unwrap();
    assert_eq!(reg.file_insurance_claim(owner(), imei(1), insurer()), Ok(()));
    let d = reg.get_device(imei(1)).unwrap();
    assert_eq!(d.insurer, Some(insurer()));
    assert!(d.is_stolen);
    assert_eq!(d.owner, owner());
    assert_eq!(reg.get_bounty(imei(1)), 100);
    assert_eq!(
        reg.file_insurance_claim(owner(), imei(1), stranger()),
        Err(RegistryError::ClaimAlreadyFiled)
    );
    assert_eq!(reg.get_device(imei(1)).unwrap().insurer, Some(insurer()));
}

#[test]
fn insurance_claim_errors() {
    let mut reg = registry_with_device();
    assert_eq!(reg.file_insurance_claim(owner(), imei(8), insurer()), Err(RegistryError::DeviceNotFound));
    assert_eq!(reg.file_insurance_claim(stranger(), imei(1), insurer()), Err(RegistryError::NotOwner));
    assert!(reg.get_device(imei(1)).unwrap().insurer.is_none());
}

#[test]
fn claim_ends_owner_control() {
    let mut reg = registry_with_device();
    reg.report_stolen(owner(), imei(1), 1, b"c".to_vec()).unwrap();
    reg.file_insurance_claim(owner(), imei(1), insurer()).unwrap();
    assert_eq!(reg.confirm_recovery(owner(), imei(1), finder()), Err(RegistryError::DeviceClaimed));
    assert_eq!(reg.report_stolen(owner(), imei(1), 9, vec![]), Err(RegistryError::DeviceClaimed));
    let d = reg.get_device(imei(1)).unwrap();
    assert!(d.is_stolen);
    assert_eq!(d.insurer, Some(insurer()));
    assert_eq!(reg.get_bounty(imei(1)), 1);
    assert_eq!(reg.confirm_recovery(stranger(), imei(1), finder()), Err(RegistryError::NotOwner));
}

#[test]
fn claim_on_unstolen_device_blocks_report() {
    let mut reg = registry_with_device();
    reg.file_insurance_claim(owner(), imei(1), insurer()).unwrap();
    assert_eq!(reg.report_stolen(owner(), imei(1), 9, vec![]), Err(RegistryError::DeviceClaimed));
    assert_eq!(reg.bounty(&imei(1)), None);
}

#[test]
fn recovery_restores_registration_after_other_calls() {
    let mut reg = HavenRegistry::new();
    let d = reg.register_device(owner(), imei(1), b"m".to_vec(), 3).unwrap();
    reg.register_device(stranger(), imei(2), b"n".to_vec(), 4).unwrap();
    reg.report_stolen(owner(), imei(1), 7, b"a".to_vec()).unwrap();
    reg.report_stolen(stranger(), imei(2), 8, vec![]).unwrap();
    let _ = reg.report_stolen(stranger(), imei(1), 1, vec![]);
    reg.report_stolen(owner(), imei(1), 11, b"b".to_vec()).unwrap();
    reg.initialize(addr("GADMIN")).unwrap();
    assert_eq!(reg.confirm_recovery(owner(), imei(1), finder()).unwrap().amount, 11);
    assert_eq!(reg.get_device(imei(1)), Ok(d));
    assert_eq!(reg.bounty(&imei(1)), None);
    assert_eq!(reg.get_bounty(imei(2)), 8);
}

#[test]
fn count_tracks_registrations() {
    let mut reg = HavenRegistry::new();
    reg.initialize(addr("GADMIN")).unwrap();
    for i in 0..5u8 {
        reg.register_device(owner(), imei(i * 40), vec![i], i as u32).unwrap();
    }
    let _ = reg.register_device(owner(), imei(0), vec![], 0);
    reg.report_stolen(owner(), imei(40), 3, vec![]).unwrap();
    assert_eq!(reg.device_count(), 5);
}

#[test]
fn module_functions_match_methods() {
    let mut reg = HavenRegistry::new();
    let d = device::register_device(&mut reg, owner(), imei(2), b"m".to_vec(), 3).unwrap();
    assert_eq!(device::get_device(&reg, imei(2)), Ok(d));
    killswitch::report_stolen(&mut reg, owner(), imei(2), 9, vec![1]).unwrap();
    assert_eq!(killswitch::get_bounty(&reg, imei(2)), 9);
    assert_eq!(recovery::confirm_recovery(&mut reg, owner(), imei(2), finder()).unwrap().amount, 9);
}

#[test]
fn storage_accessors_roundtrip() {
    let mut reg = HavenRegistry::new();
    reg.store_admin(addr("GADMIN"));
    reg.store_device_count(17);
    let d = DeviceState {
        owner: owner(),
        hashed_imei: imei(6),
        device_model: b"x".to_vec(),
        is_stolen: true,
        registered_at: 11,
        recovery_contact: b"c".to_vec(),
        insurer: None,
    };
    reg.store_device(d.clone());
    reg.store_bounty(imei(6), 44);
    assert_eq!(reg.admin(), Some(addr("GADMIN")));
    assert_eq!(reg.device_count(), 17);
    assert_eq!(reg.device(&imei(6)), Some(d));
    assert_eq!(reg.bounty(&imei(6)), Some(44));
    reg.remove_bounty(&imei(6));
    assert_eq!(reg.bounty(&imei(6)), None);
    assert_eq!(reg.confirm_recovery(owner(), imei(6), finder()), Ok(Payout { recipient: finder(), amount: 0 }));
}
