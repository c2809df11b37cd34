//! Properties of the registry that span requests, proved over the state
//! machine of `model` that every operation's contract refers to.

use vstd::prelude::*;
use crate::model::{fresh_device, run, RegistryView, Request};
use crate::types::{DeviceView, RegistryError};

verus! {

/// Whether `request` is one by `owner` about the device under `hashed_imei`
/// that can change its record or bounty.
pub open spec fn owner_acts_on(request: Request, owner: Seq<u8>, hashed_imei: Seq<u8>) -> bool {
    match request {
        Request::ReportStolen { owner: o, hashed_imei: h, .. } => o == owner && h == hashed_imei,
        Request::ConfirmRecovery { owner: o, hashed_imei: h } => o == owner && h == hashed_imei,
        Request::FileInsuranceClaim { owner: o, hashed_imei: h, .. } => o == owner && h == hashed_imei,
        _ => false,
    }
}

/// Whether `request` is a registration that `v` accepts.
pub open spec fn registers(v: RegistryView, request: Request) -> bool {
    request is RegisterDevice && v.apply(request) is Ok
}

/// Whether record `x` is the registration `d`: same owner, hashed IMEI,
/// model and registration sequence, whatever its stolen flag, recovery
/// contact and insurer.
pub open spec fn same_registration(x: DeviceView, d: DeviceView) -> bool {
    x == DeviceView { is_stolen: x.is_stolen, recovery_contact: x.recovery_contact, insurer: x.insurer, ..d }
}

/// A registry can be initialized only once: after a successful
/// initialization the administrator is set, the device counter and records
/// are kept, and every further initialization is refused.
pub proof fn lemma_initialize_once(v: RegistryView, admin: Seq<u8>, other: Seq<u8>)
    requires
        v.initialize(admin) is Ok,
    ensures
        v.initialize(admin)->Ok_0.admin == Some(admin),
        v.initialize(admin)->Ok_0.device_count == v.device_count,
        v.initialize(admin)->Ok_0.devices == v.devices,
        v.initialize(admin)->Ok_0.initialize(other) == Err::<RegistryView, RegistryError>(RegistryError::AlreadyInitialized),
{
}

/// After a device is registered, looking it up gives the fresh record, and
/// registering the same hashed IMEI again, by anyone, is refused.
pub proof fn lemma_register_then_lookup(
    v: RegistryView,
    owner: Seq<u8>,
    hashed_imei: Seq<u8>,
    device_model: Seq<u8>,
    ledger_sequence: u32,
    owner2: Seq<u8>,
    device_model2: Seq<u8>,
    ledger_sequence2: u32,
)
    requires
        v.register_device(owner, hashed_imei, device_model, ledger_sequence) is Ok,
    ensures
        ({
            let p = v.register_device(owner, hashed_imei, device_model, ledger_sequence)->Ok_0;
            &&& p.lookup(hashed_imei) == Ok::<DeviceView, RegistryError>(
                fresh_device(owner, hashed_imei, device_model, ledger_sequence))
            &&& p.register_device(owner2, hashed_imei, device_model2, ledger_sequence2)
                == Err::<RegistryView, RegistryError>(RegistryError::DeviceAlreadyRegistered)
        }),
{
}

/// Every request keeps the state valid: finitely many entries, each device
/// record under its own hashed IMEI.
pub proof fn lemma_next_preserves_valid(v: RegistryView, request: Request)
    requires
        v.valid(),
    ensures
        v.next(request).valid(),
{
    let p = v.next(request);
    assert forall|k: Seq<u8>| #[trigger] p.devices.contains_key(k) implies p.devices[k].hashed_imei == k by {
        if !v.devices.contains_key(k) {
            assert(request is RegisterDevice);
        }
    }
}

/// Escrow follows the stolen state: every request keeps each bounty tied to
/// a registered device that is reported as stolen.
pub proof fn lemma_next_preserves_escrow(v: RegistryView, request: Request)
    requires
        v.escrow_consistent(),
    ensures
        v.next(request).escrow_consistent(),
{
    let p = v.next(request);
    assert forall|k: Seq<u8>| #[trigger] p.bounties.contains_key(k) implies p.devices.contains_key(k) && p.devices[k].is_stolen by {
        if v.bounties.contains_key(k) {
            assert(v.devices.contains_key(k));
        }
    }
}

/// Each accepted registration raises the device counter by exactly one, and
/// every other request, accepted or refused, leaves it unchanged.
pub proof fn lemma_count_step(v: RegistryView, request: Request)
    ensures
        v.next(request).device_count == if registers(v, request) { v.device_count + 1 } else { v.device_count as int },
{
}

/// One request keeps the device counter equal to the number of registered
/// devices.
pub proof fn lemma_count_matches_devices(v: RegistryView, request: Request)
    requires
        v.valid(),
        v.device_count == v.devices.dom().len(),
    ensures
        v.next(request).device_count == v.next(request).devices.dom().len(),
{
    let p = v.next(request);
    match request {
        Request::RegisterDevice { owner, hashed_imei, device_model, ledger_sequence } => {
            if v.apply(request) is Ok {
                assert(!v.devices.contains_key(hashed_imei));
                assert(p.devices.dom() == v.devices.dom().insert(hashed_imei));
            }
        },
        Request::Initialize { .. } => {},
        _ => {
            if v.apply(request) is Ok {
                let k = match request {
                    Request::ReportStolen { hashed_imei, .. } => hashed_imei,
                    Request::ConfirmRecovery { hashed_imei, .. } => hashed_imei,
                    Request::FileInsuranceClaim { hashed_imei, .. } => hashed_imei,
                    _ => Seq::empty(),
                };
                assert(v.devices.contains_key(k));
                assert(p.devices.dom() =~= v.devices.dom());
            }
        },
    }
}

/// Any sequence of requests keeps the state valid, escrow consistent, and
/// the device counter equal to the number of registered devices.
pub proof fn lemma_run_keeps_invariants(v: RegistryView, requests: Seq<Request>)
    requires
        v.valid(),
        v.escrow_consistent(),
        v.device_count == v.devices.dom().len(),
    ensures
        run(v, requests).valid(),
        run(v, requests).escrow_consistent(),
        run(v, requests).device_count == run(v, requests).devices.dom().len(),
    decreases requests.len(),
{
    if requests.len() > 0 {
        lemma_run_keeps_invariants(v, requests.drop_last());
        let u = run(v, requests.drop_last());
        lemma_next_preserves_valid(u, requests.last());
        lemma_next_preserves_escrow(u, requests.last());
        lemma_count_matches_devices(u, requests.last());
    }
}

/// From a freshly deployed registry, whatever requests follow (accepted or
/// refused), the device counter equals the number of registered devices.
pub proof fn lemma_count_from_empty(requests: Seq<Request>)
    ensures
        run(RegistryView::empty(), requests).device_count == run(RegistryView::empty(), requests).devices.dom().len(),
        run(RegistryView::empty(), requests).valid(),
        run(RegistryView::empty(), requests).escrow_consistent(),
{
    let e = RegistryView::empty();
    assert(e.devices.dom() =~= Set::<Seq<u8>>::empty());
    lemma_run_keeps_invariants(e, requests);
}

/// Registration is permanent: a registered device stays registered, and its
/// owner, hashed IMEI, model and registration sequence never change.
pub proof fn lemma_records_persist(v: RegistryView, request: Request, hashed_imei: Seq<u8>)
    requires
        v.devices.contains_key(hashed_imei),
    ensures
        v.next(request).devices.contains_key(hashed_imei),
        v.next(request).devices[hashed_imei].owner == v.devices[hashed_imei].owner,
        v.next(request).devices[hashed_imei].hashed_imei == v.devices[hashed_imei].hashed_imei,
        v.next(request).devices[hashed_imei].device_model == v.devices[hashed_imei].device_model,
        v.next(request).devices[hashed_imei].registered_at == v.devices[hashed_imei].registered_at,
{
}

/// An insurance claim is permanent and ends the owner's control: once a
/// device has an insurer, no request changes its record or its escrowed
/// bounty, and the owner's reports and recoveries are refused.
pub proof fn lemma_claim_freezes_device(v: RegistryView, request: Request, hashed_imei: Seq<u8>, bounty_amount: i128, recovery_contact: Seq<u8>)
    requires
        v.devices.contains_key(hashed_imei),
        v.devices[hashed_imei].insurer is Some,
    ensures
        v.next(request).devices[hashed_imei] == v.devices[hashed_imei],
        v.next(request).bounty(hashed_imei) == v.bounty(hashed_imei),
        v.report_stolen(v.devices[hashed_imei].owner, hashed_imei, bounty_amount, recovery_contact)
            == Err::<RegistryView, RegistryError>(RegistryError::DeviceClaimed),
        v.confirm_recovery(v.devices[hashed_imei].owner, hashed_imei)
            == Err::<RegistryView, RegistryError>(RegistryError::DeviceClaimed),
{
}

/// Only the owner changes a device: a request that changes a device's
/// record or escrowed bounty is one by its registered owner about it.
pub proof fn lemma_only_owner_changes_device(v: RegistryView, request: Request, hashed_imei: Seq<u8>)
    requires
        v.valid(),
        v.escrow_consistent(),
    ensures
        v.devices.contains_key(hashed_imei) && v.next(request).devices[hashed_imei] != v.devices[hashed_imei]
            ==> owner_acts_on(request, v.devices[hashed_imei].owner, hashed_imei),
        v.next(request).bounty(hashed_imei) != v.bounty(hashed_imei)
            ==> v.devices.contains_key(hashed_imei) && owner_acts_on(request, v.devices[hashed_imei].owner, hashed_imei),
{
}

/// A device can be claimed by an insurer only once: after a successful
/// claim the insurer is recorded, and every further claim on the device is
/// refused.
pub proof fn lemma_claim_once(
    v: RegistryView,
    owner: Seq<u8>,
    hashed_imei: Seq<u8>,
    insurer: Seq<u8>,
    owner2: Seq<u8>,
    insurer2: Seq<u8>,
)
    requires
        v.file_insurance_claim(owner, hashed_imei, insurer) is Ok,
    ensures
        ({
            let p = v.file_insurance_claim(owner, hashed_imei, insurer)->Ok_0;
            &&& p.devices[hashed_imei].insurer == Some(insurer)
            &&& p.file_insurance_claim(owner2, hashed_imei, insurer2) is Err
        }),
{
}

/// A theft report followed by recovery: the report escrows its amount, the
/// owner's recovery then succeeds, releases it and leaves the record as it
/// was before the report except that it is not stolen and has no recovery
/// contact; starting from such a record with no bounty, it restores the
/// state exactly.
pub proof fn lemma_recovery_undoes_report(
    v: RegistryView,
    owner: Seq<u8>,
    hashed_imei: Seq<u8>,
    bounty_amount: i128,
    recovery_contact: Seq<u8>,
)
    requires
        v.report_stolen(owner, hashed_imei, bounty_amount, recovery_contact) is Ok,
    ensures
        ({
            let p = v.report_stolen(owner, hashed_imei, bounty_amount, recovery_contact)->Ok_0;
            let d = v.devices[hashed_imei];
            &&& p.bounty(hashed_imei) == bounty_amount
            &&& p.confirm_recovery(owner, hashed_imei) is Ok
            &&& p.confirm_recovery(owner, hashed_imei)->Ok_0 == (RegistryView {
                devices: v.devices.insert(hashed_imei, DeviceView { is_stolen: false, recovery_contact: Seq::empty(), ..d }),
                bounties: v.bounties.remove(hashed_imei),
                ..v
            })
            &&& (!d.is_stolen && d.recovery_contact == Seq::<u8>::empty() && !v.bounties.contains_key(hashed_imei)
                ==> p.confirm_recovery(owner, hashed_imei)->Ok_0 == v)
        }),
{
    let p = v.report_stolen(owner, hashed_imei, bounty_amount, recovery_contact)->Ok_0;
    let d = v.devices[hashed_imei];
    let q = p.confirm_recovery(owner, hashed_imei)->Ok_0;
    assert(q.devices =~= v.devices.insert(hashed_imei, DeviceView { is_stolen: false, recovery_contact: Seq::empty(), ..d }));
    assert(q.bounties =~= v.bounties.remove(hashed_imei));
    if !d.is_stolen && d.recovery_contact == Seq::<u8>::empty() && !v.bounties.contains_key(hashed_imei) {
        assert(q.devices =~= v.devices);
        assert(q.bounties =~= v.bounties);
    }
}

/// Whatever requests follow, a registered device keeps its registration.
pub proof fn lemma_run_keeps_registration(v: RegistryView, requests: Seq<Request>, hashed_imei: Seq<u8>, d: DeviceView)
    requires
        v.devices.contains_key(hashed_imei),
        same_registration(v.devices[hashed_imei], d),
    ensures
        run(v, requests).devices.contains_key(hashed_imei),
        same_registration(run(v, requests).devices[hashed_imei], d),
    decreases requests.len(),
{
    if requests.len() > 0 {
        lemma_run_keeps_registration(v, requests.drop_last(), hashed_imei, d);
        lemma_records_persist(run(v, requests.drop_last()), requests.last(), hashed_imei);
    }
}

/// Recovery restores the registration: after a device is registered and any
/// requests follow (reports, recoveries, other devices' business, refused
/// requests), the owner's recovery succeeds exactly when the device is
/// reported stolen and not claimed by an insurer, and then leaves the record
/// exactly as it was registered, with no bounty escrowed.
pub proof fn lemma_recovery_restores_registration(
    v: RegistryView,
    owner: Seq<u8>,
    hashed_imei: Seq<u8>,
    device_model: Seq<u8>,
    ledger_sequence: u32,
    requests: Seq<Request>,
)
    requires
        v.register_device(owner, hashed_imei, device_model, ledger_sequence) is Ok,
    ensures
        ({
            let q = run(v.register_device(owner, hashed_imei, device_model, ledger_sequence)->Ok_0, requests);
            &&& q.devices.contains_key(hashed_imei)
            &&& (q.confirm_recovery(owner, hashed_imei) is Ok
                <==> q.devices[hashed_imei].is_stolen && q.devices[hashed_imei].insurer is None)
            &&& (q.confirm_recovery(owner, hashed_imei) is Ok ==> {
                &&& q.confirm_recovery(owner, hashed_imei)->Ok_0.devices[hashed_imei]
                    == fresh_device(owner, hashed_imei, device_model, ledger_sequence)
                &&& !q.confirm_recovery(owner, hashed_imei)->Ok_0.bounties.contains_key(hashed_imei)
            })
        }),
{
    let p = v.register_device(owner, hashed_imei, device_model, ledger_sequence)->Ok_0;
    let d = fresh_device(owner, hashed_imei, device_model, ledger_sequence);
    lemma_run_keeps_registration(p, requests, hashed_imei, d);
}

/// Initialization: refused exactly when an administrator is already set,
/// whatever the address; when accepted it sets that administrator and
/// changes nothing else.
pub proof fn lemma_initialize_outcome(v: RegistryView, admin: Seq<u8>)
    ensures
        v.initialize(admin) is Ok <==> v.admin is None,
        v.initialize(admin) is Err ==> v.initialize(admin)->Err_0 == RegistryError::AlreadyInitialized,
        v.initialize(admin) is Ok ==> {
            let p = v.initialize(admin)->Ok_0;
            &&& p.admin == Some(admin)
            &&& p.device_count == v.device_count
            &&& p.devices == v.devices
            &&& p.bounties == v.bounties
        },
{
}

/// Registration: accepted exactly when the hashed IMEI is unregistered and
/// the counter can still count; the new record holds the given owner,
/// hashed IMEI, model and ledger sequence, is not stolen, has an empty
/// recovery contact and no insurer; no other record or bounty changes, and
/// the counter goes up by one.
pub proof fn lemma_register_outcome(
    v: RegistryView,
    owner: Seq<u8>,
    hashed_imei: Seq<u8>,
    device_model: Seq<u8>,
    ledger_sequence: u32,
)
    ensures
        ({
            let r = v.register_device(owner, hashed_imei, device_model, ledger_sequence);
            &&& r is Ok <==> !v.devices.contains_key(hashed_imei) && v.device_count < u32::MAX
            &&& v.devices.contains_key(hashed_imei) ==> r == Err::<RegistryView, RegistryError>(RegistryError::DeviceAlreadyRegistered)
            &&& !v.devices.contains_key(hashed_imei) && v.device_count == u32::MAX
                ==> r == Err::<RegistryView, RegistryError>(RegistryError::DeviceCountFull)
            &&& r is Ok ==> {
                let p = r->Ok_0;
                &&& p.devices.contains_key(hashed_imei)
                &&& p.devices[hashed_imei].owner == owner
                &&& p.devices[hashed_imei].hashed_imei == hashed_imei
                &&& p.devices[hashed_imei].device_model == device_model
                &&& p.devices[hashed_imei].registered_at == ledger_sequence
                &&& !p.devices[hashed_imei].is_stolen
                &&& p.devices[hashed_imei].recovery_contact.len() == 0
                &&& p.devices[hashed_imei].insurer is None
                &&& p.devices.remove(hashed_imei) == v.devices
                &&& p.device_count == v.device_count + 1
                &&& p.bounties == v.bounties
                &&& p.admin == v.admin
            }
        }),
{
    let r = v.register_device(owner, hashed_imei, device_model, ledger_sequence);
    if r is Ok {
        assert(r->Ok_0.devices.remove(hashed_imei) =~= v.devices);
    }
}

/// Lookup returns exactly the stored record of a registered device, and is
/// refused with `DeviceNotFound` for any other hashed IMEI.
pub proof fn lemma_lookup_outcome(v: RegistryView, hashed_imei: Seq<u8>)
    ensures
        v.devices.contains_key(hashed_imei) ==> v.lookup(hashed_imei) == Ok::<DeviceView, RegistryError>(v.devices[hashed_imei]),
        !v.devices.contains_key(hashed_imei) ==> v.lookup(hashed_imei) == Err::<DeviceView, RegistryError>(RegistryError::DeviceNotFound),
{
}

/// Theft report: accepted exactly when the device is registered, `owner`
/// owns it and no insurer has claimed it, for every bounty amount and
/// recovery contact. The record then differs from the previous one only in
/// being stolen and holding the given contact; the bounty reads the given
/// amount; nothing else changes. Refusals say why.
pub proof fn lemma_report_stolen_outcome(
    v: RegistryView,
    owner: Seq<u8>,
    hashed_imei: Seq<u8>,
    bounty_amount: i128,
    recovery_contact: Seq<u8>,
)
    ensures
        ({
            let r = v.report_stolen(owner, hashed_imei, bounty_amount, recovery_contact);
            let d = v.devices[hashed_imei];
            &&& r is Ok <==> v.devices.contains_key(hashed_imei) && d.owner == owner && d.insurer is None
            &&& !v.devices.contains_key(hashed_imei) ==> r == Err::<RegistryView, RegistryError>(RegistryError::DeviceNotFound)
            &&& v.devices.contains_key(hashed_imei) && d.owner != owner ==> r == Err::<RegistryView, RegistryError>(RegistryError::NotOwner)
            &&& v.devices.contains_key(hashed_imei) && d.owner == owner && d.insurer is Some
                ==> r == Err::<RegistryView, RegistryError>(RegistryError::DeviceClaimed)
            &&& r is Ok ==> {
                let p = r->Ok_0;
                &&& p.devices.contains_key(hashed_imei)
                &&& p.devices[hashed_imei] == (DeviceView { is_stolen: true, recovery_contact, ..d })
                &&& p.devices[hashed_imei].recovery_contact == recovery_contact
                &&& p.lookup(hashed_imei) == Ok::<DeviceView, RegistryError>(p.devices[hashed_imei])
                &&& p.devices.remove(hashed_imei) == v.devices.remove(hashed_imei)
                &&& p.bounty(hashed_imei) == bounty_amount
                &&& p.bounties.remove(hashed_imei) == v.bounties.remove(hashed_imei)
                &&& p.device_count == v.device_count
                &&& p.admin == v.admin
            }
        }),
{
    let r = v.report_stolen(owner, hashed_imei, bounty_amount, recovery_contact);
    if r is Ok {
        assert(r->Ok_0.devices.remove(hashed_imei) =~= v.devices.remove(hashed_imei));
        assert(r->Ok_0.bounties.remove(hashed_imei) =~= v.bounties.remove(hashed_imei));
    }
}

/// Recovery: accepted exactly when the device is registered, `owner` owns
/// it, no insurer has claimed it and it is reported stolen. The record then
/// differs from the previous one only in not being stolen and having an
/// empty recovery contact; its bounty is gone; nothing else changes.
pub proof fn lemma_confirm_recovery_outcome(v: RegistryView, owner: Seq<u8>, hashed_imei: Seq<u8>)
    ensures
        ({
            let r = v.confirm_recovery(owner, hashed_imei);
            let d = v.devices[hashed_imei];
            &&& r is Ok <==> v.devices.contains_key(hashed_imei) && d.owner == owner && d.insurer is None && d.is_stolen
            &&& !v.devices.contains_key(hashed_imei) ==> r == Err::<RegistryView, RegistryError>(RegistryError::DeviceNotFound)
            &&& v.devices.contains_key(hashed_imei) && d.owner != owner ==> r == Err::<RegistryView, RegistryError>(RegistryError::NotOwner)
            &&& v.devices.contains_key(hashed_imei) && d.owner == owner && d.insurer is Some
                ==> r == Err::<RegistryView, RegistryError>(RegistryError::DeviceClaimed)
            &&& v.devices.contains_key(hashed_imei) && d.owner == owner && d.insurer is None && !d.is_stolen
                ==> r == Err::<RegistryView, RegistryError>(RegistryError::NotStolen)
            &&& r is Ok ==> {
                let p = r->Ok_0;
                &&& p.devices.contains_key(hashed_imei)
                &&& p.devices[hashed_imei] == (DeviceView { is_stolen: false, recovery_contact: Seq::empty(), ..d })
                &&& p.devices.remove(hashed_imei) == v.devices.remove(hashed_imei)
                &&& !p.bounties.contains_key(hashed_imei)
                &&& p.bounty(hashed_imei) == 0
                &&& p.bounties == v.bounties.remove(hashed_imei)
                &&& p.device_count == v.device_count
                &&& p.admin == v.admin
            }
        }),
{
    let r = v.confirm_recovery(owner, hashed_imei);
    if r is Ok {
        assert(r->Ok_0.devices.remove(hashed_imei) =~= v.devices.remove(hashed_imei));
    }
}

/// Insurance claim: accepted exactly when the device is registered, `owner`
/// owns it and no claim has been filed. The record then differs from the
/// previous one only in its insurer, which is the given one: its stolen
/// flag and recovery contact are unchanged; no bounty and no other record
/// changes.
pub proof fn lemma_claim_outcome(v: RegistryView, owner: Seq<u8>, hashed_imei: Seq<u8>, insurer: Seq<u8>)
    ensures
        ({
            let r = v.file_insurance_claim(owner, hashed_imei, insurer);
            let d = v.devices[hashed_imei];
            &&& r is Ok <==> v.devices.contains_key(hashed_imei) && d.owner == owner && d.insurer is None
            &&& !v.devices.contains_key(hashed_imei) ==> r == Err::<RegistryView, RegistryError>(RegistryError::DeviceNotFound)
            &&& v.devices.contains_key(hashed_imei) && d.owner != owner ==> r == Err::<RegistryView, RegistryError>(RegistryError::NotOwner)
            &&& v.devices.contains_key(hashed_imei) && d.owner == owner && d.insurer is Some
                ==> r == Err::<RegistryView, RegistryError>(RegistryError::ClaimAlreadyFiled)
            &&& r is Ok ==> {
                let p = r->Ok_0;
                &&& p.devices.contains_key(hashed_imei)
                &&& p.devices[hashed_imei] == (DeviceView { insurer: Some(insurer), ..d })
                &&& p.devices[hashed_imei].is_stolen == d.is_stolen
                &&& p.devices[hashed_imei].recovery_contact == d.recovery_contact
                &&& p.devices.remove(hashed_imei) == v.devices.remove(hashed_imei)
                &&& p.bounties == v.bounties
                &&& p.device_count == v.device_count
                &&& p.admin == v.admin
            }
        }),
{
    let r = v.file_insurance_claim(owner, hashed_imei, insurer);
    if r is Ok {
        assert(r->Ok_0.devices.remove(hashed_imei) =~= v.devices.remove(hashed_imei));
    }
}

/// The escrowed bounty reads the stored amount, and zero when none is stored.
pub proof fn lemma_bounty_outcome(v: RegistryView, hashed_imei: Seq<u8>)
    ensures
        v.bounties.contains_key(hashed_imei) ==> v.bounty(hashed_imei) == v.bounties[hashed_imei],
        !v.bounties.contains_key(hashed_imei) ==> v.bounty(hashed_imei) == 0,
{
}

} // verus!
