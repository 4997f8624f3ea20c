//! The contract for the accounts and the basic machinery of the runtime.

use crate::binder::{binds_required, lemma_supplied_slots_bound, supplies};
use crate::contract::{
    distinct_names, mark, Binding, BindingView, Category, Contract, ContractView, Slot, SlotView,
};
use crate::model::views;
use crate::profile::{supplied_views, Profile, Supplied};
use vstd::prelude::*;

verus! {

/// What a deployment supplies for the accounts and the basic machinery of the runtime.
///
/// A slot without a default is a method that the deployment must write. A
/// slot with a default is a method that it may write: `None` leaves the
/// contract's default in place.
pub trait SystemConfig {
    /// `AccountId`.
    fn account_id(&self) -> Binding;

    /// `Lookup`.
    fn lookup(&self) -> Binding;

    /// `SS58Prefix`.
    fn ss58_prefix(&self) -> Binding;

    /// `Version`.
    fn version(&self) -> Binding;

    /// `ExistentialDeposit`.
    fn existential_deposit(&self) -> Binding;

    /// `ScheduleOrigin`.
    fn schedule_origin(&self) -> Binding;

    /// `PreimageOrigin`.
    fn preimage_origin(&self) -> Binding;

    /// `ProxyType`.
    fn proxy_type(&self) -> Binding;

    /// `MaxConsumers`; by default 16.
    fn max_consumers(&self) -> (supplied: Option<Binding>)
        default_ensures
            supplied is None,
    {
        None
    }

    /// `MaxSignatories`; by default 100.
    fn max_signatories(&self) -> (supplied: Option<Binding>)
        default_ensures
            supplied is None,
    {
        None
    }

    /// `MaxPendingProxies`; by default 32.
    fn max_pending_proxies(&self) -> (supplied: Option<Binding>)
        default_ensures
            supplied is None,
    {
        None
    }

    /// `MaxProxies`; by default 32.
    fn max_proxies(&self) -> (supplied: Option<Binding>)
        default_ensures
            supplied is None,
    {
        None
    }

    /// `MaxFreezes`; by default 0.
    fn max_freezes(&self) -> (supplied: Option<Binding>)
        default_ensures
            supplied is None,
    {
        None
    }

    /// `MaxLocks`; by default 50.
    fn max_locks(&self) -> (supplied: Option<Binding>)
        default_ensures
            supplied is None,
    {
        None
    }

    /// `MaxReserves`; by default 50.
    fn max_reserves(&self) -> (supplied: Option<Binding>)
        default_ensures
            supplied is None,
    {
        None
    }
}

/// The slots of the contract, in the order of their declaration.
pub open spec fn system_slots() -> Seq<SlotView> {
    Seq::empty()
        .push(SlotView::required("AccountId"@, Category::TypeAlias))
        .push(SlotView::required("Lookup"@, Category::TypeAlias))
        .push(SlotView::required("SS58Prefix"@, Category::TypeAlias))
        .push(SlotView::required("Version"@, Category::TypeAlias))
        .push(SlotView::required("ExistentialDeposit"@, Category::TypeAlias))
        .push(SlotView::required("ScheduleOrigin"@, Category::Origin))
        .push(SlotView::required("PreimageOrigin"@, Category::Origin))
        .push(SlotView::required("ProxyType"@, Category::TypeAlias))
        .push(SlotView::defaulted("MaxConsumers"@, Category::Constant, BindingView::Constant(16)))
        .push(SlotView::defaulted("MaxSignatories"@, Category::Constant, BindingView::Constant(100)))
        .push(SlotView::defaulted("MaxPendingProxies"@, Category::Constant, BindingView::Constant(32)))
        .push(SlotView::defaulted("MaxProxies"@, Category::Constant, BindingView::Constant(32)))
        .push(SlotView::defaulted("MaxFreezes"@, Category::Constant, BindingView::Constant(0)))
        .push(SlotView::defaulted("MaxLocks"@, Category::Constant, BindingView::Constant(50)))
        .push(SlotView::defaulted("MaxReserves"@, Category::Constant, BindingView::Constant(50)))
}

/// The schema of the contract.
pub open spec fn system_schema() -> ContractView {
    ContractView {
        name: "SystemConfig"@,
        slots: system_slots(),
        modules: Seq::empty(),
        benchmark: None,
    }
}

/// The slots of the contract have names of their own, so the schema is
/// well formed.
pub proof fn lemma_system_schema()
    ensures
        distinct_names(system_slots()),
        system_schema().wf(),
{
    reveal_strlit("AccountId");
    reveal_strlit("Lookup");
    reveal_strlit("SS58Prefix");
    reveal_strlit("Version");
    reveal_strlit("ExistentialDeposit");
    reveal_strlit("ScheduleOrigin");
    reveal_strlit("PreimageOrigin");
    reveal_strlit("ProxyType");
    reveal_strlit("MaxConsumers");
    reveal_strlit("MaxSignatories");
    reveal_strlit("MaxPendingProxies");
    reveal_strlit("MaxProxies");
    reveal_strlit("MaxFreezes");
    reveal_strlit("MaxLocks");
    reveal_strlit("MaxReserves");
    assert(mark("AccountId"@) == (9nat, 'o', 'n', ' '));
    assert(mark("Lookup"@) == (6nat, 'k', 'p', ' '));
    assert(mark("SS58Prefix"@) == (10nat, '8', 'r', ' '));
    assert(mark("Version"@) == (7nat, 's', 'o', ' '));
    assert(mark("ExistentialDeposit"@) == (18nat, 's', 'e', 'p'));
    assert(mark("ScheduleOrigin"@) == (14nat, 'e', 'u', 'n'));
    assert(mark("PreimageOrigin"@) == (14nat, 'i', 'a', 'n'));
    assert(mark("ProxyType"@) == (9nat, 'x', 'T', ' '));
    assert(mark("MaxConsumers"@) == (12nat, 'C', 'n', ' '));
    assert(mark("MaxSignatories"@) == (14nat, 'S', 'g', 's'));
    assert(mark("MaxPendingProxies"@) == (17nat, 'P', 'n', 'x'));
    assert(mark("MaxProxies"@) == (10nat, 'P', 'o', ' '));
    assert(mark("MaxFreezes"@) == (10nat, 'F', 'e', ' '));
    assert(mark("MaxLocks"@) == (8nat, 'L', 'c', ' '));
    assert(mark("MaxReserves"@) == (11nat, 'R', 's', ' '));
}

/// Builds the contract.
pub fn system_contract() -> (contract: Contract)
    ensures
        contract@ == system_schema(),
        contract@.wf(),
{
    let mut slots: Vec<Slot> = Vec::new();
    slots.push(Slot::required("AccountId", Category::TypeAlias));
    slots.push(Slot::required("Lookup", Category::TypeAlias));
    slots.push(Slot::required("SS58Prefix", Category::TypeAlias));
    slots.push(Slot::required("Version", Category::TypeAlias));
    slots.push(Slot::required("ExistentialDeposit", Category::TypeAlias));
    slots.push(Slot::required("ScheduleOrigin", Category::Origin));
    slots.push(Slot::required("PreimageOrigin", Category::Origin));
    slots.push(Slot::required("ProxyType", Category::TypeAlias));
    slots.push(Slot::defaulted("MaxConsumers", Category::Constant, Binding::Constant(16)));
    slots.push(Slot::defaulted("MaxSignatories", Category::Constant, Binding::Constant(100)));
    slots.push(Slot::defaulted("MaxPendingProxies", Category::Constant, Binding::Constant(32)));
    slots.push(Slot::defaulted("MaxProxies", Category::Constant, Binding::Constant(32)));
    slots.push(Slot::defaulted("MaxFreezes", Category::Constant, Binding::Constant(0)));
    slots.push(Slot::defaulted("MaxLocks", Category::Constant, Binding::Constant(50)));
    slots.push(Slot::defaulted("MaxReserves", Category::Constant, Binding::Constant(50)));
    proof {
        assert(views(slots@) =~= system_slots());
        lemma_system_schema();
        ContractView::lemma_declare_all_distinct("SystemConfig"@, system_slots());
    }
    let contract = Contract::new("SystemConfig").declare_all(&slots);
    assert(contract@.modules =~= system_schema().modules);
    contract
}

/// Enters a deployment's implementation of the contract into a profile:
/// the profile claims the contract, and binds what the deployment supplies
/// for each slot, in the order of the slots.
///
/// Whatever the deployment supplies, the profile then binds every required
/// slot of the contract, and what it binds for other contracts is as
/// before.
pub fn claim_system<T: SystemConfig>(deployment: &T, profile: Profile) -> (next: Profile)
    ensures
        exists|supplied: Seq<Supplied>|
            supplies(system_slots(), supplied) && next@ == profile@.implement("SystemConfig"@).supply(
                "SystemConfig"@,
                supplied,
            ),
        next@.claims == profile@.implement("SystemConfig"@).claims,
        binds_required(system_schema(), next@),
        forall|contract: Seq<char>, slot: Seq<char>|
            contract != "SystemConfig"@ ==> #[trigger] next@.binding(contract, slot) == profile@.binding(
                contract,
                slot,
            ),
{
    let mut supplied: Vec<(String, Option<Binding>)> = Vec::new();
    supplied.push(("AccountId".to_owned(), Some(deployment.account_id())));
    supplied.push(("Lookup".to_owned(), Some(deployment.lookup())));
    supplied.push(("SS58Prefix".to_owned(), Some(deployment.ss58_prefix())));
    supplied.push(("Version".to_owned(), Some(deployment.version())));
    supplied.push(("ExistentialDeposit".to_owned(), Some(deployment.existential_deposit())));
    supplied.push(("ScheduleOrigin".to_owned(), Some(deployment.schedule_origin())));
    supplied.push(("PreimageOrigin".to_owned(), Some(deployment.preimage_origin())));
    supplied.push(("ProxyType".to_owned(), Some(deployment.proxy_type())));
    supplied.push(("MaxConsumers".to_owned(), deployment.max_consumers()));
    supplied.push(("MaxSignatories".to_owned(), deployment.max_signatories()));
    supplied.push(("MaxPendingProxies".to_owned(), deployment.max_pending_proxies()));
    supplied.push(("MaxProxies".to_owned(), deployment.max_proxies()));
    supplied.push(("MaxFreezes".to_owned(), deployment.max_freezes()));
    supplied.push(("MaxLocks".to_owned(), deployment.max_locks()));
    supplied.push(("MaxReserves".to_owned(), deployment.max_reserves()));
    let claimed = profile.implement("SystemConfig");
    let next = claimed.supply("SystemConfig", &supplied);
    proof {
        let given = supplied_views(supplied@);
        assert(supplies(system_slots(), given));
        lemma_supplied_slots_bound(claimed@, system_schema(), given);
        claimed@.lemma_supply("SystemConfig"@, given);
    }
    next
}

} // verus!
