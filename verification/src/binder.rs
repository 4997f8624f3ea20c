//! The module binder: from a contract, a profile and the shared types to
//! the complete configuration of every module that the contract governs.

use crate::contract::{
    Adapter, Binding, BindingView, Contract, ContractView, FieldView, ModuleTemplate,
    ModuleTemplateView, SlotView, Source, SourceView,
};
use crate::error::{GenError, GenErrorView};
use crate::catalog::{catalog, catalog_schema, find_contract, position_of};
use crate::model::{
    collect, first_true, is_first_true, lemma_collect_all_or_nothing, lemma_collect_fails,
    lemma_collect_succeeds, lemma_first_true_exists, lemma_first_true_is, lemma_first_true_none,
    outcome, views,
};
use crate::profile::{Profile, ProfileView, SharedTypes, SharedTypesView, Supplied};
use vstd::prelude::*;

verus! {

/// One field of a module's configuration, bound.
#[derive(Debug, PartialEq, Eq)]
pub struct Entry {
    pub field: String,
    pub value: Binding,
    pub adapter: Adapter,
}

/// The mathematical content of an [`Entry`].
pub struct EntryView {
    pub field: Seq<char>,
    pub value: BindingView,
    pub adapter: Adapter,
}

impl View for Entry {
    type V = EntryView;

    open spec fn view(&self) -> EntryView {
        EntryView { field: self.field@, value: self.value@, adapter: self.adapter }
    }
}

/// The complete configuration of one module.
#[derive(Debug, PartialEq, Eq)]
pub struct ModuleConfig {
    pub pallet: String,
    pub krate: String,
    /// The shared types of the deployment, as this module sees them.
    pub shared: SharedTypes,
    pub entries: Vec<Entry>,
}

/// The mathematical content of a [`ModuleConfig`].
pub struct ModuleConfigView {
    pub pallet: Seq<char>,
    pub krate: Seq<char>,
    pub shared: SharedTypesView,
    pub entries: Seq<EntryView>,
}

impl View for ModuleConfig {
    type V = ModuleConfigView;

    open spec fn view(&self) -> ModuleConfigView {
        ModuleConfigView {
            pallet: self.pallet@,
            krate: self.krate@,
            shared: self.shared@,
            entries: views(self.entries@),
        }
    }
}

/// The helper that lets a benchmarking harness make a value of a module's
/// identifier type out of a small integer. It stands beside the production
/// configuration and is no part of it.
#[derive(Debug, PartialEq, Eq)]
pub struct BenchmarkHelper {
    /// The slot that names the identifier type.
    pub slot: String,
    /// The identifier type.
    pub id_type: Binding,
}

/// The mathematical content of a [`BenchmarkHelper`].
pub struct BenchmarkHelperView {
    pub slot: Seq<char>,
    pub id_type: BindingView,
}

impl View for BenchmarkHelper {
    type V = BenchmarkHelperView;

    open spec fn view(&self) -> BenchmarkHelperView {
        BenchmarkHelperView { slot: self.slot@, id_type: self.id_type@ }
    }
}

/// What the expansion of one contract yields.
#[derive(Debug, PartialEq, Eq)]
pub struct Expansion {
    pub contract: String,
    /// One configuration for each module that the contract governs, in the
    /// contract's order.
    pub modules: Vec<ModuleConfig>,
    pub helper: Option<BenchmarkHelper>,
}

/// The mathematical content of an [`Expansion`].
pub struct ExpansionView {
    pub contract: Seq<char>,
    pub modules: Seq<ModuleConfigView>,
    pub helper: Option<BenchmarkHelperView>,
}

impl View for Expansion {
    type V = ExpansionView;

    open spec fn view(&self) -> ExpansionView {
        ExpansionView {
            contract: self.contract@,
            modules: views(self.modules@),
            helper: match self.helper {
                Some(helper) => Some(helper@),
                None => None,
            },
        }
    }
}

/// What slot `i` of the contract resolves to: what the profile binds to it,
/// else the contract's default, else nothing.
pub open spec fn resolved(contract: ContractView, profile: ProfileView, i: int) -> Option<BindingView> {
    match profile.binding(contract.name, contract.slots[i].name) {
        Some(value) => Some(value),
        None => contract.slots[i].default,
    }
}

/// For each slot of the contract, whether it resolves to nothing: a
/// required slot that the profile leaves unbound.
pub open spec fn unbound(contract: ContractView, profile: ProfileView) -> Seq<bool> {
    Seq::new(contract.slots.len(), |i: int| resolved(contract, profile, i) is None)
}

/// The value wired to a field.
pub open spec fn wired(
    contract: ContractView,
    profile: ProfileView,
    shared: SharedTypesView,
    field: FieldView,
) -> EntryView {
    EntryView {
        field: field.name,
        value: match field.source {
            SourceView::Slot(name) => resolved(contract, profile, contract.slot_index(name)).unwrap(),
            SourceView::Shared(kind) => BindingView::Verbatim(shared.get(kind)),
            SourceView::Fixed(value) => value,
        },
        adapter: field.adapter,
    }
}

/// The configuration of one module.
pub open spec fn configured(
    contract: ContractView,
    profile: ProfileView,
    shared: SharedTypesView,
    module: ModuleTemplateView,
) -> ModuleConfigView {
    ModuleConfigView {
        pallet: module.pallet,
        krate: module.krate,
        shared,
        entries: Seq::new(module.fields.len(), |f: int| wired(contract, profile, shared, module.fields[f])),
    }
}

/// The benchmark helper of a contract that has one.
pub open spec fn helper_of(contract: ContractView, profile: ProfileView) -> Option<BenchmarkHelperView> {
    match contract.benchmark {
        Some(name) => Some(
            BenchmarkHelperView {
                slot: name,
                id_type: resolved(contract, profile, contract.slot_index(name)).unwrap(),
            },
        ),
        None => None,
    }
}

/// The expansion of a contract under a profile.
///
/// Where the profile leaves a required slot unbound, the expansion fails
/// and names the first such slot. Otherwise it holds one configuration per
/// module, each with the shared types, and the benchmark helper where
/// benchmarking support is on and the contract has a helper.
pub open spec fn expansion_of(
    contract: ContractView,
    profile: ProfileView,
    shared: SharedTypesView,
    benchmarks: bool,
) -> Result<ExpansionView, GenErrorView> {
    match first_true(unbound(contract, profile)) {
        Some(i) => Err(
            GenErrorView::MissingRequiredSlot { contract: contract.name, slot: contract.slots[i].name },
        ),
        None => Ok(
            ExpansionView {
                contract: contract.name,
                modules: Seq::new(
                    contract.modules.len(),
                    |m: int| configured(contract, profile, shared, contract.modules[m]),
                ),
                helper: if benchmarks {
                    helper_of(contract, profile)
                } else {
                    None
                },
            },
        ),
    }
}

/// Resolves slot `i`: the profile's binding, else the default.
fn resolve(contract: &Contract, profile: &Profile, i: usize) -> (value: Option<Binding>)
    requires
        i < contract@.slots.len(),
    ensures
        match value {
            Some(v) => resolved(contract@, profile@, i as int) == Some(v@),
            None => resolved(contract@, profile@, i as int) is None,
        },
{
    let slot = &contract.slots()[i];
    assert(slot@ == contract@.slots[i as int]);
    match profile.binding(contract.name().as_str(), slot.name.as_str()) {
        Some(value) => Some(value.clone()),
        None => match &slot.default {
            Some(value) => Some(value.clone()),
            None => None,
        },
    }
}

/// Checks a profile against a contract before anything is expanded, and
/// resolves every slot: the profile must bind every slot that has no
/// default. The error names the first slot that it leaves unbound.
pub fn resolve_all(contract: &Contract, profile: &Profile) -> (checked: Result<Vec<Binding>, GenError>)
    ensures
        match first_true(unbound(contract@, profile@)) {
            Some(i) => checked is Err && checked->Err_0@ == (GenErrorView::MissingRequiredSlot {
                contract: contract@.name,
                slot: contract@.slots[i].name,
            }),
            None => checked is Ok && checked->Ok_0@.len() == contract@.slots.len() && forall|i: int|
                0 <= i < contract@.slots.len() ==> resolved(contract@, profile@, i) == Some(
                    #[trigger] checked->Ok_0@[i]@,
                ),
        },
{
    let count = contract.slots().len();
    let ghost flags = unbound(contract@, profile@);
    let mut values: Vec<Binding> = Vec::new();
    let mut i: usize = 0;
    while i < count
        invariant
            i <= count,
            count == contract@.slots.len(),
            flags == unbound(contract@, profile@),
            values@.len() == i,
            forall|k: int| 0 <= k < i ==> resolved(contract@, profile@, k) == Some(#[trigger] values@[k]@),
        decreases count - i,
    {
        match resolve(contract, profile, i) {
            Some(value) => {
                values.push(value);
            },
            None => {
                proof {
                    assert forall|j: int| 0 <= j < i implies !flags[j] by {
                        assert(resolved(contract@, profile@, j) == Some(values@[j]@));
                    }
                    assert(is_first_true(flags, i as int));
                    lemma_first_true_is(flags, i as int);
                }
                return Err(
                    GenError::MissingRequiredSlot {
                        contract: contract.name().clone(),
                        slot: contract.slots()[i].name.clone(),
                    },
                );
            },
        }
        i += 1;
    }
    proof {
        assert forall|k: int| 0 <= k < flags.len() implies !flags[k] by {
            assert(resolved(contract@, profile@, k) == Some(values@[k]@));
        }
        lemma_first_true_none(flags);
    }
    Ok(values)
}

/// Wires one module from the resolved values of the contract's slots.
fn configure(
    contract: &Contract,
    values: &Vec<Binding>,
    shared: &SharedTypes,
    module: &ModuleTemplate,
    Ghost(profile): Ghost<ProfileView>,
) -> (config: ModuleConfig)
    requires
        module@.resolves_in(contract@),
        values@.len() == contract@.slots.len(),
        forall|i: int|
            0 <= i < contract@.slots.len() ==> resolved(contract@, profile, i) == Some(#[trigger] values@[i]@),
    ensures
        config@ == configured(contract@, profile, shared@, module@),
{
    let mut entries: Vec<Entry> = Vec::new();
    let mut f: usize = 0;
    while f < module.fields.len()
        invariant
            f <= module.fields.len(),
            module@.resolves_in(contract@),
            values@.len() == contract@.slots.len(),
            forall|i: int|
                0 <= i < contract@.slots.len() ==> resolved(contract@, profile, i) == Some(
                    #[trigger] values@[i]@,
                ),
            entries@.len() == f,
            forall|k: int|
                0 <= k < f ==> (#[trigger] entries@[k])@ == wired(contract@, profile, shared@, module@.fields[k]),
        decreases module.fields.len() - f,
    {
        let field = &module.fields[f];
        assert(field@ == module@.fields[f as int]);
        let value = match &field.source {
            Source::Slot(name) => {
                assert(module@.fields[f as int].source == SourceView::Slot(name@));
                match contract.find_slot(name.as_str()) {
                    Some(i) => values[i].clone(),
                    None => Binding::Unit,
                }
            },
            Source::Shared(kind) => Binding::Verbatim(shared.get(*kind).clone()),
            Source::Fixed(value) => value.clone(),
        };
        entries.push(Entry { field: field.name.clone(), value, adapter: field.adapter });
        f += 1;
    }
    let config = ModuleConfig {
        pallet: module.pallet.clone(),
        krate: module.krate.clone(),
        shared: shared.clone(),
        entries,
    };
    assert(config@.entries =~= configured(contract@, profile, shared@, module@).entries);
    config
}

/// Expands one contract under a profile into the configuration of every
/// module that the contract governs.
///
/// All or nothing: where the profile leaves a required slot unbound, the
/// result is the error that names the first such slot, and no
/// configuration at all.
pub fn expand(
    contract: &Contract,
    profile: &Profile,
    shared: &SharedTypes,
    benchmarks: bool,
) -> (out: Result<Expansion, GenError>)
    ensures
        outcome(out) == expansion_of(contract@, profile@, shared@, benchmarks),
{
    let values = match resolve_all(contract, profile) {
        Ok(values) => values,
        Err(error) => {
            return Err(error);
        },
    };
    let templates = contract.modules();
    let mut modules: Vec<ModuleConfig> = Vec::new();
    let mut m: usize = 0;
    while m < templates.len()
        invariant
            m <= templates.len(),
            views(templates@) == contract@.modules,
            contract@.wf(),
            values@.len() == contract@.slots.len(),
            forall|i: int|
                0 <= i < contract@.slots.len() ==> resolved(contract@, profile@, i) == Some(
                    #[trigger] values@[i]@,
                ),
            modules@.len() == m,
            forall|k: int|
                0 <= k < m ==> (#[trigger] modules@[k])@ == configured(
                    contract@,
                    profile@,
                    shared@,
                    contract@.modules[k],
                ),
        decreases templates.len() - m,
    {
        assert(templates@[m as int]@ == contract@.modules[m as int]);
        let config = configure(contract, &values, shared, &templates[m], Ghost(profile@));
        modules.push(config);
        m += 1;
    }
    let helper = if benchmarks {
        match contract.benchmark() {
            Some(name) => match contract.find_slot(name.as_str()) {
                Some(i) => Some(BenchmarkHelper { slot: name.clone(), id_type: values[i].clone() }),
                None => None,
            },
            None => None,
        }
    } else {
        None
    };
    let expansion = Expansion { contract: contract.name().clone(), modules, helper };
    assert(expansion@.modules =~= expansion_of(contract@, profile@, shared@, benchmarks)->Ok_0.modules);
    Ok(expansion)
}

/// What one claim of a profile comes to: the expansion of the contract that
/// it names, or the error that the catalog holds no such contract.
pub open spec fn claim_outcome(
    contracts: Seq<ContractView>,
    profile: ProfileView,
    shared: SharedTypesView,
    benchmarks: bool,
    claim: Seq<char>,
) -> Result<ExpansionView, GenErrorView> {
    match position_of(contracts, claim) {
        Some(i) => expansion_of(contracts[i], profile, shared, benchmarks),
        None => Err(GenErrorView::UnknownContract { name: claim }),
    }
}

/// What each claim of a profile comes to, in the order of the claims.
pub open spec fn claim_outcomes(
    contracts: Seq<ContractView>,
    profile: ProfileView,
    shared: SharedTypesView,
    benchmarks: bool,
) -> Seq<Result<ExpansionView, GenErrorView>> {
    Seq::new(
        profile.claims.len(),
        |k: int| claim_outcome(contracts, profile, shared, benchmarks, profile.claims[k]),
    )
}

/// The generation of a whole deployment: one expansion for each contract
/// that the profile claims, in the order of the claims; or, all or nothing,
/// the error of the first claim that fails.
pub open spec fn generation_of(
    contracts: Seq<ContractView>,
    profile: ProfileView,
    shared: SharedTypesView,
    benchmarks: bool,
) -> Result<Seq<ExpansionView>, GenErrorView> {
    collect(claim_outcomes(contracts, profile, shared, benchmarks))
}

/// Expands every contract that the profile claims, against the contracts
/// given.
///
/// A claim that names no contract among them is an unknown contract. The
/// first claim that fails ends the generation, and nothing is produced.
pub fn generate_with(
    contracts: &Vec<Contract>,
    profile: &Profile,
    shared: &SharedTypes,
    benchmarks: bool,
) -> (out: Result<Vec<Expansion>, GenError>)
    ensures
        match generation_of(views(contracts@), profile@, shared@, benchmarks) {
            Ok(expansions) => out is Ok && views(out->Ok_0@) == expansions,
            Err(error) => out is Err && out->Err_0@ == error,
        },
{
    let claims = profile.claims();
    let ghost steps = claim_outcomes(views(contracts@), profile@, shared@, benchmarks);
    let mut expansions: Vec<Expansion> = Vec::new();
    let mut k: usize = 0;
    while k < claims.len()
        invariant
            k <= claims.len(),
            claims@.len() == profile@.claims.len(),
            forall|i: int| 0 <= i < claims@.len() ==> #[trigger] claims@[i]@ == profile@.claims[i],
            steps == claim_outcomes(views(contracts@), profile@, shared@, benchmarks),
            expansions@.len() == k,
            forall|j: int| 0 <= j < k ==> #[trigger] steps[j] == Ok::<ExpansionView, GenErrorView>(expansions@[j]@),
        decreases claims.len() - k,
    {
        let claim = &claims[k];
        assert(claim@ == profile@.claims[k as int]);
        let step = match find_contract(contracts, claim.as_str()) {
            Some(i) => {
                assert(views(contracts@)[i as int] == contracts@[i as int]@);
                expand(&contracts[i], profile, shared, benchmarks)
            },
            None => Err(GenError::UnknownContract { name: claim.clone() }),
        };
        assert(outcome(step) == steps[k as int]);
        match step {
            Ok(expansion) => {
                expansions.push(expansion);
            },
            Err(error) => {
                proof {
                    lemma_collect_fails(steps, k as int);
                }
                return Err(error);
            },
        }
        k += 1;
    }
    proof {
        lemma_collect_succeeds(steps);
        assert(views(expansions@) =~= Seq::new(steps.len(), |k: int| steps[k]->Ok_0));
    }
    Ok(expansions)
}

/// Expands every contract that the profile claims, against the catalog.
pub fn generate(profile: &Profile, shared: &SharedTypes, benchmarks: bool) -> (out: Result<Vec<Expansion>, GenError>)
    ensures
        match generation_of(catalog_schema(), profile@, shared@, benchmarks) {
            Ok(expansions) => out is Ok && views(out->Ok_0@) == expansions,
            Err(error) => out is Err && out->Err_0@ == error,
        },
{
    let contracts = catalog();
    generate_with(&contracts, profile, shared, benchmarks)
}

/// The profile binds every slot of the contract that has no default.
pub open spec fn binds_required(contract: ContractView, profile: ProfileView) -> bool {
    forall|i: int|
        0 <= i < contract.slots.len() && (#[trigger] contract.slots[i]).default is None
            ==> profile.binding(contract.name, contract.slots[i].name) is Some
}

/// What an implementation of a contract supplies: something for each slot
/// of the contract, in order and under its name, and a value wherever the
/// slot has no default.
pub open spec fn supplies(slots: Seq<SlotView>, supplied: Seq<Supplied>) -> bool {
    &&& supplied.len() == slots.len()
    &&& forall|k: int|
        0 <= k < slots.len() ==> (#[trigger] supplied[k]).0 == slots[k].name && (slots[k].default is None
            ==> supplied[k].1 is Some)
}

/// A profile that is supplied with an implementation of a contract binds
/// every required slot of the contract.
pub proof fn lemma_supplied_slots_bound(profile: ProfileView, contract: ContractView, supplied: Seq<Supplied>)
    requires
        supplies(contract.slots, supplied),
    ensures
        binds_required(contract, profile.supply(contract.name, supplied)),
{
    profile.lemma_supply(contract.name, supplied);
    assert forall|i: int|
        0 <= i < contract.slots.len() && (#[trigger] contract.slots[i]).default is None implies profile.supply(
        contract.name,
        supplied,
    ).binding(contract.name, contract.slots[i].name) is Some by {
        assert(supplied[i].1 is Some);
    }
}

/// A profile that binds every required slot of a contract expands, and the
/// expansion holds exactly one configuration for each module that the
/// contract governs: in the contract's order, under the module's names,
/// with one entry for each field of the module's wiring.
pub proof fn lemma_complete_profile_expands(
    contract: ContractView,
    profile: ProfileView,
    shared: SharedTypesView,
    benchmarks: bool,
)
    requires
        binds_required(contract, profile),
    ensures
        expansion_of(contract, profile, shared, benchmarks) is Ok,
        expansion_of(contract, profile, shared, benchmarks)->Ok_0.contract == contract.name,
        expansion_of(contract, profile, shared, benchmarks)->Ok_0.modules.len() == contract.modules.len(),
        forall|m: int|
            0 <= m < contract.modules.len() ==> {
                let config = #[trigger] expansion_of(contract, profile, shared, benchmarks)->Ok_0.modules[m];
                &&& config.pallet == contract.modules[m].pallet
                &&& config.krate == contract.modules[m].krate
                &&& config.entries.len() == contract.modules[m].fields.len()
            },
{
    let flags = unbound(contract, profile);
    assert forall|k: int| 0 <= k < flags.len() implies !flags[k] by {
        if contract.slots[k].default is None {
            assert(profile.binding(contract.name, contract.slots[k].name) is Some);
        }
    }
    lemma_first_true_none(flags);
}

/// A contract expands under a profile exactly where the profile binds
/// every required slot of the contract.
pub proof fn lemma_expands_exactly_when_bound(
    contract: ContractView,
    profile: ProfileView,
    shared: SharedTypesView,
    benchmarks: bool,
)
    ensures
        expansion_of(contract, profile, shared, benchmarks) is Ok <==> binds_required(contract, profile),
{
    if binds_required(contract, profile) {
        lemma_complete_profile_expands(contract, profile, shared, benchmarks);
    } else {
        let missing = choose|i: int|
            0 <= i < contract.slots.len() && (#[trigger] contract.slots[i]).default is None && !(
            profile.binding(contract.name, contract.slots[i].name) is Some);
        lemma_missing_slot_fails(contract, profile, shared, benchmarks, missing);
    }
}

/// A profile that leaves a required slot of a contract unbound does not
/// expand: the result is the error that names the contract and the first
/// slot left unbound, and holds no configuration.
pub proof fn lemma_missing_slot_fails(
    contract: ContractView,
    profile: ProfileView,
    shared: SharedTypesView,
    benchmarks: bool,
    missing: int,
)
    requires
        0 <= missing < contract.slots.len(),
        contract.slots[missing].default is None,
        profile.binding(contract.name, contract.slots[missing].name) is None,
    ensures
        expansion_of(contract, profile, shared, benchmarks) matches Err(
            GenErrorView::MissingRequiredSlot { contract: name, slot },
        ) && name == contract.name && exists|first: int|
            0 <= first <= missing && #[trigger] contract.slots[first].name == slot
                && contract.slots[first].default is None && profile.binding(
                contract.name,
                contract.slots[first].name,
            ) is None,
{
    let flags = unbound(contract, profile);
    assert(flags[missing]);
    lemma_first_true_exists(flags, missing);
    let first = first_true(flags)->Some_0;
    assert(flags[first]);
    assert(contract.slots[first].name == contract.slots[first].name);
}

/// Generation is repeatable: two runs on the same contract, the same
/// profile and the same shared types end in the same way, down to the last
/// binding.
pub proof fn lemma_expansion_repeatable(
    contract: ContractView,
    profile: ProfileView,
    shared: SharedTypesView,
    benchmarks: bool,
    first: Result<Expansion, GenError>,
    second: Result<Expansion, GenError>,
)
    requires
        outcome(first) == expansion_of(contract, profile, shared, benchmarks),
        outcome(second) == expansion_of(contract, profile, shared, benchmarks),
    ensures
        outcome(first) == outcome(second),
        first is Ok ==> second is Ok && first->Ok_0@ == second->Ok_0@,
        first is Err ==> second is Err && first->Err_0@ == second->Err_0@,
{
}

/// Contracts stand apart: the expansion of a contract reads nothing of a
/// profile but what it binds for that contract. Two profiles that agree on
/// the contract's slots give the same expansion.
pub proof fn lemma_contracts_stand_apart(
    contract: ContractView,
    one: ProfileView,
    other: ProfileView,
    shared: SharedTypesView,
    benchmarks: bool,
)
    requires
        forall|slot: Seq<char>| #[trigger] one.binding(contract.name, slot) == other.binding(contract.name, slot),
    ensures
        expansion_of(contract, one, shared, benchmarks) == expansion_of(contract, other, shared, benchmarks),
{
    assert forall|i: int| resolved(contract, one, i) == resolved(contract, other, i) by {
        assert(one.binding(contract.name, contract.slots[i].name) == other.binding(
            contract.name,
            contract.slots[i].name,
        ));
    }
    assert(unbound(contract, one) =~= unbound(contract, other));
    if first_true(unbound(contract, one)) is None {
        let ours = expansion_of(contract, one, shared, benchmarks)->Ok_0;
        let theirs = expansion_of(contract, other, shared, benchmarks)->Ok_0;
        assert forall|m: int| 0 <= m < contract.modules.len() implies configured(
            contract,
            one,
            shared,
            contract.modules[m],
        ) == configured(contract, other, shared, contract.modules[m]) by {
            assert(configured(contract, one, shared, contract.modules[m]).entries =~= configured(
                contract,
                other,
                shared,
                contract.modules[m],
            ).entries);
        }
        assert(ours.modules =~= theirs.modules);
    }
}

/// Benchmarking support leaves the production configuration alone: with
/// it or without, a contract expands or fails alike, and to the same
/// modules.
pub proof fn lemma_benchmarks_stand_apart(contract: ContractView, profile: ProfileView, shared: SharedTypesView)
    ensures
        expansion_of(contract, profile, shared, true) is Ok <==> expansion_of(
            contract,
            profile,
            shared,
            false,
        ) is Ok,
        expansion_of(contract, profile, shared, true) is Ok ==> expansion_of(
            contract,
            profile,
            shared,
            true,
        )->Ok_0.modules == expansion_of(contract, profile, shared, false)->Ok_0.modules,
        expansion_of(contract, profile, shared, false) is Ok ==> expansion_of(
            contract,
            profile,
            shared,
            false,
        )->Ok_0.helper is None,
        expansion_of(contract, profile, shared, true) is Err ==> expansion_of(contract, profile, shared, true)
            == expansion_of(contract, profile, shared, false),
{
}

/// A generation is all or nothing: it succeeds exactly where every claim
/// of the profile does, and then holds one expansion for each claim, in
/// the order of the claims.
pub proof fn lemma_generation_all_or_nothing(
    contracts: Seq<ContractView>,
    profile: ProfileView,
    shared: SharedTypesView,
    benchmarks: bool,
)
    ensures
        generation_of(contracts, profile, shared, benchmarks) is Ok <==> forall|k: int|
            0 <= k < profile.claims.len() ==> claim_outcome(
                contracts,
                profile,
                shared,
                benchmarks,
                #[trigger] profile.claims[k],
            ) is Ok,
        generation_of(contracts, profile, shared, benchmarks) matches Ok(expansions) ==> expansions.len()
            == profile.claims.len() && forall|k: int|
            0 <= k < profile.claims.len() ==> claim_outcome(
                contracts,
                profile,
                shared,
                benchmarks,
                profile.claims[k],
            ) == Ok::<ExpansionView, GenErrorView>(#[trigger] expansions[k]),
{
    let steps = claim_outcomes(contracts, profile, shared, benchmarks);
    lemma_collect_all_or_nothing(steps);
    if generation_of(contracts, profile, shared, benchmarks) is Ok {
        assert forall|k: int| 0 <= k < profile.claims.len() implies claim_outcome(
            contracts,
            profile,
            shared,
            benchmarks,
            #[trigger] profile.claims[k],
        ) is Ok by {
            assert(steps[k] is Ok);
        }
    } else {
        let k = choose|k: int| 0 <= k < steps.len() && #[trigger] steps[k] is Err;
        assert(claim_outcome(contracts, profile, shared, benchmarks, profile.claims[k]) is Err);
    }
    if let Ok(expansions) = generation_of(contracts, profile, shared, benchmarks) {
        assert forall|k: int| 0 <= k < profile.claims.len() implies claim_outcome(
            contracts,
            profile,
            shared,
            benchmarks,
            profile.claims[k],
        ) == Ok::<ExpansionView, GenErrorView>(#[trigger] expansions[k]) by {
            assert(steps[k] == Ok::<ExpansionView, GenErrorView>(expansions[k]));
        }
    }
}

/// A generation succeeds exactly where every claim of the profile names a
/// contract among those given, and the profile binds every required slot
/// of that contract.
pub proof fn lemma_generation_succeeds_exactly_when(
    contracts: Seq<ContractView>,
    profile: ProfileView,
    shared: SharedTypesView,
    benchmarks: bool,
)
    ensures
        generation_of(contracts, profile, shared, benchmarks) is Ok <==> forall|k: int|
            0 <= k < profile.claims.len() ==> position_of(contracts, #[trigger] profile.claims[k]) is Some
                && binds_required(contracts[position_of(contracts, profile.claims[k])->Some_0], profile),
{
    lemma_generation_all_or_nothing(contracts, profile, shared, benchmarks);
    assert forall|k: int| 0 <= k < profile.claims.len() implies (claim_outcome(
        contracts,
        profile,
        shared,
        benchmarks,
        #[trigger] profile.claims[k],
    ) is Ok <==> position_of(contracts, profile.claims[k]) is Some && binds_required(
        contracts[position_of(contracts, profile.claims[k])->Some_0],
        profile,
    )) by {
        if let Some(i) = position_of(contracts, profile.claims[k]) {
            lemma_expands_exactly_when_bound(contracts[i], profile, shared, benchmarks);
        }
    }
}

/// Any two modules bound in one generation see the same shared types: the
/// ones that the deployment supplied.
pub proof fn lemma_shared_types_agree(
    contracts: Seq<ContractView>,
    profile: ProfileView,
    shared: SharedTypesView,
    benchmarks: bool,
    a: int,
    m: int,
    b: int,
    n: int,
)
    requires
        generation_of(contracts, profile, shared, benchmarks) is Ok,
        0 <= a < generation_of(contracts, profile, shared, benchmarks)->Ok_0.len(),
        0 <= m < generation_of(contracts, profile, shared, benchmarks)->Ok_0[a].modules.len(),
        0 <= b < generation_of(contracts, profile, shared, benchmarks)->Ok_0.len(),
        0 <= n < generation_of(contracts, profile, shared, benchmarks)->Ok_0[b].modules.len(),
    ensures
        generation_of(contracts, profile, shared, benchmarks)->Ok_0[a].modules[m].shared == shared,
        generation_of(contracts, profile, shared, benchmarks)->Ok_0[a].modules[m].shared == generation_of(
            contracts,
            profile,
            shared,
            benchmarks,
        )->Ok_0[b].modules[n].shared,
{
    lemma_generation_all_or_nothing(contracts, profile, shared, benchmarks);
    let expansions = generation_of(contracts, profile, shared, benchmarks)->Ok_0;
    assert(claim_outcome(contracts, profile, shared, benchmarks, profile.claims[a]) == Ok::<
        ExpansionView,
        GenErrorView,
    >(expansions[a]));
    assert(claim_outcome(contracts, profile, shared, benchmarks, profile.claims[b]) == Ok::<
        ExpansionView,
        GenErrorView,
    >(expansions[b]));
}

/// Two fields wired to the same shared type hold the same value, in
/// whatever modules and under whatever contracts they stand.
pub proof fn lemma_shared_entries_agree(
    first: ContractView,
    second: ContractView,
    profile: ProfileView,
    shared: SharedTypesView,
    one: FieldView,
    other: FieldView,
)
    requires
        one.source is Shared,
        one.source == other.source,
    ensures
        wired(first, profile, shared, one).value == wired(second, profile, shared, other).value,
{
}

} // verus!
