//! The catalog: the six configuration contracts that every deployment
//! shares.
//!
//! In the catalog a slot is an authorization origin where its name ends in
//! `Origin`, a weight source where it supplies a module's weights, a
//! constant where its default is one, and a type alias otherwise.

use crate::assets::{assets_contract, assets_schema};
use crate::consensus::{consensus_contract, consensus_schema};
use crate::contract::{Contract, ContractView};
use crate::evm::{evm_contract, evm_schema};
use crate::governance::{governance_contract, governance_schema};
use crate::model::{
    first_true, is_first_true, lemma_first_true_is, lemma_first_true_none, same_text, views,
};
use crate::system::{system_contract, system_schema};
use crate::xcm::{xcm_contract, xcm_schema};
use vstd::prelude::*;

verus! {

/// The schemas of the catalog, in its order.
pub open spec fn catalog_schema() -> Seq<ContractView> {
    Seq::empty()
        .push(system_schema())
        .push(consensus_schema())
        .push(assets_schema())
        .push(governance_schema())
        .push(xcm_schema())
        .push(evm_schema())
}

/// Builds the catalog.
pub fn catalog() -> (contracts: Vec<Contract>)
    ensures
        views(contracts@) == catalog_schema(),
{
    let mut contracts: Vec<Contract> = Vec::new();
    contracts.push(system_contract());
    contracts.push(consensus_contract());
    contracts.push(assets_contract());
    contracts.push(governance_contract());
    contracts.push(xcm_contract());
    contracts.push(evm_contract());
    assert(views(contracts@) =~= catalog_schema());
    contracts
}

/// The position of the first contract of this name, if any.
pub open spec fn position_of(contracts: Seq<ContractView>, name: Seq<char>) -> Option<int> {
    first_true(Seq::new(contracts.len(), |i: int| contracts[i].name == name))
}

/// Finds the first contract of this name.
pub fn find_contract(contracts: &Vec<Contract>, name: &str) -> (found: Option<usize>)
    ensures
        match found {
            Some(i) => position_of(views(contracts@), name@) == Some(i as int),
            None => position_of(views(contracts@), name@) is None,
        },
{
    let ghost flags = Seq::new(contracts@.len(), |i: int| views(contracts@)[i].name == name@);
    let mut i: usize = 0;
    while i < contracts.len()
        invariant
            i <= contracts.len(),
            flags == Seq::new(contracts@.len(), |i: int| views(contracts@)[i].name == name@),
            forall|k: int| 0 <= k < i ==> !flags[k],
        decreases contracts.len() - i,
    {
        if same_text(contracts[i].name().as_str(), name) {
            proof {
                assert(is_first_true(flags, i as int));
                lemma_first_true_is(flags, i as int);
            }
            return Some(i);
        }
        i += 1;
    }
    proof {
        lemma_first_true_none(flags);
    }
    None
}

} // verus!
