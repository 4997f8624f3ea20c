//! Build-time configuration contracts for a modular runtime.
//!
//! A runtime is assembled from modules, and each module wants a set of
//! types and constants before it can be linked in. A *contract* is the
//! schema of what one functional area wants: named slots, some with a
//! default. The [`catalog`] holds six of them.
//!
//! A deployment says what it supplies in one of two ways. It implements the
//! trait of a contract, where the compiler sees to it that no required slot
//! is left out; or it builds a [`Profile`] slot by slot, which is checked
//! when it is expanded. Either way the binder, [`expand`], turns the
//! contract and the profile into the complete configuration of every module
//! that the contract governs, and hands each of them the same
//! [`SharedTypes`].
//!
//! A second generator, [`generate_apis`], turns the type arguments of the
//! deployment's assembly point into one block of API wiring per functional
//! area, keyed by the bare name of the type. [`fetch_ident`] extracts that
//! name and refuses everything that is not a single identifier.
//!
//! Every failure is final: a generation yields all of its output or an
//! error, never a part.

pub mod apis;
pub mod assets;
pub mod binder;
pub mod catalog;
pub mod consensus;
pub mod contract;
pub mod error;
pub mod evm;
pub mod governance;
pub mod ident;
pub mod model;
pub mod profile;
pub mod system;
pub mod xcm;

pub use apis::{generate_apis, generate_apis_from_text, parse_area_arg, wire_area, ApiWiring, Area, AreaArg};
pub use assets::{assets_contract, bind_assets, claim_assets, AssetsConfig, AssetsWeight};
pub use binder::{
    expand, generate, generate_with, resolve_all, BenchmarkHelper, Entry, Expansion, ModuleConfig,
};
pub use catalog::{catalog, find_contract};
pub use consensus::{claim_consensus, consensus_contract, ConsensusConfig};
pub use contract::{
    Adapter, Binding, Category, Contract, Field, ModuleTemplate, SharedKind, Slot, Source,
};
pub use error::GenError;
pub use evm::{claim_evm, evm_contract, EvmConfig};
pub use governance::{claim_governance, governance_contract, GovernanceConfig};
pub use ident::{fetch_ident, parse_type_ref, PathSegment, TypeRef, TypeShape};
pub use profile::{Bound, Profile, SharedTypes};
pub use system::{claim_system, system_contract, SystemConfig};
pub use xcm::{claim_xcm, xcm_contract, XcmConfig};
