//! The ways in which generation is abandoned.

use vstd::prelude::*;
use vstd::string::*;

verus! {

/// Why a generation pass stopped. Every error is fatal to the pass that
/// raised it: no partial artifact accompanies one.
#[derive(Debug, PartialEq, Eq)]
pub enum GenError {
    /// A type argument is not a single bare name. `syntax` is the argument
    /// as it was written.
    MalformedTypeReference { syntax: String },
    /// A profile leaves a slot without a default unbound.
    MissingRequiredSlot { contract: String, slot: String },
    /// A profile or an assembly point names a contract or functional area
    /// that the catalog does not hold.
    UnknownContract { name: String },
}

/// The mathematical content of a [`GenError`].
pub enum GenErrorView {
    MalformedTypeReference { syntax: Seq<char> },
    MissingRequiredSlot { contract: Seq<char>, slot: Seq<char> },
    UnknownContract { name: Seq<char> },
}

impl View for GenError {
    type V = GenErrorView;

    open spec fn view(&self) -> GenErrorView {
        match self {
            GenError::MalformedTypeReference { syntax } => GenErrorView::MalformedTypeReference {
                syntax: syntax@,
            },
            GenError::MissingRequiredSlot { contract, slot } => GenErrorView::MissingRequiredSlot {
                contract: contract@,
                slot: slot@,
            },
            GenError::UnknownContract { name } => GenErrorView::UnknownContract { name: name@ },
        }
    }
}

impl GenErrorView {
    /// The text shown to the deployment author.
    pub open spec fn message(self) -> Seq<char> {
        match self {
            GenErrorView::MalformedTypeReference { syntax } => "Wrong type received: "@ + syntax,
            GenErrorView::MissingRequiredSlot { contract, slot } => "Missing required slot: "@
                + contract + "::"@ + slot,
            GenErrorView::UnknownContract { name } => "Unknown contract: "@ + name,
        }
    }
}

impl Clone for GenError {
    fn clone(&self) -> (copy: Self)
        ensures
            copy@ == self@,
    {
        match self {
            GenError::MalformedTypeReference { syntax } => GenError::MalformedTypeReference {
                syntax: syntax.clone(),
            },
            GenError::MissingRequiredSlot { contract, slot } => GenError::MissingRequiredSlot {
                contract: contract.clone(),
                slot: slot.clone(),
            },
            GenError::UnknownContract { name } => GenError::UnknownContract { name: name.clone() },
        }
    }
}

impl GenError {
    /// Renders the error for the deployment author, reproducing the
    /// offending name or syntax.
    pub fn message(&self) -> (text: String)
        ensures
            text@ == self@.message(),
    {
        match self {
            GenError::MalformedTypeReference { syntax } => {
                String::from_str("Wrong type received: ").concat(syntax.as_str())
            },
            GenError::MissingRequiredSlot { contract, slot } => {
                String::from_str("Missing required slot: ").concat(contract.as_str()).concat(
                    "::",
                ).concat(slot.as_str())
            },
            GenError::UnknownContract { name } => {
                String::from_str("Unknown contract: ").concat(name.as_str())
            },
        }
    }
}

} // verus!
