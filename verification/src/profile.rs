//! What a deployment supplies: its shared types and its profile.

use crate::contract::{clone_optional, optional_view, Binding, BindingView, SharedKind};
use crate::model::same_text;
use vstd::prelude::*;

verus! {

/// The types that every module of one deployment must agree on.
#[derive(Debug, PartialEq, Eq)]
pub struct SharedTypes {
    pub balance: String,
    pub account_id: String,
    pub currency: String,
    pub event: String,
    pub weight_to_fee: String,
}

/// The mathematical content of a [`SharedTypes`].
pub struct SharedTypesView {
    pub balance: Seq<char>,
    pub account_id: Seq<char>,
    pub currency: Seq<char>,
    pub event: Seq<char>,
    pub weight_to_fee: Seq<char>,
}

impl SharedTypesView {
    /// The member of this kind.
    pub open spec fn get(self, kind: SharedKind) -> Seq<char> {
        match kind {
            SharedKind::Balance => self.balance,
            SharedKind::AccountId => self.account_id,
            SharedKind::Currency => self.currency,
            SharedKind::Event => self.event,
            SharedKind::WeightToFee => self.weight_to_fee,
        }
    }
}

impl View for SharedTypes {
    type V = SharedTypesView;

    open spec fn view(&self) -> SharedTypesView {
        SharedTypesView {
            balance: self.balance@,
            account_id: self.account_id@,
            currency: self.currency@,
            event: self.event@,
            weight_to_fee: self.weight_to_fee@,
        }
    }
}

impl Clone for SharedTypes {
    fn clone(&self) -> (copy: Self)
        ensures
            copy@ == self@,
    {
        SharedTypes {
            balance: self.balance.clone(),
            account_id: self.account_id.clone(),
            currency: self.currency.clone(),
            event: self.event.clone(),
            weight_to_fee: self.weight_to_fee.clone(),
        }
    }
}

impl SharedTypes {
    /// The shared types under the names given.
    pub fn new(balance: &str, account_id: &str, currency: &str, event: &str, weight_to_fee: &str) -> (shared: SharedTypes)
        ensures
            shared@ == (SharedTypesView {
                balance: balance@,
                account_id: account_id@,
                currency: currency@,
                event: event@,
                weight_to_fee: weight_to_fee@,
            }),
    {
        SharedTypes {
            balance: balance.to_owned(),
            account_id: account_id.to_owned(),
            currency: currency.to_owned(),
            event: event.to_owned(),
            weight_to_fee: weight_to_fee.to_owned(),
        }
    }

    /// The member of this kind.
    pub fn get(&self, kind: SharedKind) -> (name: &String)
        ensures
            name@ == self@.get(kind),
    {
        match kind {
            SharedKind::Balance => &self.balance,
            SharedKind::AccountId => &self.account_id,
            SharedKind::Currency => &self.currency,
            SharedKind::Event => &self.event,
            SharedKind::WeightToFee => &self.weight_to_fee,
        }
    }
}

/// One binding of a profile: the contract, the slot, and what is bound.
#[derive(Debug, PartialEq, Eq)]
pub struct Bound {
    pub contract: String,
    pub slot: String,
    pub value: Binding,
}

/// The mathematical content of a [`Bound`].
pub struct BoundView {
    pub contract: Seq<char>,
    pub slot: Seq<char>,
    pub value: BindingView,
}

impl View for Bound {
    type V = BoundView;

    open spec fn view(&self) -> BoundView {
        BoundView { contract: self.contract@, slot: self.slot@, value: self.value@ }
    }
}

/// A contract's name and a slot's name: what a profile binds.
pub type SlotKey = (Seq<char>, Seq<char>);

/// The mapping that a list of bindings stands for. A later binding of a
/// slot replaces an earlier one.
pub open spec fn bindings_of(entries: Seq<BoundView>) -> Map<SlotKey, BindingView>
    decreases entries.len(),
{
    if entries.len() == 0 {
        Map::empty()
    } else {
        let last = entries.last();
        bindings_of(entries.drop_last()).insert((last.contract, last.slot), last.value)
    }
}

/// The last binding of a key is the one that counts.
proof fn lemma_last_binding_counts(entries: Seq<BoundView>, key: SlotKey, at: int)
    requires
        0 <= at < entries.len(),
        (entries[at].contract, entries[at].slot) == key,
        forall|j: int| at < j < entries.len() ==> (#[trigger] entries[j].contract, entries[j].slot) != key,
    ensures
        bindings_of(entries).contains_key(key),
        bindings_of(entries)[key] == entries[at].value,
    decreases entries.len(),
{
    if at < entries.len() - 1 {
        let last = entries.last();
        assert((last.contract, last.slot) != key);
        lemma_last_binding_counts(entries.drop_last(), key, at);
    }
}

/// A key that no binding names is not bound.
proof fn lemma_unnamed_is_unbound(entries: Seq<BoundView>, key: SlotKey)
    requires
        forall|j: int| 0 <= j < entries.len() ==> (#[trigger] entries[j].contract, entries[j].slot) != key,
    ensures
        !bindings_of(entries).contains_key(key),
    decreases entries.len(),
{
    if entries.len() > 0 {
        let last = entries.last();
        assert((last.contract, last.slot) != key);
        lemma_unnamed_is_unbound(entries.drop_last(), key);
    }
}

/// What a deployment supplies for one slot: the slot's name and, unless it
/// leaves the slot to its default, a value.
pub type Supplied = (Seq<char>, Option<BindingView>);

/// The views of what is supplied, in order.
pub open spec fn supplied_views(supplied: Seq<(String, Option<Binding>)>) -> Seq<Supplied> {
    Seq::new(supplied.len(), |i: int| (supplied[i].0@, optional_view(supplied[i].1)))
}

/// The mathematical content of a [`Profile`]: the contracts it claims to
/// implement, in the order of the claims, and the mapping from contract and
/// slot to what is bound.
pub struct ProfileView {
    pub claims: Seq<Seq<char>>,
    pub bindings: Map<SlotKey, BindingView>,
}

impl ProfileView {
    /// The profile that claims and binds nothing.
    pub open spec fn empty() -> ProfileView {
        ProfileView { claims: Seq::empty(), bindings: Map::empty() }
    }

    /// No contract is claimed twice.
    pub open spec fn wf(self) -> bool {
        self.claims.no_duplicates()
    }

    /// This profile claiming one more contract. A second claim of the same
    /// contract changes nothing.
    pub open spec fn implement(self, contract: Seq<char>) -> ProfileView {
        if self.claims.contains(contract) {
            self
        } else {
            ProfileView { claims: self.claims.push(contract), ..self }
        }
    }

    /// This profile with `value` bound to a slot, in place of whatever was
    /// bound to it.
    pub open spec fn bind(self, contract: Seq<char>, slot: Seq<char>, value: BindingView) -> ProfileView {
        ProfileView { bindings: self.bindings.insert((contract, slot), value), ..self }
    }

    /// This profile with `value`, if there is one, bound to a slot.
    pub open spec fn overriding(self, contract: Seq<char>, slot: Seq<char>, value: Option<BindingView>) -> ProfileView {
        match value {
            Some(value) => self.bind(contract, slot, value),
            None => self,
        }
    }

    /// This profile with everything that is supplied for a contract bound:
    /// for each pair in order, the value, if there is one, to the slot
    /// named.
    pub open spec fn supply(self, contract: Seq<char>, supplied: Seq<Supplied>) -> ProfileView
        decreases supplied.len(),
    {
        if supplied.len() == 0 {
            self
        } else {
            self.supply(contract, supplied.drop_last()).overriding(
                contract,
                supplied.last().0,
                supplied.last().1,
            )
        }
    }

    /// Bindings of different slots can be made in either order.
    pub proof fn lemma_bind_commutes(
        self,
        contract: Seq<char>,
        slot: Seq<char>,
        value: BindingView,
        other_contract: Seq<char>,
        other_slot: Seq<char>,
        other_value: BindingView,
    )
        requires
            (contract, slot) != (other_contract, other_slot),
        ensures
            self.bind(contract, slot, value).bind(other_contract, other_slot, other_value) == self.bind(
                other_contract,
                other_slot,
                other_value,
            ).bind(contract, slot, value),
    {
        assert(self.bindings.insert((contract, slot), value).insert(
            (other_contract, other_slot),
            other_value,
        ) =~= self.bindings.insert((other_contract, other_slot), other_value).insert(
            (contract, slot),
            value,
        ));
    }

    /// What is supplied with a value is bound afterwards, the claims stand,
    /// and other contracts keep their bindings.
    pub proof fn lemma_supply(self, contract: Seq<char>, supplied: Seq<Supplied>)
        ensures
            self.supply(contract, supplied).claims == self.claims,
            forall|k: int|
                0 <= k < supplied.len() && (#[trigger] supplied[k]).1 is Some ==> self.supply(
                    contract,
                    supplied,
                ).binding(contract, supplied[k].0) is Some,
            forall|other: Seq<char>, slot: Seq<char>|
                other != contract ==> #[trigger] self.supply(contract, supplied).binding(other, slot)
                    == self.binding(other, slot),
            forall|slot: Seq<char>|
                self.binding(contract, slot) is Some ==> #[trigger] self.supply(contract, supplied).binding(
                    contract,
                    slot,
                ) is Some,
        decreases supplied.len(),
    {
        if supplied.len() > 0 {
            self.lemma_supply(contract, supplied.drop_last());
            assert forall|k: int| 0 <= k < supplied.len() && (#[trigger] supplied[k]).1 is Some implies self.supply(
                contract,
                supplied,
            ).binding(contract, supplied[k].0) is Some by {
                if k < supplied.len() - 1 {
                    assert(supplied.drop_last()[k] == supplied[k]);
                }
            }
            let before = self.supply(contract, supplied.drop_last());
            assert forall|other: Seq<char>, slot: Seq<char>| other != contract implies #[trigger] self.supply(
                contract,
                supplied,
            ).binding(other, slot) == self.binding(other, slot) by {
                assert(before.binding(other, slot) == self.binding(other, slot));
            }
            assert forall|slot: Seq<char>| self.binding(contract, slot) is Some implies #[trigger] self.supply(
                contract,
                supplied,
            ).binding(contract, slot) is Some by {
                assert(before.binding(contract, slot) is Some);
            }
        }
    }

    /// What the profile binds to a slot, if anything.
    pub open spec fn binding(self, contract: Seq<char>, slot: Seq<char>) -> Option<BindingView> {
        if self.bindings.contains_key((contract, slot)) {
            Some(self.bindings[(contract, slot)])
        } else {
            None
        }
    }
}

/// The description of one deployment: which contracts it implements, and
/// what it binds to their slots.
#[derive(Debug, PartialEq, Eq)]
pub struct Profile {
    claims: Vec<String>,
    entries: Vec<Bound>,
}

impl View for Profile {
    type V = ProfileView;

    closed spec fn view(&self) -> ProfileView {
        ProfileView {
            claims: Seq::new(self.claims@.len(), |i: int| self.claims@[i]@),
            bindings: bindings_of(Seq::new(self.entries@.len(), |i: int| self.entries@[i]@)),
        }
    }
}

impl Profile {
    #[verifier::type_invariant]
    spec fn inv(self) -> bool {
        self@.wf()
    }

    /// The profile that claims and binds nothing.
    pub fn new() -> (profile: Profile)
        ensures
            profile@ == ProfileView::empty(),
            profile@.wf(),
    {
        let profile = Profile { claims: Vec::new(), entries: Vec::new() };
        assert(profile@.claims =~= Seq::empty());
        assert(Seq::new(profile.entries@.len(), |i: int| profile.entries@[i]@) =~= Seq::<BoundView>::empty());
        profile
    }

    /// The contracts claimed, in the order of the claims.
    pub fn claims(&self) -> (claims: &Vec<String>)
        ensures
            claims@.len() == self@.claims.len(),
            forall|i: int| 0 <= i < claims@.len() ==> #[trigger] claims@[i]@ == self@.claims[i],
            self@.wf(),
    {
        proof {
            use_type_invariant(self);
        }
        &self.claims
    }

    /// Whether the profile claims to implement the contract.
    pub fn implements(&self, contract: &str) -> (yes: bool)
        ensures
            yes == self@.claims.contains(contract@),
    {
        let mut i: usize = 0;
        while i < self.claims.len()
            invariant
                i <= self.claims.len(),
                forall|k: int| 0 <= k < i ==> #[trigger] self@.claims[k] != contract@,
            decreases self.claims.len() - i,
        {
            if same_text(self.claims[i].as_str(), contract) {
                assert(self@.claims[i as int] == contract@);
                return true;
            }
            i += 1;
        }
        false
    }

    /// Claims one more contract. A second claim of the same contract
    /// changes nothing.
    pub fn implement(self, contract: &str) -> (next: Profile)
        ensures
            next@ == self@.implement(contract@),
            next@.wf(),
    {
        proof {
            use_type_invariant(&self);
        }
        if self.implements(contract) {
            self
        } else {
            let ghost before = self@;
            let Profile { mut claims, entries } = self;
            claims.push(contract.to_owned());
            proof {
                let after = Seq::new(claims@.len(), |i: int| claims@[i]@);
                assert(after =~= before.claims.push(contract@));
                assert forall|i: int, j: int|
                    0 <= i < after.len() && 0 <= j < after.len() && i != j implies after[i]
                    != after[j] by {
                    if i < before.claims.len() {
                        assert(before.claims.contains(before.claims[i]));
                    }
                    if j < before.claims.len() {
                        assert(before.claims.contains(before.claims[j]));
                    }
                }
            }
            Profile { claims, entries }
        }
    }

    /// Binds `value` to a slot, in place of whatever was bound to it.
    pub fn bind(self, contract: &str, slot: &str, value: Binding) -> (next: Profile)
        ensures
            next@ == self@.bind(contract@, slot@, value@),
            next@.wf(),
    {
        proof {
            use_type_invariant(&self);
        }
        let ghost before = Seq::new(self.entries@.len(), |i: int| self.entries@[i]@);
        let ghost claimed = self@.claims;
        let Profile { claims, mut entries } = self;
        entries.push(Bound { contract: contract.to_owned(), slot: slot.to_owned(), value });
        let next = Profile { claims, entries };
        proof {
            let after = Seq::new(next.entries@.len(), |i: int| next.entries@[i]@);
            assert(after.drop_last() =~= before);
            assert(next@.claims =~= claimed);
        }
        next
    }

    /// Binds `value`, if there is one, to a slot; `None` leaves the slot as
    /// it is.
    pub fn overriding(self, contract: &str, slot: &str, value: Option<Binding>) -> (next: Profile)
        ensures
            next@ == self@.overriding(contract@, slot@, optional_view(value)),
            next@.wf(),
    {
        proof {
            use_type_invariant(&self);
        }
        match value {
            Some(value) => self.bind(contract, slot, value),
            None => self,
        }
    }

    /// Binds everything that is supplied for a contract: for each pair in
    /// order, the value, if there is one, to the slot named.
    pub fn supply(self, contract: &str, supplied: &Vec<(String, Option<Binding>)>) -> (next: Profile)
        ensures
            next@ == self@.supply(contract@, supplied_views(supplied@)),
            next@.wf(),
    {
        proof {
            use_type_invariant(&self);
        }
        let ghost start = self@;
        let ghost all = supplied_views(supplied@);
        let mut next = self;
        let mut i: usize = 0;
        assert(all.take(0) =~= Seq::empty());
        while i < supplied.len()
            invariant
                i <= supplied.len(),
                all == supplied_views(supplied@),
                next@ == start.supply(contract@, all.take(i as int)),
                next@.wf(),
            decreases supplied.len() - i,
        {
            assert(all.take(i + 1).drop_last() =~= all.take(i as int));
            assert(all.take(i + 1).last() == all[i as int]);
            next = next.overriding(contract, supplied[i].0.as_str(), clone_optional(&supplied[i].1));
            i += 1;
        }
        assert(all.take(i as int) =~= all);
        next
    }

    /// What the profile binds to a slot, if anything.
    pub fn binding(&self, contract: &str, slot: &str) -> (found: Option<&Binding>)
        ensures
            match found {
                Some(value) => self@.binding(contract@, slot@) == Some(value@),
                None => self@.binding(contract@, slot@) is None,
            },
    {
        let ghost entries = Seq::new(self.entries@.len(), |i: int| self.entries@[i]@);
        let ghost key = (contract@, slot@);
        let mut i: usize = self.entries.len();
        while i > 0
            invariant
                i <= self.entries.len(),
                entries == Seq::new(self.entries@.len(), |i: int| self.entries@[i]@),
                key == (contract@, slot@),
                forall|j: int| i <= j < entries.len() ==> (#[trigger] entries[j].contract, entries[j].slot) != key,
            decreases i,
        {
            i -= 1;
            if same_text(self.entries[i].contract.as_str(), contract) && same_text(
                self.entries[i].slot.as_str(),
                slot,
            ) {
                proof {
                    lemma_last_binding_counts(entries, key, i as int);
                }
                return Some(&self.entries[i].value);
            }
        }
        proof {
            lemma_unnamed_is_unbound(entries, key);
        }
        None
    }
}

} // verus!
