//! Configuration contracts: named schemas of slots, and the modules that a
//! contract governs.

use crate::model::{same_text, views};
use vstd::prelude::*;

verus! {

/// What kind of thing a slot holds.
#[derive(Debug, Clone, Copy, PartialEq, Eq, Structural)]
pub enum Category {
    /// A numeric constant, such as a queue limit.
    Constant,
    /// A type alias.
    TypeAlias,
    /// A type that authorizes an origin.
    Origin,
    /// A type that supplies a module's weights.
    WeightInfo,
}

/// A member of the deployment-wide set of shared types.
#[derive(Debug, Clone, Copy, PartialEq, Eq, Structural)]
pub enum SharedKind {
    Balance,
    AccountId,
    Currency,
    Event,
    WeightToFee,
}

/// How a module takes the value wired to one of its fields.
#[derive(Debug, Clone, Copy, PartialEq, Eq, Structural)]
pub enum Adapter {
    /// As it is.
    Direct,
    /// In the codec's compact encoding.
    Compact,
    /// As the factor of a constant multiplier over the shared balance.
    ConstantMultiplier,
    /// As the currency behind a fungible adapter.
    FungibleAdapter,
}

/// A concrete value or type bound to a slot.
#[derive(Debug, PartialEq, Eq)]
pub enum Binding {
    /// The unit type `()`.
    Unit,
    /// A numeric constant.
    Constant(u32),
    /// Any other type or constant expression, as written.
    Verbatim(String),
}

/// The mathematical content of a [`Binding`].
pub enum BindingView {
    Unit,
    Constant(u32),
    Verbatim(Seq<char>),
}

impl View for Binding {
    type V = BindingView;

    open spec fn view(&self) -> BindingView {
        match self {
            Binding::Unit => BindingView::Unit,
            Binding::Constant(n) => BindingView::Constant(*n),
            Binding::Verbatim(text) => BindingView::Verbatim(text@),
        }
    }
}

impl Clone for Binding {
    fn clone(&self) -> (copy: Self)
        ensures
            copy@ == self@,
    {
        match self {
            Binding::Unit => Binding::Unit,
            Binding::Constant(n) => Binding::Constant(*n),
            Binding::Verbatim(text) => Binding::Verbatim(text.clone()),
        }
    }
}

impl Binding {
    /// A binding to the type or expression written in `text`.
    pub fn verbatim(text: &str) -> (binding: Binding)
        ensures
            binding@ == BindingView::Verbatim(text@),
    {
        Binding::Verbatim(text.to_owned())
    }
}

/// The view of an optional binding.
pub open spec fn optional_view(binding: Option<Binding>) -> Option<BindingView> {
    match binding {
        Some(b) => Some(b@),
        None => None,
    }
}

/// Copies an optional binding.
pub fn clone_optional(binding: &Option<Binding>) -> (copy: Option<Binding>)
    ensures
        optional_view(copy) == optional_view(*binding),
{
    match binding {
        Some(b) => Some(b.clone()),
        None => None,
    }
}

/// One slot of a contract. A slot with a default is *defaulted*; one
/// without is *required*.
#[derive(Debug, PartialEq, Eq)]
pub struct Slot {
    pub name: String,
    pub category: Category,
    pub default: Option<Binding>,
}

/// The mathematical content of a [`Slot`].
pub struct SlotView {
    pub name: Seq<char>,
    pub category: Category,
    pub default: Option<BindingView>,
}

impl View for Slot {
    type V = SlotView;

    open spec fn view(&self) -> SlotView {
        SlotView {
            name: self.name@,
            category: self.category,
            default: optional_view(self.default),
        }
    }
}

impl Clone for Slot {
    fn clone(&self) -> (copy: Self)
        ensures
            copy@ == self@,
    {
        Slot {
            name: self.name.clone(),
            category: self.category,
            default: clone_optional(&self.default),
        }
    }
}

impl SlotView {
    /// A slot that every profile must bind.
    pub open spec fn required(name: Seq<char>, category: Category) -> SlotView {
        SlotView { name, category, default: None }
    }

    /// A slot that falls back to `default`.
    pub open spec fn defaulted(name: Seq<char>, category: Category, default: BindingView) -> SlotView {
        SlotView { name, category, default: Some(default) }
    }
}

impl Slot {
    /// A slot that every profile must bind.
    pub fn required(name: &str, category: Category) -> (slot: Slot)
        ensures
            slot@ == SlotView::required(name@, category),
    {
        Slot { name: name.to_owned(), category, default: None }
    }

    /// A slot that falls back to `default`.
    pub fn defaulted(name: &str, category: Category, default: Binding) -> (slot: Slot)
        ensures
            slot@ == SlotView::defaulted(name@, category, default@),
    {
        Slot { name: name.to_owned(), category, default: Some(default) }
    }
}

/// Where the value of a module's field comes from.
#[derive(Debug, PartialEq, Eq)]
pub enum Source {
    /// The value resolved for the named slot of the governing contract.
    Slot(String),
    /// A member of the deployment-wide set of shared types.
    Shared(SharedKind),
    /// A value that the wiring itself fixes.
    Fixed(Binding),
}

/// The mathematical content of a [`Source`].
pub enum SourceView {
    Slot(Seq<char>),
    Shared(SharedKind),
    Fixed(BindingView),
}

impl View for Source {
    type V = SourceView;

    open spec fn view(&self) -> SourceView {
        match self {
            Source::Slot(name) => SourceView::Slot(name@),
            Source::Shared(kind) => SourceView::Shared(*kind),
            Source::Fixed(binding) => SourceView::Fixed(binding@),
        }
    }
}

impl Clone for Source {
    fn clone(&self) -> (copy: Self)
        ensures
            copy@ == self@,
    {
        match self {
            Source::Slot(name) => Source::Slot(name.clone()),
            Source::Shared(kind) => Source::Shared(*kind),
            Source::Fixed(binding) => Source::Fixed(binding.clone()),
        }
    }
}

/// One field of a module's configuration, and how it is wired.
#[derive(Debug, PartialEq, Eq)]
pub struct Field {
    pub name: String,
    pub source: Source,
    pub adapter: Adapter,
}

/// The mathematical content of a [`Field`].
pub struct FieldView {
    pub name: Seq<char>,
    pub source: SourceView,
    pub adapter: Adapter,
}

impl View for Field {
    type V = FieldView;

    open spec fn view(&self) -> FieldView {
        FieldView { name: self.name@, source: self.source@, adapter: self.adapter }
    }
}

impl FieldView {
    pub open spec fn slot(name: Seq<char>, slot: Seq<char>) -> FieldView {
        FieldView { name, source: SourceView::Slot(slot), adapter: Adapter::Direct }
    }

    pub open spec fn adapted(name: Seq<char>, source: SourceView, adapter: Adapter) -> FieldView {
        FieldView { name, source, adapter }
    }

    pub open spec fn shared(name: Seq<char>, kind: SharedKind) -> FieldView {
        FieldView { name, source: SourceView::Shared(kind), adapter: Adapter::Direct }
    }

    pub open spec fn fixed(name: Seq<char>, value: BindingView) -> FieldView {
        FieldView { name, source: SourceView::Fixed(value), adapter: Adapter::Direct }
    }
}

impl Field {
    /// A field that takes the value of a slot as it is.
    pub fn slot(name: &str, slot: &str) -> (field: Field)
        ensures
            field@ == FieldView::slot(name@, slot@),
    {
        Field { name: name.to_owned(), source: Source::Slot(slot.to_owned()), adapter: Adapter::Direct }
    }

    /// A field that takes its source through an adapter.
    pub fn adapted(name: &str, source: Source, adapter: Adapter) -> (field: Field)
        ensures
            field@ == FieldView::adapted(name@, source@, adapter),
    {
        Field { name: name.to_owned(), source, adapter }
    }

    /// A field that takes a shared type as it is.
    pub fn shared(name: &str, kind: SharedKind) -> (field: Field)
        ensures
            field@ == FieldView::shared(name@, kind),
    {
        Field { name: name.to_owned(), source: Source::Shared(kind), adapter: Adapter::Direct }
    }

    /// A field whose value the wiring fixes.
    pub fn fixed(name: &str, value: Binding) -> (field: Field)
        ensures
            field@ == FieldView::fixed(name@, value@),
    {
        Field { name: name.to_owned(), source: Source::Fixed(value), adapter: Adapter::Direct }
    }
}

/// The wiring of one module: the name it has in the runtime, the crate that
/// defines it, and its fields in order.
#[derive(Debug, PartialEq, Eq)]
pub struct ModuleTemplate {
    pub pallet: String,
    pub krate: String,
    pub fields: Vec<Field>,
}

/// The mathematical content of a [`ModuleTemplate`].
pub struct ModuleTemplateView {
    pub pallet: Seq<char>,
    pub krate: Seq<char>,
    pub fields: Seq<FieldView>,
}

impl View for ModuleTemplate {
    type V = ModuleTemplateView;

    open spec fn view(&self) -> ModuleTemplateView {
        ModuleTemplateView { pallet: self.pallet@, krate: self.krate@, fields: views(self.fields@) }
    }
}

impl ModuleTemplateView {
    /// The wiring of a module that has no fields yet.
    pub open spec fn empty(pallet: Seq<char>, krate: Seq<char>) -> ModuleTemplateView {
        ModuleTemplateView { pallet, krate, fields: Seq::empty() }
    }

    /// This wiring with one more field at the end.
    pub open spec fn with_field(self, field: FieldView) -> ModuleTemplateView {
        ModuleTemplateView { fields: self.fields.push(field), ..self }
    }
}

impl ModuleTemplate {
    /// The wiring of a module that has no fields yet.
    pub fn new(pallet: &str, krate: &str) -> (module: ModuleTemplate)
        ensures
            module@ == ModuleTemplateView::empty(pallet@, krate@),
    {
        let module = ModuleTemplate {
            pallet: pallet.to_owned(),
            krate: krate.to_owned(),
            fields: Vec::new(),
        };
        assert(module@.fields =~= Seq::empty());
        module
    }

    /// Adds a field at the end.
    pub fn with_field(self, field: Field) -> (module: ModuleTemplate)
        ensures
            module@ == self@.with_field(field@),
    {
        let ghost before = self@;
        let ModuleTemplate { pallet, krate, mut fields } = self;
        fields.push(field);
        let module = ModuleTemplate { pallet, krate, fields };
        assert(module@.fields =~= before.fields.push(field@));
        module
    }
}

/// The mathematical content of a [`Contract`].
pub struct ContractView {
    pub name: Seq<char>,
    pub slots: Seq<SlotView>,
    pub modules: Seq<ModuleTemplateView>,
    pub benchmark: Option<Seq<char>>,
}

/// The character of a name at a place, or a blank where the name is
/// shorter.
pub open spec fn letter(name: Seq<char>, at: int) -> char {
    if 0 <= at < name.len() {
        name[at]
    } else {
        ' '
    }
}

/// A mark of a name: its length, and its letters at three places. Names
/// with different marks are different names.
pub open spec fn mark(name: Seq<char>) -> (nat, char, char, char) {
    (name.len(), letter(name, 3), letter(name, 5), letter(name, 13))
}

/// No two slots share a name.
pub open spec fn distinct_names(slots: Seq<SlotView>) -> bool {
    forall|i: int, j: int|
        0 <= i < j < slots.len() ==> #[trigger] slots[i].name != #[trigger] slots[j].name
}

impl ModuleTemplateView {
    /// Every field that reads a slot names a slot of `contract`.
    pub open spec fn resolves_in(self, contract: ContractView) -> bool {
        forall|f: int|
            0 <= f < self.fields.len() ==> (#[trigger] self.fields[f].source matches SourceView::Slot(
                name,
            ) ==> contract.has_slot(name))
    }
}

impl ContractView {
    /// The contract of this name that declares nothing yet.
    pub open spec fn empty(name: Seq<char>) -> ContractView {
        ContractView { name, slots: Seq::empty(), modules: Seq::empty(), benchmark: None }
    }

    /// Whether a slot of this name exists.
    pub open spec fn has_slot(self, name: Seq<char>) -> bool {
        exists|i: int| 0 <= i < self.slots.len() && #[trigger] self.slots[i].name == name
    }

    /// The position of the slot of this name.
    pub open spec fn slot_index(self, name: Seq<char>) -> int {
        choose|i: int| 0 <= i < self.slots.len() && #[trigger] self.slots[i].name == name
    }

    /// The invariant of a contract: slot names are unique, and the wiring
    /// and the benchmark helper read only slots that exist.
    pub open spec fn wf(self) -> bool {
        &&& distinct_names(self.slots)
        &&& forall|m: int| 0 <= m < self.modules.len() ==> (#[trigger] self.modules[m]).resolves_in(self)
        &&& self.benchmark matches Some(name) ==> self.has_slot(name)
    }

    /// This contract with `slot` declared. A slot of the same name is
    /// replaced where it stands; a new name goes to the end.
    pub open spec fn with_slot(self, slot: SlotView) -> ContractView {
        if self.has_slot(slot.name) {
            ContractView { slots: self.slots.update(self.slot_index(slot.name), slot), ..self }
        } else {
            ContractView { slots: self.slots.push(slot), ..self }
        }
    }

    /// This contract governing one more module. A module whose wiring
    /// reads a slot that the contract does not declare is left out.
    pub open spec fn with_module(self, module: ModuleTemplateView) -> ContractView {
        if module.resolves_in(self) {
            ContractView { modules: self.modules.push(module), ..self }
        } else {
            self
        }
    }

    /// This contract with a benchmark helper for the type bound to the
    /// named slot. A name that the contract does not declare changes
    /// nothing.
    pub open spec fn with_benchmark(self, slot: Seq<char>) -> ContractView {
        if self.has_slot(slot) {
            ContractView { benchmark: Some(slot), ..self }
        } else {
            self
        }
    }

    /// This contract with all of `slots` declared, in their order.
    pub open spec fn declare_all(self, slots: Seq<SlotView>) -> ContractView
        decreases slots.len(),
    {
        if slots.len() == 0 {
            self
        } else {
            self.declare_all(slots.drop_last()).with_slot(slots.last())
        }
    }

    /// Declaring a slot keeps every name that was declared, and keeps the
    /// invariant.
    pub proof fn lemma_with_slot(self, slot: SlotView)
        requires
            self.wf(),
        ensures
            self.with_slot(slot).wf(),
            self.with_slot(slot).has_slot(slot.name),
            forall|name: Seq<char>| self.has_slot(name) ==> self.with_slot(slot).has_slot(name),
    {
        let next = self.with_slot(slot);
        if self.has_slot(slot.name) {
            let at = self.slot_index(slot.name);
            assert(next.slots[at].name == slot.name);
            assert forall|i: int| 0 <= i < self.slots.len() implies #[trigger] next.slots[i].name
                == self.slots[i].name by {}
            assert forall|name: Seq<char>| self.has_slot(name) implies next.has_slot(name) by {
                let i = self.slot_index(name);
                assert(next.slots[i].name == name);
            }
        } else {
            let last = self.slots.len() as int;
            assert(next.slots[last].name == slot.name);
            assert forall|name: Seq<char>| self.has_slot(name) implies next.has_slot(name) by {
                let i = self.slot_index(name);
                assert(next.slots[i].name == name);
            }
        }
        assert forall|m: int| 0 <= m < next.modules.len() implies (#[trigger] next.modules[m]).resolves_in(
            next,
        ) by {
            assert(self.modules[m].resolves_in(self));
        }
    }

    /// Declaring slots of distinct names on a contract that declares
    /// nothing yet gives exactly those slots, in their order.
    pub proof fn lemma_declare_all_distinct(name: Seq<char>, slots: Seq<SlotView>)
        requires
            distinct_names(slots),
        ensures
            ContractView::empty(name).declare_all(slots) == (ContractView {
                slots,
                ..ContractView::empty(name)
            }),
        decreases slots.len(),
    {
        let start = ContractView::empty(name);
        if slots.len() > 0 {
            let front = slots.drop_last();
            assert forall|i: int, j: int| 0 <= i < j < front.len() implies #[trigger] front[i].name
                != #[trigger] front[j].name by {
                assert(slots[i].name != slots[j].name);
            }
            ContractView::lemma_declare_all_distinct(name, front);
            let before = start.declare_all(front);
            assert(!before.has_slot(slots.last().name)) by {
                if before.has_slot(slots.last().name) {
                    let i = before.slot_index(slots.last().name);
                    assert(slots[i].name != slots[slots.len() - 1].name);
                }
            }
            assert(before.with_slot(slots.last()).slots =~= slots);
        } else {
            assert(start.slots =~= slots);
        }
    }

    /// Governing a module keeps the invariant.
    pub proof fn lemma_with_module(self, module: ModuleTemplateView)
        requires
            self.wf(),
        ensures
            self.with_module(module).wf(),
    {
        let next = self.with_module(module);
        if module.resolves_in(self) {
            assert forall|m: int| 0 <= m < next.modules.len() implies (
            #[trigger] next.modules[m]).resolves_in(next) by {
                if m < self.modules.len() {
                    assert(self.modules[m].resolves_in(self));
                }
            }
        }
    }
}

/// A configuration contract: a named schema of slots, the modules that it
/// governs, and the slot, if any, whose type a benchmark helper builds.
///
/// Slot names are unique within a contract, and the wiring of its modules
/// reads only slots that the contract declares.
#[derive(Debug, PartialEq, Eq)]
pub struct Contract {
    name: String,
    slots: Vec<Slot>,
    modules: Vec<ModuleTemplate>,
    benchmark: Option<String>,
}

impl View for Contract {
    type V = ContractView;

    closed spec fn view(&self) -> ContractView {
        ContractView {
            name: self.name@,
            slots: views(self.slots@),
            modules: views(self.modules@),
            benchmark: match self.benchmark {
                Some(name) => Some(name@),
                None => None,
            },
        }
    }
}

impl Contract {
    #[verifier::type_invariant]
    spec fn inv(self) -> bool {
        self@.wf()
    }

    /// A contract of this name that declares nothing yet.
    pub fn new(name: &str) -> (contract: Contract)
        ensures
            contract@ == ContractView::empty(name@),
            contract@.wf(),
    {
        let contract = Contract {
            name: name.to_owned(),
            slots: Vec::new(),
            modules: Vec::new(),
            benchmark: None,
        };
        assert(contract@.slots =~= Seq::empty());
        assert(contract@.modules =~= Seq::empty());
        contract
    }

    /// The name of the contract.
    pub fn name(&self) -> (name: &String)
        ensures
            name@ == self@.name,
    {
        &self.name
    }

    /// The slots, in the order of their declaration.
    pub fn slots(&self) -> (slots: &Vec<Slot>)
        ensures
            views(slots@) == self@.slots,
            self@.wf(),
    {
        proof {
            use_type_invariant(self);
        }
        &self.slots
    }

    /// The wiring of the modules that the contract governs, in order.
    pub fn modules(&self) -> (modules: &Vec<ModuleTemplate>)
        ensures
            views(modules@) == self@.modules,
            self@.wf(),
    {
        proof {
            use_type_invariant(self);
        }
        &self.modules
    }

    /// For each module that the contract governs, in order, the name it
    /// has in the runtime and the crate that defines it.
    pub fn pallet_names(&self) -> (names: Vec<(String, String)>)
        ensures
            names@.len() == self@.modules.len(),
            forall|m: int|
                0 <= m < names@.len() ==> (#[trigger] names@[m]).0@ == self@.modules[m].pallet
                    && names@[m].1@ == self@.modules[m].krate,
    {
        let mut names: Vec<(String, String)> = Vec::new();
        let mut m: usize = 0;
        while m < self.modules.len()
            invariant
                m <= self.modules.len(),
                names@.len() == m,
                forall|k: int|
                    0 <= k < m ==> (#[trigger] names@[k]).0@ == self@.modules[k].pallet && names@[k].1@
                        == self@.modules[k].krate,
            decreases self.modules.len() - m,
        {
            names.push((self.modules[m].pallet.clone(), self.modules[m].krate.clone()));
            m += 1;
        }
        names
    }

    /// The slot whose type the benchmark helper builds, if the contract
    /// has such a helper.
    pub fn benchmark(&self) -> (slot: &Option<String>)
        ensures
            match *slot {
                Some(name) => self@.benchmark == Some(name@),
                None => self@.benchmark is None,
            },
            self@.wf(),
    {
        proof {
            use_type_invariant(self);
        }
        &self.benchmark
    }

    /// Finds the slot of this name.
    pub fn find_slot(&self, name: &str) -> (found: Option<usize>)
        ensures
            match found {
                Some(i) => i < self@.slots.len() && self@.slots[i as int].name == name@ && i
                    == self@.slot_index(name@),
                None => !self@.has_slot(name@),
            },
    {
        proof {
            use_type_invariant(self);
        }
        let mut i: usize = 0;
        while i < self.slots.len()
            invariant
                i <= self.slots.len(),
                self@.wf(),
                forall|k: int| 0 <= k < i ==> #[trigger] self@.slots[k].name != name@,
            decreases self.slots.len() - i,
        {
            if same_text(self.slots[i].name.as_str(), name) {
                assert(self@.slots[i as int].name == name@);
                return Some(i);
            }
            i += 1;
        }
        None
    }

    /// Declares a slot. A slot of the same name is replaced where it
    /// stands; a new name goes to the end.
    pub fn with_slot(self, slot: Slot) -> (next: Contract)
        ensures
            next@ == self@.with_slot(slot@),
            next@.wf(),
    {
        proof {
            use_type_invariant(&self);
            self@.lemma_with_slot(slot@);
        }
        let ghost before = self@;
        let found = self.find_slot(slot.name.as_str());
        let Contract { name, mut slots, modules, benchmark } = self;
        match found {
            Some(i) => {
                slots.set(i, slot);
                assert(views(slots@) =~= before.slots.update(i as int, slot@));
            },
            None => {
                slots.push(slot);
                assert(views(slots@) =~= before.slots.push(slot@));
            },
        }
        Contract { name, slots, modules, benchmark }
    }

    /// Declares all of `slots`, in their order.
    pub fn declare_all(self, slots: &Vec<Slot>) -> (next: Contract)
        ensures
            next@ == self@.declare_all(views(slots@)),
            next@.wf(),
    {
        proof {
            use_type_invariant(&self);
        }
        let ghost start = self@;
        let ghost all = views(slots@);
        let mut next = self;
        let mut i: usize = 0;
        assert(all.take(0) =~= Seq::empty());
        while i < slots.len()
            invariant
                i <= slots.len(),
                all == views(slots@),
                next@ == start.declare_all(all.take(i as int)),
                next@.wf(),
            decreases slots.len() - i,
        {
            assert(all.take(i + 1).drop_last() =~= all.take(i as int));
            assert(all.take(i + 1).last() == slots@[i as int]@);
            next = next.with_slot(slots[i].clone());
            i += 1;
        }
        assert(all.take(i as int) =~= all);
        next
    }

    /// Whether every field of `module` that reads a slot names a slot of
    /// this contract.
    pub fn resolves(&self, module: &ModuleTemplate) -> (yes: bool)
        ensures
            yes == module@.resolves_in(self@),
    {
        let mut f: usize = 0;
        while f < module.fields.len()
            invariant
                f <= module.fields.len(),
                forall|k: int|
                    0 <= k < f ==> (#[trigger] module@.fields[k].source matches SourceView::Slot(name)
                        ==> self@.has_slot(name)),
            decreases module.fields.len() - f,
        {
            match &module.fields[f].source {
                Source::Slot(name) => {
                    if self.find_slot(name.as_str()).is_none() {
                        assert(module@.fields[f as int].source == SourceView::Slot(name@));
                        return false;
                    }
                },
                _ => {},
            }
            f += 1;
        }
        true
    }

    /// Puts one more module under the contract. A module whose wiring reads
    /// a slot that the contract does not declare is left out.
    pub fn with_module(self, module: ModuleTemplate) -> (next: Contract)
        ensures
            next@ == self@.with_module(module@),
            next@.wf(),
    {
        proof {
            use_type_invariant(&self);
            self@.lemma_with_module(module@);
        }
        let ghost before = self@;
        if self.resolves(&module) {
            let Contract { name, slots, mut modules, benchmark } = self;
            modules.push(module);
            assert(views(modules@) =~= before.modules.push(module@));
            Contract { name, slots, modules, benchmark }
        } else {
            self
        }
    }

    /// Gives the contract a benchmark helper for the type bound to the
    /// named slot. A name that the contract does not declare changes
    /// nothing.
    pub fn with_benchmark(self, slot: &str) -> (next: Contract)
        ensures
            next@ == self@.with_benchmark(slot@),
            next@.wf(),
    {
        proof {
            use_type_invariant(&self);
        }
        if self.find_slot(slot).is_some() {
            let Contract { name, slots, modules, benchmark: _ } = self;
            Contract { name, slots, modules, benchmark: Some(slot.to_owned()) }
        } else {
            self
        }
    }
}

} // verus!
