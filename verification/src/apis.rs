//! The API surface generator: from the type arguments of a deployment's
//! assembly point to one block of API wiring per functional area.

use crate::error::{GenError, GenErrorView};
use crate::ident::{fetch_ident, parse_type_ref, source_shape, TypeRef, TypeShapeView};
use crate::model::{
    collect, lemma_collect_all_or_nothing, lemma_collect_fails, lemma_collect_succeeds, outcome,
    same_text, views,
};
use vstd::prelude::*;

verus! {

/// A functional area of the runtime that has API wiring of its own.
#[derive(Debug, Clone, Copy, PartialEq, Eq, Structural)]
pub enum Area {
    Assets,
    Benchmark,
    Consensus,
    Evm,
    System,
    /// The chain-specific extension.
    Tanssi,
}

impl Area {
    /// The area that an assembly point means by `name`.
    pub open spec fn named(name: Seq<char>) -> Option<Area> {
        if name == "assets"@ {
            Some(Area::Assets)
        } else if name == "benchmark"@ {
            Some(Area::Benchmark)
        } else if name == "consensus"@ {
            Some(Area::Consensus)
        } else if name == "evm"@ {
            Some(Area::Evm)
        } else if name == "system"@ {
            Some(Area::System)
        } else if name == "tanssi"@ {
            Some(Area::Tanssi)
        } else {
            None
        }
    }

    /// The area that an assembly point means by `name`, if it is one.
    pub fn from_name(name: &str) -> (area: Option<Area>)
        ensures
            area == Area::named(name@),
    {
        if same_text(name, "assets") {
            Some(Area::Assets)
        } else if same_text(name, "benchmark") {
            Some(Area::Benchmark)
        } else if same_text(name, "consensus") {
            Some(Area::Consensus)
        } else if same_text(name, "evm") {
            Some(Area::Evm)
        } else if same_text(name, "system") {
            Some(Area::System)
        } else if same_text(name, "tanssi") {
            Some(Area::Tanssi)
        } else {
            None
        }
    }
}

/// One argument of the assembly point: the area it selects, by name, and
/// the type that it supplies for the area.
#[derive(Debug, PartialEq, Eq)]
pub struct AreaArg {
    pub area: String,
    pub ty: TypeRef,
}

/// The mathematical content of an [`AreaArg`].
pub struct AreaArgView {
    pub area: Seq<char>,
    pub source: Seq<char>,
    pub shape: TypeShapeView,
}

impl View for AreaArg {
    type V = AreaArgView;

    open spec fn view(&self) -> AreaArgView {
        AreaArgView { area: self.area@, source: self.ty.source@, shape: self.ty.shape@ }
    }
}

/// The API wiring of one area, keyed by the name of the type supplied for
/// it.
#[derive(Debug, PartialEq, Eq)]
pub struct ApiWiring {
    pub area: Area,
    pub key: String,
}

/// The mathematical content of an [`ApiWiring`].
pub struct ApiWiringView {
    pub area: Area,
    pub key: Seq<char>,
}

impl View for ApiWiring {
    type V = ApiWiringView;

    open spec fn view(&self) -> ApiWiringView {
        ApiWiringView { area: self.area, key: self.key@ }
    }
}

/// The wiring that one argument comes to. A name that is no area is an
/// unknown contract; a type that is no simple name is malformed.
pub open spec fn wiring_of(arg: AreaArgView) -> Result<ApiWiringView, GenErrorView> {
    match Area::named(arg.area) {
        None => Err(GenErrorView::UnknownContract { name: arg.area }),
        Some(area) => match arg.shape.simple_ident() {
            Some(key) => Ok(ApiWiringView { area, key }),
            None => Err(GenErrorView::MalformedTypeReference { syntax: arg.source }),
        },
    }
}

/// What each argument comes to, in the order of the arguments.
pub open spec fn wirings_of(args: Seq<AreaArgView>) -> Seq<Result<ApiWiringView, GenErrorView>> {
    Seq::new(args.len(), |k: int| wiring_of(args[k]))
}

/// The API surface of an assembly point: one wiring for each argument, in
/// the order of the arguments; or, all or nothing, the error of the first
/// argument that fails.
pub open spec fn apis_of(args: Seq<AreaArgView>) -> Result<Seq<ApiWiringView>, GenErrorView> {
    collect(wirings_of(args))
}

/// Derives the wiring of one area from its argument.
pub fn wire_area(arg: &AreaArg) -> (out: Result<ApiWiring, GenError>)
    ensures
        outcome(out) == wiring_of(arg@),
{
    match Area::from_name(arg.area.as_str()) {
        None => Err(GenError::UnknownContract { name: arg.area.clone() }),
        Some(area) => match fetch_ident(&arg.ty) {
            Ok(key) => Ok(ApiWiring { area, key }),
            Err(error) => Err(error),
        },
    }
}

/// Emits the API wiring of every area that the assembly point selects.
///
/// The first argument that fails ends the generation, with its error, and
/// nothing is emitted for any area.
pub fn generate_apis(args: &Vec<AreaArg>) -> (out: Result<Vec<ApiWiring>, GenError>)
    ensures
        match apis_of(views(args@)) {
            Ok(wirings) => out is Ok && views(out->Ok_0@) == wirings,
            Err(error) => out is Err && out->Err_0@ == error,
        },
{
    let ghost steps = wirings_of(views(args@));
    let mut wirings: Vec<ApiWiring> = Vec::new();
    let mut k: usize = 0;
    while k < args.len()
        invariant
            k <= args.len(),
            steps == wirings_of(views(args@)),
            wirings@.len() == k,
            forall|j: int| 0 <= j < k ==> #[trigger] steps[j] == Ok::<ApiWiringView, GenErrorView>(wirings@[j]@),
        decreases args.len() - k,
    {
        let step = wire_area(&args[k]);
        assert(outcome(step) == steps[k as int]);
        match step {
            Ok(wiring) => {
                wirings.push(wiring);
            },
            Err(error) => {
                proof {
                    lemma_collect_fails(steps, k as int);
                }
                return Err(error);
            },
        }
        k += 1;
    }
    proof {
        lemma_collect_succeeds(steps);
        assert(views(wirings@) =~= Seq::new(steps.len(), |k: int| steps[k]->Ok_0));
    }
    Ok(wirings)
}

/// The argument that a name and a piece of source text come to. Text that
/// has no shape is malformed.
pub open spec fn read_arg(area: Seq<char>, source: Seq<char>) -> Result<AreaArgView, GenErrorView> {
    match source_shape(source) {
        Some(shape) => Ok(AreaArgView { area, source, shape }),
        None => Err(GenErrorView::MalformedTypeReference { syntax: source }),
    }
}

/// Reads one argument of the assembly point from its text.
pub fn parse_area_arg(area: &str, source: &str) -> (out: Result<AreaArg, GenError>)
    ensures
        outcome(out) == read_arg(area@, source@),
{
    match parse_type_ref(source) {
        Ok(ty) => Ok(AreaArg { area: area.to_owned(), ty }),
        Err(error) => Err(error),
    }
}

/// What one argument, given as text, comes to: it is read, then wired.
pub open spec fn text_wiring(area: Seq<char>, source: Seq<char>) -> Result<ApiWiringView, GenErrorView> {
    match read_arg(area, source) {
        Ok(arg) => wiring_of(arg),
        Err(error) => Err(error),
    }
}

/// What each argument, given as text, comes to.
pub open spec fn text_wirings(args: Seq<(String, String)>) -> Seq<Result<ApiWiringView, GenErrorView>> {
    Seq::new(args.len(), |k: int| text_wiring(args[k].0@, args[k].1@))
}

/// Emits the API wiring of an assembly point whose arguments are given as
/// text: for each, the name of the area and the source of the type.
///
/// The first argument that fails ends the generation, with its error, and
/// nothing is emitted for any area.
pub fn generate_apis_from_text(args: &Vec<(String, String)>) -> (out: Result<Vec<ApiWiring>, GenError>)
    ensures
        match collect(text_wirings(args@)) {
            Ok(wirings) => out is Ok && views(out->Ok_0@) == wirings,
            Err(error) => out is Err && out->Err_0@ == error,
        },
{
    let ghost steps = text_wirings(args@);
    let mut wirings: Vec<ApiWiring> = Vec::new();
    let mut k: usize = 0;
    while k < args.len()
        invariant
            k <= args.len(),
            steps == text_wirings(args@),
            wirings@.len() == k,
            forall|j: int| 0 <= j < k ==> #[trigger] steps[j] == Ok::<ApiWiringView, GenErrorView>(wirings@[j]@),
        decreases args.len() - k,
    {
        let step = match parse_area_arg(args[k].0.as_str(), args[k].1.as_str()) {
            Ok(arg) => wire_area(&arg),
            Err(error) => Err(error),
        };
        assert(outcome(step) == steps[k as int]);
        match step {
            Ok(wiring) => {
                wirings.push(wiring);
            },
            Err(error) => {
                proof {
                    lemma_collect_fails(steps, k as int);
                }
                return Err(error);
            },
        }
        k += 1;
    }
    proof {
        lemma_collect_succeeds(steps);
        assert(views(wirings@) =~= Seq::new(steps.len(), |k: int| steps[k]->Ok_0));
    }
    Ok(wirings)
}

/// The assembly point selects the area.
pub open spec fn selected(args: Seq<AreaArgView>, area: Area) -> bool {
    exists|k: int| 0 <= k < args.len() && Area::named(#[trigger] args[k].area) == Some(area)
}

/// A wiring is emitted for the area.
pub open spec fn emitted(wirings: Seq<ApiWiringView>, area: Area) -> bool {
    exists|k: int| 0 <= k < wirings.len() && (#[trigger] wirings[k]).area == area
}

/// No area is selected twice.
pub open spec fn areas_distinct(args: Seq<AreaArgView>) -> bool {
    forall|i: int, j: int|
        0 <= i < j < args.len() ==> Area::named(#[trigger] args[i].area) != Area::named(#[trigger] args[j].area)
}

/// Every selected area gets exactly one wiring, and an area that is not
/// selected gets none: where the generation succeeds, the wirings stand
/// one to one against the arguments, each for the area and under the name
/// of its argument; and where no area is selected twice, no two wirings
/// are for the same area.
pub proof fn lemma_one_wiring_per_area(args: Seq<AreaArgView>)
    requires
        apis_of(args) is Ok,
    ensures
        apis_of(args)->Ok_0.len() == args.len(),
        forall|k: int|
            0 <= k < args.len() ==> Area::named(args[k].area) == Some((#[trigger] apis_of(args)->Ok_0[k]).area)
                && args[k].shape.simple_ident() == Some(apis_of(args)->Ok_0[k].key),
        forall|area: Area| #[trigger] emitted(apis_of(args)->Ok_0, area) <==> selected(args, area),
        areas_distinct(args) ==> forall|i: int, j: int|
            0 <= i < j < args.len() ==> (#[trigger] apis_of(args)->Ok_0[i]).area != (
            #[trigger] apis_of(args)->Ok_0[j]).area,
{
    let steps = wirings_of(args);
    let wirings = apis_of(args)->Ok_0;
    lemma_collect_all_or_nothing(steps);
    assert forall|k: int| 0 <= k < args.len() implies Area::named(args[k].area) == Some(
        (#[trigger] wirings[k]).area,
    ) && args[k].shape.simple_ident() == Some(wirings[k].key) by {
        assert(steps[k] == Ok::<ApiWiringView, GenErrorView>(wirings[k]));
    }
    assert forall|area: Area| #[trigger] emitted(wirings, area) <==> selected(args, area) by {
        if emitted(wirings, area) {
            let k = choose|k: int| 0 <= k < wirings.len() && (#[trigger] wirings[k]).area == area;
            assert(Area::named(args[k].area) == Some(area));
        }
        if selected(args, area) {
            let k = choose|k: int| 0 <= k < args.len() && Area::named(#[trigger] args[k].area) == Some(area);
            assert(wirings[k].area == area);
        }
    }
    if areas_distinct(args) {
        assert forall|i: int, j: int| 0 <= i < j < args.len() implies (#[trigger] wirings[i]).area != (
        #[trigger] wirings[j]).area by {
            assert(Area::named(args[i].area) == Some(wirings[i].area));
            assert(Area::named(args[j].area) == Some(wirings[j].area));
        }
    }
}

/// A generation fails exactly where one of its arguments does, whatever
/// their order, and then nothing is emitted.
pub proof fn lemma_one_bad_argument_fails_all(args: Seq<AreaArgView>, at: int)
    requires
        0 <= at < args.len(),
        wiring_of(args[at]) is Err,
    ensures
        apis_of(args) is Err,
{
    let steps = wirings_of(args);
    lemma_collect_all_or_nothing(steps);
    assert(steps[at] is Err);
}

/// The order of the arguments decides the order of the wirings and nothing
/// else: with two arguments exchanged, the generation succeeds or fails as
/// before, and where it succeeds its wirings are the same with those two
/// exchanged.
pub proof fn lemma_order_independent(args: Seq<AreaArgView>, i: int, j: int)
    requires
        0 <= i < args.len(),
        0 <= j < args.len(),
    ensures
        apis_of(args.update(i, args[j]).update(j, args[i])) is Ok <==> apis_of(args) is Ok,
        apis_of(args) is Ok ==> apis_of(args.update(i, args[j]).update(j, args[i]))->Ok_0 == apis_of(
            args,
        )->Ok_0.update(i, apis_of(args)->Ok_0[j]).update(j, apis_of(args)->Ok_0[i]),
{
    let swapped = args.update(i, args[j]).update(j, args[i]);
    let before = wirings_of(args);
    let after = wirings_of(swapped);
    lemma_collect_all_or_nothing(before);
    lemma_collect_all_or_nothing(after);
    if apis_of(args) is Ok {
        assert forall|k: int| 0 <= k < after.len() implies (#[trigger] after[k]) is Ok by {
            if k == j {
                assert(before[i] is Ok);
            } else if k == i {
                assert(before[j] is Ok);
            } else {
                assert(before[k] is Ok);
            }
        }
        let old_wirings = apis_of(args)->Ok_0;
        let new_wirings = apis_of(swapped)->Ok_0;
        assert forall|k: int| 0 <= k < new_wirings.len() implies new_wirings[k] == old_wirings.update(
            i,
            old_wirings[j],
        ).update(j, old_wirings[i])[k] by {
            assert(after[k] == Ok::<ApiWiringView, GenErrorView>(new_wirings[k]));
            assert(before[k] == Ok::<ApiWiringView, GenErrorView>(old_wirings[k]));
            assert(before[i] == Ok::<ApiWiringView, GenErrorView>(old_wirings[i]));
            assert(before[j] == Ok::<ApiWiringView, GenErrorView>(old_wirings[j]));
        }
        assert(new_wirings =~= old_wirings.update(i, old_wirings[j]).update(j, old_wirings[i]));
    }
    if apis_of(swapped) is Ok {
        assert forall|k: int| 0 <= k < before.len() implies (#[trigger] before[k]) is Ok by {
            if k == j {
                assert(after[i] is Ok);
            } else if k == i {
                assert(after[j] is Ok);
            } else {
                assert(after[k] is Ok);
            }
        }
    }
}

} // verus!
