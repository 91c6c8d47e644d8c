//! What holds of every instance and every registry, proved over the models.

use crate::error::{AddErrorView, BuildErrorView, RegistryErrorView, SearchErrorView};
use crate::family::Family;
use crate::instance::{best, InstanceView, Lifecycle, PhaseView};
use crate::metric::Metric;
use crate::registry::{
    add_result, admits_add, admits_add_batch, after_add, after_build, after_create, build_result,
    create_result, search_result, RegistryView,
};
use vstd::prelude::*;

verus! {

/// One call that can change an instance, with what the engine reported of
/// it.
pub ghost enum Call {
    Add { len: nat, id: usize, report: Result<(), Seq<char>> },
    Build { metric: Metric, report: Result<(), Seq<char>> },
}

/// The instance after one call.
pub open spec fn step(instance: InstanceView, call: Call) -> InstanceView {
    match call {
        Call::Add { len, id, report } => instance.after_add(len, id, report),
        Call::Build { metric, report } => instance.after_build(metric, report),
    }
}

/// Whether the call is a build that succeeds on the instance.
pub open spec fn builds(instance: InstanceView, call: Call) -> bool {
    match call {
        Call::Add { .. } => false,
        Call::Build { metric, report } => instance.build_result(report) is Ok,
    }
}

/// The instance after a sequence of calls, first to last.
pub open spec fn run(instance: InstanceView, calls: Seq<Call>) -> InstanceView
    decreases calls.len(),
{
    if calls.len() == 0 {
        instance
    } else {
        step(run(instance, calls.drop_last()), calls.last())
    }
}

/// How many of the calls were builds that succeeded.
pub open spec fn successful_builds(instance: InstanceView, calls: Seq<Call>) -> nat
    decreases calls.len(),
{
    if calls.len() == 0 {
        0
    } else {
        let before = run(instance, calls.drop_last());
        successful_builds(instance, calls.drop_last()) + if builds(before, calls.last()) {
            1nat
        } else {
            0nat
        }
    }
}

/// A build that succeeds leaves the instance ready, and no other call makes
/// an instance ready that was not.
pub proof fn law_ready_only_by_build(instance: InstanceView, call: Call)
    ensures
        builds(instance, call) ==> step(instance, call).state() == Lifecycle::Ready,
        !builds(instance, call) && instance.state() != Lifecycle::Ready ==> step(
            instance,
            call,
        ).state() != Lifecycle::Ready,
{
}

/// Lifecycle ordering: a new instance that has seen no successful build,
/// whatever else was called on it, fails every search with `InvalidState`.
pub proof fn law_no_search_before_build(
    family: Family,
    dimension: nat,
    parameters: Seq<u8>,
    calls: Seq<Call>,
    len: nat,
    k: nat,
    report: Result<Seq<usize>, Seq<char>>,
)
    requires
        successful_builds(InstanceView::fresh(family, dimension, parameters), calls) == 0,
    ensures
        ({
            let now = run(InstanceView::fresh(family, dimension, parameters), calls);
            &&& now.state() != Lifecycle::Ready
            &&& now.search_result(len, k, report) == Err::<Seq<usize>, SearchErrorView>(
                SearchErrorView::InvalidState,
            )
        }),
    decreases calls.len(),
{
    let fresh = InstanceView::fresh(family, dimension, parameters);
    if calls.len() > 0 {
        law_no_search_before_build(family, dimension, parameters, calls.drop_last(), len, k, report);
        law_ready_only_by_build(run(fresh, calls.drop_last()), calls.last());
    }
}

/// Lifecycle ordering, the other half: on a new instance that has only
/// taken vectors, a build that the engine carries out is the first to
/// succeed, and from then on a query of the right length is answered with
/// what the engine found, cut to `k`.
pub proof fn law_search_after_first_build(
    family: Family,
    dimension: nat,
    parameters: Seq<u8>,
    calls: Seq<Call>,
    metric: Metric,
    k: nat,
    hits: Seq<usize>,
)
    requires
        forall|i: int| 0 <= i < calls.len() ==> #[trigger] calls[i] is Add,
    ensures
        ({
            let before = run(InstanceView::fresh(family, dimension, parameters), calls);
            let after = before.after_build(metric, Ok(()));
            &&& successful_builds(InstanceView::fresh(family, dimension, parameters), calls) == 0
            &&& before.build_result(Ok(())) is Ok
            &&& after.state() == Lifecycle::Ready
            &&& after.metric() == Some(metric)
            &&& after.search_result(dimension, k, Ok(hits)) == Ok::<Seq<usize>, SearchErrorView>(
                best(hits, k),
            )
        }),
{
    let fresh = InstanceView::fresh(family, dimension, parameters);
    law_shape_is_fixed(fresh, calls);
    law_no_failure_without_build(family, dimension, parameters, calls);
}

/// A failed instance stays failed: no call changes it, every search fails
/// with `InvalidState`, no vector is taken, and every build fails with the
/// diagnostic of the failure, whatever the engine reports.
pub proof fn law_failed_is_terminal(
    instance: InstanceView,
    cause: Seq<char>,
    call: Call,
    len: nat,
    k: nat,
    found: Result<Seq<usize>, Seq<char>>,
    report: Result<(), Seq<char>>,
)
    requires
        instance.phase == PhaseView::Failed(cause),
    ensures
        instance.state() == Lifecycle::Failed,
        step(instance, call) == instance,
        !builds(instance, call),
        instance.search_result(len, k, found) == Err::<Seq<usize>, SearchErrorView>(
            SearchErrorView::InvalidState,
        ),
        instance.add_result(len, report) is Err,
        !(instance.add_result(len, report) matches Err(AddErrorView::Rejected(_))),
        instance.build_result(report) == Err::<(), BuildErrorView>(BuildErrorView::Failed(cause)),
        instance.metric() is None,
{
}

/// A new instance that has only taken vectors is still in its first
/// state, and has seen no successful build.
pub proof fn law_no_failure_without_build(
    family: Family,
    dimension: nat,
    parameters: Seq<u8>,
    calls: Seq<Call>,
)
    requires
        forall|i: int| 0 <= i < calls.len() ==> #[trigger] calls[i] is Add,
    ensures
        run(InstanceView::fresh(family, dimension, parameters), calls).state() == Lifecycle::Created,
        successful_builds(InstanceView::fresh(family, dimension, parameters), calls) == 0,
    decreases calls.len(),
{
    if calls.len() > 0 {
        let front = calls.drop_last();
        assert forall|i: int| 0 <= i < front.len() implies #[trigger] front[i] is Add by {
            assert(calls[i] is Add);
        }
        law_no_failure_without_build(family, dimension, parameters, front);
        assert(calls[calls.len() - 1] is Add);
    }
}

/// The family, the dimension and the parameters of an instance never
/// change.
pub proof fn law_shape_is_fixed(instance: InstanceView, calls: Seq<Call>)
    ensures
        run(instance, calls).family == instance.family,
        run(instance, calls).dimension == instance.dimension,
        run(instance, calls).parameters == instance.parameters,
    decreases calls.len(),
{
    if calls.len() > 0 {
        law_shape_is_fixed(instance, calls.drop_last());
    }
}

/// An instance has a metric exactly while it is ready.
pub proof fn law_metric_only_when_ready(instance: InstanceView)
    ensures
        instance.metric() is Some <==> instance.state() == Lifecycle::Ready,
{
}

/// Dimension invariant, adding: a vector whose length is not the
/// instance's dimension is refused with `DimensionMismatch` in every
/// lifecycle state, whatever the engine reported, and the instance does not
/// change.
pub proof fn law_add_checks_dimension(
    instance: InstanceView,
    len: nat,
    id: usize,
    report: Result<(), Seq<char>>,
)
    requires
        len != instance.dimension,
    ensures
        instance.admits_add(len) == Err::<(), AddErrorView>(AddErrorView::DimensionMismatch),
        instance.add_result(len, report) == Err::<(), AddErrorView>(
            AddErrorView::DimensionMismatch,
        ),
        instance.after_add(len, id, report) == instance,
{
}

/// Dimension invariant, querying: a ready instance refuses a query whose
/// length is not its dimension with `DimensionMismatch`, whatever the
/// engine reported. (An instance that is not ready refuses every query
/// with `InvalidState`.)
pub proof fn law_search_checks_dimension(
    instance: InstanceView,
    len: nat,
    k: nat,
    report: Result<Seq<usize>, Seq<char>>,
)
    requires
        instance.state() == Lifecycle::Ready,
        len != instance.dimension,
    ensures
        instance.admits_search(len) == Err::<(), SearchErrorView>(
            SearchErrorView::DimensionMismatch,
        ),
        instance.search_result(len, k, report) == Err::<Seq<usize>, SearchErrorView>(
            SearchErrorView::DimensionMismatch,
        ),
{
}

/// Dimension invariant, through the registry: adding a vector of the wrong
/// length to an instance that exists fails with `DimensionMismatch`,
/// whatever its state and whatever the engine reported, and leaves the
/// registry as it was.
pub proof fn law_registry_add_checks_dimension(
    registry: RegistryView,
    name: Seq<char>,
    len: nat,
    id: usize,
    report: Result<(), Seq<char>>,
)
    requires
        registry.contains_key(name),
        len != registry[name].dimension,
    ensures
        add_result(registry, name, len, report) == Err::<(), RegistryErrorView>(
            RegistryErrorView::DimensionMismatch,
        ),
        after_add(registry, name, len, id, report) == registry,
{
}

/// Dimension invariant, batches: a batch for an instance that exists, with
/// as many ids as vectors, is refused as a whole with `DimensionMismatch`
/// where one of its vectors has the wrong length.
pub proof fn law_batch_checks_dimension(
    registry: RegistryView,
    name: Seq<char>,
    lens: Seq<nat>,
    i: int,
)
    requires
        registry.contains_key(name),
        0 <= i < lens.len(),
        lens[i] != registry[name].dimension,
    ensures
        admits_add_batch(registry, name, lens, lens.len()) == Err::<(), RegistryErrorView>(
            RegistryErrorView::DimensionMismatch,
        ),
{
}

/// A batch is admitted exactly where each of its vectors would be, one by
/// one, and it holds as many ids as vectors.
pub proof fn law_batch_is_each_of_its_vectors(
    registry: RegistryView,
    name: Seq<char>,
    lens: Seq<nat>,
    ids: nat,
)
    requires
        lens.len() > 0,
    ensures
        admits_add_batch(registry, name, lens, ids) is Ok <==> lens.len() == ids && forall|i: int|
            0 <= i < lens.len() ==> (#[trigger] admits_add(registry, name, lens[i])) is Ok,
{
    if admits_add_batch(registry, name, lens, ids) is Ok {
        assert forall|i: int| 0 <= i < lens.len() implies (#[trigger] admits_add(
            registry,
            name,
            lens[i],
        )) is Ok by {
            assert(lens[i] == registry[name].dimension);
        }
    }
    if lens.len() == ids && forall|i: int|
        0 <= i < lens.len() ==> (#[trigger] admits_add(registry, name, lens[i])) is Ok {
        assert(admits_add(registry, name, lens[0]) is Ok);
        assert forall|i: int| 0 <= i < lens.len() implies #[trigger] lens[i]
            == registry[name].dimension by {
            assert(admits_add(registry, name, lens[i]) is Ok);
        }
    }
}

/// An instance that is not ready fails every search with `InvalidState`,
/// through the registry too; a ready one fails a query of the wrong length
/// with `DimensionMismatch`.
pub proof fn law_registry_search_order(
    registry: RegistryView,
    name: Seq<char>,
    len: nat,
    k: nat,
    report: Result<Seq<usize>, Seq<char>>,
)
    requires
        registry.contains_key(name),
    ensures
        registry[name].state() != Lifecycle::Ready ==> search_result(registry, name, len, k, report)
            == Err::<Seq<usize>, RegistryErrorView>(RegistryErrorView::InvalidState),
        registry[name].state() == Lifecycle::Ready && len != registry[name].dimension
            ==> search_result(registry, name, len, k, report) == Err::<
            Seq<usize>,
            RegistryErrorView,
        >(RegistryErrorView::DimensionMismatch),
{
}

/// Name uniqueness: once a name has been created, creating it again fails
/// with `NameCollision`, whatever the tag, the dimension and the
/// parameters, and leaves the registry as it was; the instance that has
/// the name is the one that the first call made.
pub proof fn law_second_create_collides(
    registry: RegistryView,
    name: Seq<char>,
    tag: Seq<char>,
    dimension: nat,
    document: Seq<u8>,
    decoded: Result<(), Seq<char>>,
    tag2: Seq<char>,
    dimension2: nat,
    document2: Seq<u8>,
    decoded2: Result<(), Seq<char>>,
)
    requires
        create_result(registry, name, tag, dimension, document, decoded) is Ok,
    ensures
        ({
            let first = after_create(registry, name, tag, dimension, document, decoded);
            &&& first.contains_key(name)
            &&& first[name].state() == Lifecycle::Created
            &&& first[name].ids.len() == 0
            &&& first[name].dimension == dimension
            &&& first[name].parameters == document
            &&& create_result(first, name, tag2, dimension2, document2, decoded2) == Err::<
                (),
                RegistryErrorView,
            >(RegistryErrorView::NameCollision)
            &&& after_create(first, name, tag2, dimension2, document2, decoded2) == first
        }),
{
}

/// Name uniqueness, in any state: creating a name that is taken fails with
/// `NameCollision` and changes nothing, whatever has been added to or built
/// on the instance that has it.
pub proof fn law_create_keeps_existing(
    registry: RegistryView,
    name: Seq<char>,
    tag: Seq<char>,
    dimension: nat,
    document: Seq<u8>,
    decoded: Result<(), Seq<char>>,
)
    requires
        registry.contains_key(name),
    ensures
        create_result(registry, name, tag, dimension, document, decoded) == Err::<(), RegistryErrorView>(
            RegistryErrorView::NameCollision,
        ),
        after_create(registry, name, tag, dimension, document, decoded) == registry,
{
}

/// No operation on one name touches an instance under another, nor makes
/// or removes one.
pub proof fn law_other_names_untouched(
    registry: RegistryView,
    name: Seq<char>,
    other: Seq<char>,
    tag: Seq<char>,
    dimension: nat,
    document: Seq<u8>,
    decoded: Result<(), Seq<char>>,
    len: nat,
    id: usize,
    metric_name: Seq<char>,
    report: Result<(), Seq<char>>,
)
    requires
        other != name,
    ensures
        after_create(registry, name, tag, dimension, document, decoded).contains_key(other)
            == registry.contains_key(other),
        after_add(registry, name, len, id, report).contains_key(other) == registry.contains_key(
            other,
        ),
        after_build(registry, name, metric_name, report).contains_key(other)
            == registry.contains_key(other),
        registry.contains_key(other) ==> {
            &&& after_create(registry, name, tag, dimension, document, decoded)[other] == registry[other]
            &&& after_add(registry, name, len, id, report)[other] == registry[other]
            &&& after_build(registry, name, metric_name, report)[other] == registry[other]
        },
{
}

/// An error changes nothing, with one exception. Where adding fails, for
/// whatever reason, and where building fails for a reason other than the
/// engine's report, the registry is as it was. A build that was admitted
/// and that the engine failed leaves the instance failed.
pub proof fn law_errors_change_nothing(
    registry: RegistryView,
    name: Seq<char>,
    len: nat,
    id: usize,
    metric_name: Seq<char>,
    report: Result<(), Seq<char>>,
)
    ensures
        add_result(registry, name, len, report) is Err ==> after_add(
            registry,
            name,
            len,
            id,
            report,
        ) == registry,
        build_result(registry, name, metric_name, Ok(())) is Err ==> after_build(
            registry,
            name,
            metric_name,
            report,
        ) == registry,
        build_result(registry, name, metric_name, Ok(())) is Ok && report is Err ==> after_build(
            registry,
            name,
            metric_name,
            report,
        )[name].state() == Lifecycle::Failed,
{
}

/// Search result bound: an answer never holds more than `k` ids, and is a
/// prefix of what the engine found.
pub proof fn law_search_bound(
    instance: InstanceView,
    len: nat,
    k: nat,
    report: Result<Seq<usize>, Seq<char>>,
)
    ensures
        instance.search_result(len, k, report) matches Ok(ids) ==> {
            &&& report is Ok
            &&& ids.len() <= k
            &&& ids.len() <= report->Ok_0.len()
            &&& ids == report->Ok_0.subrange(0, ids.len() as int)
        },
{
    if let Ok(ids) = instance.search_result(len, k, report) {
        let hits = report->Ok_0;
        assert(ids =~= hits.subrange(0, ids.len() as int));
    }
}

/// Search result bound, `k == 0`: a query that is admitted is answered
/// with no ids, and that is no error.
pub proof fn law_search_for_none(instance: InstanceView, len: nat, hits: Seq<usize>)
    requires
        instance.admits_search(len) is Ok,
    ensures
        instance.search_result(len, 0, Ok(hits)) == Ok::<Seq<usize>, SearchErrorView>(
            Seq::<usize>::empty(),
        ),
{
    assert(best(hits, 0) =~= Seq::<usize>::empty());
}

/// Search result bound, through the registry.
pub proof fn law_registry_search_bound(
    registry: RegistryView,
    name: Seq<char>,
    len: nat,
    k: nat,
    report: Result<Seq<usize>, Seq<char>>,
)
    ensures
        search_result(registry, name, len, k, report) matches Ok(ids) ==> ids.len() <= k,
{
    if registry.contains_key(name) {
        law_search_bound(registry[name], len, k, report);
    }
}

/// One request that can change a registry, with what the engine or the
/// decoder of parameters reported for it.
pub ghost enum Request {
    Create {
        name: Seq<char>,
        tag: Seq<char>,
        dimension: nat,
        document: Seq<u8>,
        decoded: Result<(), Seq<char>>,
    },
    Add { name: Seq<char>, len: nat, id: usize, report: Result<(), Seq<char>> },
    Build { name: Seq<char>, metric_name: Seq<char>, report: Result<(), Seq<char>> },
    Remove { name: Seq<char> },
}

/// The registry after one request.
pub open spec fn serve(registry: RegistryView, request: Request) -> RegistryView {
    match request {
        Request::Create { name, tag, dimension, document, decoded } => after_create(
            registry,
            name,
            tag,
            dimension,
            document,
            decoded,
        ),
        Request::Add { name, len, id, report } => after_add(registry, name, len, id, report),
        Request::Build { name, metric_name, report } => after_build(
            registry,
            name,
            metric_name,
            report,
        ),
        Request::Remove { name } => registry.remove(name),
    }
}

/// The registry after a sequence of requests, first to last.
pub open spec fn serve_all(registry: RegistryView, requests: Seq<Request>) -> RegistryView
    decreases requests.len(),
{
    if requests.len() == 0 {
        registry
    } else {
        serve(serve_all(registry, requests.drop_last()), requests.last())
    }
}

/// Whether the request is a build of `name` that succeeds, or takes `name`
/// out of the registry.
pub open spec fn builds_or_removes(registry: RegistryView, request: Request, name: Seq<char>) -> bool {
    match request {
        Request::Build { name: built, metric_name, report } => built == name && build_result(
            registry,
            built,
            metric_name,
            report,
        ) is Ok,
        Request::Remove { name: removed } => removed == name,
        _ => false,
    }
}

/// Whether none of the requests, each in the registry it meets, is a
/// successful build or a removal of `name`.
pub open spec fn never_built(registry: RegistryView, requests: Seq<Request>, name: Seq<char>) -> bool
    decreases requests.len(),
{
    requests.len() == 0 || (never_built(registry, requests.drop_last(), name) && !builds_or_removes(
        serve_all(registry, requests.drop_last()),
        requests.last(),
        name,
    ))
}

/// Lifecycle ordering, through the registry: from the moment a name is
/// created, and whatever is asked of the registry afterwards, a search in
/// it fails with `InvalidState` as long as no build of it has succeeded.
pub proof fn law_registry_no_search_before_build(
    registry: RegistryView,
    name: Seq<char>,
    tag: Seq<char>,
    dimension: nat,
    document: Seq<u8>,
    decoded: Result<(), Seq<char>>,
    requests: Seq<Request>,
    len: nat,
    k: nat,
    report: Result<Seq<usize>, Seq<char>>,
)
    requires
        create_result(registry, name, tag, dimension, document, decoded) is Ok,
        never_built(after_create(registry, name, tag, dimension, document, decoded), requests, name),
    ensures
        ({
            let made = after_create(registry, name, tag, dimension, document, decoded);
            let now = serve_all(made, requests);
            &&& now.contains_key(name)
            &&& now[name].state() != Lifecycle::Ready
            &&& now[name].dimension == dimension
            &&& search_result(now, name, len, k, report) == Err::<Seq<usize>, RegistryErrorView>(
                RegistryErrorView::InvalidState,
            )
        }),
    decreases requests.len(),
{
    if requests.len() > 0 {
        law_registry_no_search_before_build(
            registry,
            name,
            tag,
            dimension,
            document,
            decoded,
            requests.drop_last(),
            len,
            k,
            report,
        );
    }
}

} // verus!