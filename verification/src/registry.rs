//! The name-keyed store of instances.
//!
//! A registry is modelled as a map from names to instance models. No name
//! occurs twice. Every operation finds its instance by name, decides by the
//! instance's own rules, and reports in the registry's error type.

use crate::error::{
    answer_view, lift_add, lift_build, lift_factory, lift_search, outcome_view, report_view,
    RegistryError, RegistryErrorView,
};
use crate::factory::{create, creation};
use crate::instance::{hits_view, IndexInstance, InstanceView, SearchResult};
use crate::metric::{metric_of_name, metrics_transform, Metric};
use crate::text::str_eq;
use vstd::prelude::*;

verus! {

/// The model of a registry.
pub type RegistryView = Map<Seq<char>, InstanceView>;

struct Entry {
    name: String,
    instance: IndexInstance,
}

/// The named instances.
///
/// They are kept in a vector in which no name occurs twice. An operation
/// that changes the vector takes it out of the registry, changes it and
/// puts it back, so that the registry holds a vector without repeated names
/// at every moment.
pub struct Registry {
    entries: Vec<Entry>,
}

/// No two entries have the same name.
spec fn names_distinct(entries: Seq<Entry>) -> bool {
    forall|i: int, j: int|
        0 <= i < j < entries.len() ==> (#[trigger] entries[i]).name@ != (#[trigger] entries[j]).name@
}

/// Entry `i` has the name.
spec fn at(entries: Seq<Entry>, name: Seq<char>, i: int) -> bool {
    0 <= i < entries.len() && entries[i].name@ == name
}

/// Some entry has the name.
spec fn holds(entries: Seq<Entry>, name: Seq<char>) -> bool {
    exists|i: int| at(entries, name, i)
}

/// The place of an entry that has the name.
spec fn slot(entries: Seq<Entry>, name: Seq<char>) -> int {
    choose|i: int| at(entries, name, i)
}

/// The map that the entries stand for.
spec fn model(entries: Seq<Entry>) -> RegistryView {
    Map::new(
        |name: Seq<char>| holds(entries, name),
        |name: Seq<char>| entries[slot(entries, name)].instance@,
    )
}

/// Where names are distinct, the entry at a place is the one that the map
/// has under its name.
proof fn lemma_slot(entries: Seq<Entry>, i: int)
    requires
        names_distinct(entries),
        0 <= i < entries.len(),
    ensures
        holds(entries, entries[i].name@),
        slot(entries, entries[i].name@) == i,
        model(entries).contains_key(entries[i].name@),
        model(entries)[entries[i].name@] == entries[i].instance@,
{
    let name = entries[i].name@;
    assert(at(entries, name, i));
    let j = slot(entries, name);
    assert(at(entries, name, j));
    if j < i {
        assert(entries[j].name@ != entries[i].name@);
    } else if i < j {
        assert(entries[i].name@ != entries[j].name@);
    }
}

/// Appending an entry with a new name inserts it into the map.
proof fn lemma_push(entries: Seq<Entry>, e: Entry)
    requires
        names_distinct(entries),
        !holds(entries, e.name@),
    ensures
        names_distinct(entries.push(e)),
        model(entries.push(e)) == model(entries).insert(e.name@, e.instance@),
{
    let after = entries.push(e);
    assert forall|i: int, j: int| 0 <= i < j < after.len() implies (#[trigger] after[i]).name@ != (
    #[trigger] after[j]).name@ by {
        if j == entries.len() {
            assert(!at(entries, e.name@, i));
        } else {
            assert(entries[i].name@ != entries[j].name@);
        }
    }
    assert forall|name: Seq<char>| holds(after, name) <==> (name == e.name@ || holds(entries, name)) by {
        if holds(after, name) {
            let i = slot(after, name);
            assert(at(after, name, i));
            if i < entries.len() {
                assert(at(entries, name, i));
            }
        }
        if name == e.name@ {
            assert(at(after, name, entries.len() as int));
        }
        if holds(entries, name) {
            let i = slot(entries, name);
            assert(at(entries, name, i));
            assert(at(after, name, i));
        }
    }
    assert forall|name: Seq<char>| holds(after, name) implies #[trigger] model(after)[name] == model(
        entries,
    ).insert(e.name@, e.instance@)[name] by {
        let i = slot(after, name);
        assert(at(after, name, i));
        lemma_slot(after, i);
        if i < entries.len() {
            assert(at(entries, name, i));
            lemma_slot(entries, i);
        }
    }
    assert(model(after) =~= model(entries).insert(e.name@, e.instance@));
}

/// Replacing an entry by one of the same name replaces it in the map.
proof fn lemma_update(entries: Seq<Entry>, i: int, e: Entry)
    requires
        names_distinct(entries),
        0 <= i < entries.len(),
        e.name@ == entries[i].name@,
    ensures
        names_distinct(entries.update(i, e)),
        model(entries.update(i, e)) == model(entries).insert(e.name@, e.instance@),
{
    let after = entries.update(i, e);
    assert forall|a: int, b: int| 0 <= a < b < after.len() implies (#[trigger] after[a]).name@ != (
    #[trigger] after[b]).name@ by {
        assert(entries[a].name@ != entries[b].name@);
    }
    assert forall|name: Seq<char>| holds(after, name) <==> holds(entries, name) by {
        if holds(after, name) {
            let j = slot(after, name);
            assert(at(after, name, j));
            assert(at(entries, name, j));
        }
        if holds(entries, name) {
            let j = slot(entries, name);
            assert(at(entries, name, j));
            assert(at(after, name, j));
        }
    }
    lemma_slot(entries, i);
    assert forall|name: Seq<char>| holds(after, name) implies #[trigger] model(after)[name] == model(
        entries,
    ).insert(e.name@, e.instance@)[name] by {
        let j = slot(after, name);
        assert(at(after, name, j));
        lemma_slot(after, j);
        assert(at(entries, name, j));
        lemma_slot(entries, j);
    }
    assert(model(after) =~= model(entries).insert(e.name@, e.instance@));
}

/// Taking an entry out removes its name from the map.
proof fn lemma_remove(entries: Seq<Entry>, i: int)
    requires
        names_distinct(entries),
        0 <= i < entries.len(),
    ensures
        names_distinct(entries.remove(i)),
        model(entries.remove(i)) == model(entries).remove(entries[i].name@),
{
    let after = entries.remove(i);
    let gone = entries[i].name@;
    assert forall|a: int, b: int| 0 <= a < b < after.len() implies (#[trigger] after[a]).name@ != (
    #[trigger] after[b]).name@ by {
        let a0 = if a < i { a } else { a + 1 };
        let b0 = if b < i { b } else { b + 1 };
        assert(entries[a0].name@ != entries[b0].name@);
    }
    assert forall|name: Seq<char>| holds(after, name) <==> (name != gone && holds(entries, name)) by {
        if holds(after, name) {
            let j = slot(after, name);
            assert(at(after, name, j));
            let j0 = if j < i { j } else { j + 1 };
            assert(at(entries, name, j0));
            if j0 < i {
                assert(entries[j0].name@ != entries[i].name@);
            } else {
                assert(entries[i].name@ != entries[j0].name@);
            }
        }
        if name != gone && holds(entries, name) {
            let j = slot(entries, name);
            assert(at(entries, name, j));
            let j1 = if j < i { j } else { j - 1 };
            assert(at(after, name, j1));
        }
    }
    assert forall|name: Seq<char>| holds(after, name) implies #[trigger] model(after)[name] == model(
        entries,
    ).remove(gone)[name] by {
        let j = slot(after, name);
        assert(at(after, name, j));
        lemma_slot(after, j);
        let j0 = if j < i { j } else { j + 1 };
        assert(at(entries, name, j0));
        lemma_slot(entries, j0);
    }
    assert(model(after) =~= model(entries).remove(gone));
}

/// The map has as many names as there are entries.
proof fn lemma_size(entries: Seq<Entry>)
    requires
        names_distinct(entries),
    ensures
        model(entries).dom().finite(),
        model(entries).dom().len() == entries.len(),
    decreases entries.len(),
{
    if entries.len() == 0 {
        assert forall|name: Seq<char>| !holds(entries, name) by {
            if holds(entries, name) {
                assert(at(entries, name, slot(entries, name)));
            }
        }
        assert(model(entries).dom() =~= Set::empty());
    } else {
        let front = entries.drop_last();
        let last = entries.last();
        assert forall|i: int, j: int| 0 <= i < j < front.len() implies (#[trigger] front[i]).name@ != (
        #[trigger] front[j]).name@ by {
            assert(entries[i].name@ != entries[j].name@);
        }
        assert(!holds(front, last.name@)) by {
            if holds(front, last.name@) {
                let i = slot(front, last.name@);
                assert(at(front, last.name@, i));
                assert(entries[i].name@ != entries[entries.len() - 1].name@);
            }
        }
        lemma_size(front);
        lemma_push(front, last);
        assert(front.push(last) =~= entries);
        assert(model(entries).dom() =~= model(front).dom().insert(last.name@));
        assert(!model(front).dom().contains(last.name@));
    }
}

/// What `create_named` returns: a collision where the name is taken, else
/// what the factory says.
pub open spec fn create_result(
    registry: RegistryView,
    name: Seq<char>,
    tag: Seq<char>,
    dimension: nat,
    document: Seq<u8>,
    decoded: Result<(), Seq<char>>,
) -> Result<(), RegistryErrorView> {
    if registry.contains_key(name) {
        Err(RegistryErrorView::NameCollision)
    } else {
        match creation(tag, dimension, document, decoded) {
            Err(e) => Err(lift_factory(e)),
            Ok(_) => Ok(()),
        }
    }
}

/// The registry after `create_named`: with the fresh instance under the
/// name where the call succeeded, unchanged otherwise.
pub open spec fn after_create(
    registry: RegistryView,
    name: Seq<char>,
    tag: Seq<char>,
    dimension: nat,
    document: Seq<u8>,
    decoded: Result<(), Seq<char>>,
) -> RegistryView {
    if create_result(registry, name, tag, dimension, document, decoded) is Ok {
        registry.insert(name, creation(tag, dimension, document, decoded)->Ok_0)
    } else {
        registry
    }
}

/// Whether a vector of length `len` may be handed to the engine of the
/// instance under `name`.
pub open spec fn admits_add(registry: RegistryView, name: Seq<char>, len: nat) -> Result<
    (),
    RegistryErrorView,
> {
    if !registry.contains_key(name) {
        Err(RegistryErrorView::NotFound)
    } else {
        match registry[name].admits_add(len) {
            Err(e) => Err(lift_add(e)),
            Ok(()) => Ok(()),
        }
    }
}

/// What `add_to` returns, given the engine's report.
pub open spec fn add_result(
    registry: RegistryView,
    name: Seq<char>,
    len: nat,
    report: Result<(), Seq<char>>,
) -> Result<(), RegistryErrorView> {
    if !registry.contains_key(name) {
        Err(RegistryErrorView::NotFound)
    } else {
        match registry[name].add_result(len, report) {
            Err(e) => Err(lift_add(e)),
            Ok(()) => Ok(()),
        }
    }
}

/// The registry after `add_to`: the instance holds one id more where the
/// call succeeded; nothing has changed otherwise.
pub open spec fn after_add(
    registry: RegistryView,
    name: Seq<char>,
    len: nat,
    id: usize,
    report: Result<(), Seq<char>>,
) -> RegistryView {
    if add_result(registry, name, len, report) is Ok {
        registry.insert(name, registry[name].after_add(len, id, report))
    } else {
        registry
    }
}

/// The lengths of the vectors of a batch.
pub open spec fn lengths<E>(features: Seq<Vec<E>>) -> Seq<nat> {
    Seq::new(features.len(), |i: int| features[i]@.len())
}

/// Whether a whole batch may be handed to the engine of the instance under
/// `name`: as many vectors as ids, every vector of the instance's
/// dimension, and a lifecycle state that allows adding.
pub open spec fn admits_add_batch(
    registry: RegistryView,
    name: Seq<char>,
    lens: Seq<nat>,
    ids: nat,
) -> Result<(), RegistryErrorView> {
    if !registry.contains_key(name) {
        Err(RegistryErrorView::NotFound)
    } else if lens.len() != ids {
        Err(RegistryErrorView::BatchMismatch)
    } else if exists|i: int| 0 <= i < lens.len() && #[trigger] lens[i] != registry[name].dimension {
        Err(RegistryErrorView::DimensionMismatch)
    } else if !registry[name].takes_vectors() {
        Err(RegistryErrorView::InvalidState)
    } else {
        Ok(())
    }
}

/// Whether the instance refuses to build with the metric.
pub open spec fn metric_refused(instance: InstanceView, metric: Metric) -> bool {
    metric == Metric::Unknown && instance.family.needs_known_metric()
}

/// Whether the engine of the instance under `name` may be asked to build,
/// and with which metric.
pub open spec fn admits_build(registry: RegistryView, name: Seq<char>, metric_name: Seq<char>) -> Result<
    Metric,
    RegistryErrorView,
> {
    if !registry.contains_key(name) {
        Err(RegistryErrorView::NotFound)
    } else if metric_refused(registry[name], metric_of_name(metric_name)) {
        Err(RegistryErrorView::UnknownMetric)
    } else {
        match registry[name].admits_build() {
            Err(e) => Err(lift_build(e)),
            Ok(()) => Ok(metric_of_name(metric_name)),
        }
    }
}

/// What `build_named` returns, given the engine's report.
pub open spec fn build_result(
    registry: RegistryView,
    name: Seq<char>,
    metric_name: Seq<char>,
    report: Result<(), Seq<char>>,
) -> Result<(), RegistryErrorView> {
    if !registry.contains_key(name) {
        Err(RegistryErrorView::NotFound)
    } else if metric_refused(registry[name], metric_of_name(metric_name)) {
        Err(RegistryErrorView::UnknownMetric)
    } else {
        match registry[name].build_result(report) {
            Err(e) => Err(lift_build(e)),
            Ok(()) => Ok(()),
        }
    }
}

/// The registry after `build_named`: where the build was admitted, the
/// instance is ready or failed as the engine reported; nothing has changed
/// otherwise.
pub open spec fn after_build(
    registry: RegistryView,
    name: Seq<char>,
    metric_name: Seq<char>,
    report: Result<(), Seq<char>>,
) -> RegistryView {
    if admits_build(registry, name, metric_name) is Ok {
        registry.insert(name, registry[name].after_build(metric_of_name(metric_name), report))
    } else {
        registry
    }
}

/// Whether a query of length `len` may be handed to the engine of the
/// instance under `name`.
pub open spec fn admits_search(registry: RegistryView, name: Seq<char>, len: nat) -> Result<
    (),
    RegistryErrorView,
> {
    if !registry.contains_key(name) {
        Err(RegistryErrorView::NotFound)
    } else {
        match registry[name].admits_search(len) {
            Err(e) => Err(lift_search(e)),
            Ok(()) => Ok(()),
        }
    }
}

/// What `search_in` returns, given the engine's report.
pub open spec fn search_result(
    registry: RegistryView,
    name: Seq<char>,
    len: nat,
    k: nat,
    report: Result<Seq<usize>, Seq<char>>,
) -> Result<Seq<usize>, RegistryErrorView> {
    if !registry.contains_key(name) {
        Err(RegistryErrorView::NotFound)
    } else {
        match registry[name].search_result(len, k, report) {
            Err(e) => Err(lift_search(e)),
            Ok(ids) => Ok(ids),
        }
    }
}

/// The place of the entry that has the name, if one has.
fn find(entries: &Vec<Entry>, name: &str) -> (found: Option<usize>)
    ensures
        match found {
            Some(i) => at(entries@, name@, i as int),
            None => !holds(entries@, name@),
        },
{
    let mut i: usize = 0;
    while i < entries.len()
        invariant
            i <= entries@.len(),
            forall|j: int| 0 <= j < i ==> !at(entries@, name@, j),
        decreases entries@.len() - i,
    {
        if str_eq(entries[i].name.as_str(), name) {
            return Some(i);
        }
        i += 1;
    }
    proof {
        if holds(entries@, name@) {
            assert(at(entries@, name@, slot(entries@, name@)));
        }
    }
    None
}

impl View for Registry {
    type V = RegistryView;

    closed spec fn view(&self) -> RegistryView {
        model(self.entries@)
    }
}

impl Default for Registry {
    /// A registry without instances.
    fn default() -> (registry: Registry)
        ensures
            registry@ == Map::<Seq<char>, InstanceView>::empty(),
    {
        Registry::new()
    }
}

impl Registry {
    #[verifier::type_invariant]
    spec fn no_name_twice(self) -> bool {
        names_distinct(self.entries@)
    }

    /// A registry without instances.
    pub fn new() -> (registry: Registry)
        ensures
            registry@ == Map::<Seq<char>, InstanceView>::empty(),
    {
        let registry = Registry { entries: Vec::new() };
        proof {
            assert forall|name: Seq<char>| !holds(registry.entries@, name) by {
                if holds(registry.entries@, name) {
                    assert(at(registry.entries@, name, slot(registry.entries@, name)));
                }
            }
            assert(registry@ =~= Map::<Seq<char>, InstanceView>::empty());
        }
        registry
    }

    /// How many instances the registry holds.
    pub fn len(&self) -> (n: usize)
        ensures
            self@.dom().finite(),
            n == self@.dom().len(),
    {
        proof {
            use_type_invariant(self);
            lemma_size(self.entries@);
        }
        self.entries.len()
    }

    /// Whether an instance has the name.
    pub fn contains(&self, name: &str) -> (b: bool)
        ensures
            b == self@.contains_key(name@),
    {
        find(&self.entries, name).is_some()
    }

    /// The instance under the name, if there is one.
    pub fn get(&self, name: &str) -> (found: Option<&IndexInstance>)
        ensures
            match found {
                Some(instance) => self@.contains_key(name@) && instance@ == self@[name@],
                None => !self@.contains_key(name@),
            },
    {
        proof {
            use_type_invariant(self);
        }
        match find(&self.entries, name) {
            None => None,
            Some(i) => {
                proof {
                    lemma_slot(self.entries@, i as int);
                }
                Some(&self.entries[i].instance)
            },
        }
    }

    /// Makes an instance and puts it under `name`.
    ///
    /// `document` is the parameter document as it was received, `decoded`
    /// what decoding it into the family's parameter record gave.
    ///
    /// Fails with `NameCollision` where the name is taken, whatever the other
    /// arguments are; else with the factory's error. On every error the
    /// registry is as it was: the instance that has the name keeps its
    /// state and its contents.
    pub fn create_named(
        &mut self,
        name: &str,
        family_tag: &str,
        dimension: usize,
        document: &[u8],
        decoded: Result<(), String>,
    ) -> (r: Result<(), RegistryError>)
        ensures
            outcome_view(r) == create_result(
                old(self)@,
                name@,
                family_tag@,
                dimension as nat,
                document@,
                report_view(decoded),
            ),
            final(self)@ == after_create(
                old(self)@,
                name@,
                family_tag@,
                dimension as nat,
                document@,
                report_view(decoded),
            ),
    {
        proof {
            use_type_invariant(&*self);
        }
        if find(&self.entries, name).is_some() {
            return Err(RegistryError::NameCollision);
        }
        match create(family_tag, dimension, document, decoded) {
            Err(e) => Err(RegistryError::from_factory(e)),
            Ok(instance) => {
                let entry = Entry { name: name.to_owned(), instance };
                let mut entries: Vec<Entry> = Vec::new();
                std::mem::swap(&mut self.entries, &mut entries);
                proof {
                    lemma_push(entries@, entry);
                }
                entries.push(entry);
                self.entries = entries;
                Ok(())
            },
        }
    }

    /// Says whether `features` may be handed to the engine of the instance
    /// under `name`. Changes nothing.
    pub fn admit_add<E>(&self, name: &str, features: &[E]) -> (r: Result<(), RegistryError>)
        ensures
            outcome_view(r) == admits_add(self@, name@, features@.len()),
    {
        proof {
            use_type_invariant(self);
        }
        match find(&self.entries, name) {
            None => Err(RegistryError::NotFound),
            Some(i) => {
                proof {
                    lemma_slot(self.entries@, i as int);
                }
                match self.entries[i].instance.admit_add(features) {
                    Err(e) => Err(RegistryError::from_add(e)),
                    Ok(()) => Ok(()),
                }
            },
        }
    }

    /// Says whether a whole batch may be handed to the engine of the
    /// instance under `name`, before any of it is. Changes nothing.
    pub fn admit_add_batch<E>(&self, name: &str, features: &[Vec<E>], ids: &[usize]) -> (r: Result<
        (),
        RegistryError,
    >)
        ensures
            outcome_view(r) == admits_add_batch(self@, name@, lengths(features@), ids@.len()),
    {
        proof {
            use_type_invariant(self);
        }
        match find(&self.entries, name) {
            None => Err(RegistryError::NotFound),
            Some(i) => {
                proof {
                    lemma_slot(self.entries@, i as int);
                }
                let instance = &self.entries[i].instance;
                if features.len() != ids.len() {
                    return Err(RegistryError::BatchMismatch);
                }
                let ghost lens = lengths(features@);
                let dimension = instance.dimension();
                let mut j: usize = 0;
                while j < features.len()
                    invariant
                        j <= features@.len(),
                        features@.len() == ids@.len(),
                        lens == lengths(features@),
                        self@.contains_key(name@),
                        self@[name@] == instance@,
                        dimension == instance@.dimension,
                        forall|a: int| 0 <= a < j ==> #[trigger] lens[a] == instance@.dimension,
                    decreases features@.len() - j,
                {
                    if features[j].len() != dimension {
                        assert(lens[j as int] != instance@.dimension);
                        return Err(RegistryError::DimensionMismatch);
                    }
                    j += 1;
                }
                if !instance.takes_vectors() {
                    return Err(RegistryError::InvalidState);
                }
                Ok(())
            },
        }
    }

    /// Adds a vector under `id` to the instance under `name`, given what the
    /// engine reported of it.
    ///
    /// Fails with `NotFound`, `DimensionMismatch` or `InvalidState`, in this
    /// order, without looking at the report; with `AddFailed` where the
    /// engine refused. On every error the registry is as it was.
    pub fn add_to<E>(
        &mut self,
        name: &str,
        features: &[E],
        id: usize,
        report: Result<(), String>,
    ) -> (r: Result<(), RegistryError>)
        ensures
            outcome_view(r) == add_result(old(self)@, name@, features@.len(), report_view(report)),
            final(self)@ == after_add(old(self)@, name@, features@.len(), id, report_view(report)),
    {
        proof {
            use_type_invariant(&*self);
        }
        match find(&self.entries, name) {
            None => Err(RegistryError::NotFound),
            Some(i) => {
                let mut entries: Vec<Entry> = Vec::new();
                std::mem::swap(&mut self.entries, &mut entries);
                let ghost before = entries@;
                let added = entries[i].instance.add(features, id, report);
                proof {
                    lemma_slot(before, i as int);
                    lemma_update(before, i as int, entries@[i as int]);
                    assert(entries@ =~= before.update(i as int, entries@[i as int]));
                    if added is Err {
                        assert(model(before).insert(name@, model(before)[name@]) =~= model(before));
                    }
                }
                self.entries = entries;
                match added {
                    Err(e) => Err(RegistryError::from_add(e)),
                    Ok(()) => Ok(()),
                }
            },
        }
    }

    /// Says whether the engine of the instance under `name` may be asked to
    /// build, and resolves the metric it is to be built with. Changes
    /// nothing.
    pub fn admit_build(&self, name: &str, metric_name: &str) -> (r: Result<Metric, RegistryError>)
        ensures
            outcome_view(r) == admits_build(self@, name@, metric_name@),
    {
        proof {
            use_type_invariant(self);
        }
        match find(&self.entries, name) {
            None => Err(RegistryError::NotFound),
            Some(i) => {
                proof {
                    lemma_slot(self.entries@, i as int);
                }
                let instance = &self.entries[i].instance;
                let metric = metrics_transform(metric_name);
                if !metric.is_known() && instance.family().requires_known_metric() {
                    return Err(RegistryError::UnknownMetric);
                }
                match instance.admit_build() {
                    Err(e) => Err(RegistryError::from_build(e)),
                    Ok(()) => Ok(metric),
                }
            },
        }
    }

    /// Builds the instance under `name` with the metric that `metric_name`
    /// resolves to, given what the engine reported of the build.
    ///
    /// Fails with `NotFound`, with `UnknownMetric`, or with `BuildFailed`
    /// where the instance does not admit a build, in this order, without
    /// looking at the report; the registry is then as it was. Where the
    /// engine failed, the instance is failed for good and the call fails
    /// with the engine's diagnostic; every later call fails with that same
    /// diagnostic.
    pub fn build_named(&mut self, name: &str, metric_name: &str, report: Result<(), String>) -> (r:
        Result<(), RegistryError>)
        ensures
            outcome_view(r) == build_result(old(self)@, name@, metric_name@, report_view(report)),
            final(self)@ == after_build(old(self)@, name@, metric_name@, report_view(report)),
    {
        proof {
            use_type_invariant(&*self);
        }
        match find(&self.entries, name) {
            None => Err(RegistryError::NotFound),
            Some(i) => {
                proof {
                    lemma_slot(self.entries@, i as int);
                }
                let metric = metrics_transform(metric_name);
                if !metric.is_known() && self.entries[i].instance.family().requires_known_metric() {
                    return Err(RegistryError::UnknownMetric);
                }
                let mut entries: Vec<Entry> = Vec::new();
                std::mem::swap(&mut self.entries, &mut entries);
                let ghost before = entries@;
                let built = entries[i].instance.build(metric, report);
                proof {
                    lemma_update(before, i as int, entries@[i as int]);
                    assert(entries@ =~= before.update(i as int, entries@[i as int]));
                    if before[i as int].instance@.admits_build() is Err {
                        assert(model(before).insert(name@, model(before)[name@]) =~= model(before));
                    }
                }
                self.entries = entries;
                match built {
                    Err(e) => Err(RegistryError::from_build(e)),
                    Ok(()) => Ok(()),
                }
            },
        }
    }

    /// Says whether `query` may be handed to the engine of the instance
    /// under `name`. Changes nothing.
    pub fn admit_search<E>(&self, name: &str, query: &[E]) -> (r: Result<(), RegistryError>)
        ensures
            outcome_view(r) == admits_search(self@, name@, query@.len()),
    {
        proof {
            use_type_invariant(self);
        }
        match find(&self.entries, name) {
            None => Err(RegistryError::NotFound),
            Some(i) => {
                proof {
                    lemma_slot(self.entries@, i as int);
                }
                match self.entries[i].instance.admit_search(query) {
                    Err(e) => Err(RegistryError::from_search(e)),
                    Ok(()) => Ok(()),
                }
            },
        }
    }

    /// Answers a query for `k` neighbours against the instance under `name`,
    /// given what the engine reported.
    ///
    /// Fails with `NotFound`, `InvalidState` or `DimensionMismatch`, in this
    /// order, without looking at the report; with `SearchFailed` where the
    /// engine failed. The answer is the engine's ids in the engine's order,
    /// cut to `k`.
    pub fn search_in<E>(
        &self,
        name: &str,
        query: &[E],
        k: usize,
        report: Result<Vec<usize>, String>,
    ) -> (r: Result<SearchResult, RegistryError>)
        ensures
            answer_view(r) == search_result(
                self@,
                name@,
                query@.len(),
                k as nat,
                hits_view(report),
            ),
            r matches Ok(answer) ==> answer.idx@.len() <= k,
    {
        proof {
            use_type_invariant(self);
        }
        match find(&self.entries, name) {
            None => Err(RegistryError::NotFound),
            Some(i) => {
                proof {
                    lemma_slot(self.entries@, i as int);
                }
                match self.entries[i].instance.search(query, k, report) {
                    Err(e) => Err(RegistryError::from_search(e)),
                    Ok(answer) => Ok(answer),
                }
            },
        }
    }

    /// Takes the instance under `name` out of the registry.
    pub fn remove(&mut self, name: &str) -> (r: Result<IndexInstance, RegistryError>)
        ensures
            match r {
                Ok(instance) => old(self)@.contains_key(name@) && instance@ == old(self)@[name@]
                    && final(self)@ == old(self)@.remove(name@),
                Err(e) => !old(self)@.contains_key(name@) && e@ == RegistryErrorView::NotFound
                    && final(self)@ == old(self)@,
            },
    {
        proof {
            use_type_invariant(&*self);
        }
        match find(&self.entries, name) {
            None => Err(RegistryError::NotFound),
            Some(i) => {
                let mut entries: Vec<Entry> = Vec::new();
                std::mem::swap(&mut self.entries, &mut entries);
                proof {
                    lemma_slot(entries@, i as int);
                    lemma_remove(entries@, i as int);
                }
                let entry = entries.remove(i);
                self.entries = entries;
                Ok(entry.instance)
            },
        }
    }
}

} // verus!
