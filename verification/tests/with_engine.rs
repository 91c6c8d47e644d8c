use ann_registry::error::RegistryError;
use ann_registry::metric::Metric;
use ann_registry::registry::Registry;
use hora::index::bruteforce_idx::BruteForceIndex;
use hora::index::bruteforce_params::BruteForceParams;
use hora::index::hnsw_idx::HNSWIndex;
use hora::index::hnsw_params::HNSWParams;

fn outside(metric: Metric) -> hora::core::metrics::Metric {
    match metric {
        Metric::Angular => hora::core::metrics::Metric::Angular,
        Metric::Manhattan => hora::core::metrics::Metric::Manhattan,
        Metric::DotProduct => hora::core::metrics::Metric::DotProduct,
        Metric::Euclidean => hora::core::metrics::Metric::Euclidean,
        Metric::CosineSimilarity => hora::core::metrics::Metric::CosineSimilarity,
        Metric::Unknown => hora::core::metrics::Metric::Unknown,
    }
}

fn said(report: Result<(), &'static str>) -> Result<(), String> {
    report.map_err(|d| d.to_string())
}

fn add(
    registry: &mut Registry,
    engine: &mut dyn hora::core::ann_index::ANNIndex<f32, usize>,
    name: &str,
    features: &[f32],
    id: usize,
) -> Result<(), RegistryError> {
    registry.admit_add(name, features)?;
    let report = said(engine.add(features, id));
    registry.add_to(name, features, id, report)
}

fn build(
    registry: &mut Registry,
    engine: &mut dyn hora::core::ann_index::ANNIndex<f32, usize>,
    name: &str,
    metric_name: &str,
) -> Result<(), RegistryError> {
    let metric = registry.admit_build(name, metric_name)?;
    let report = said(engine.build(outside(metric)));
    registry.build_named(name, metric_name, report)
}

fn search(
    registry: &Registry,
    engine: &dyn hora::core::ann_index::ANNIndex<f32, usize>,
    name: &str,
    query: &[f32],
    k: usize,
) -> Result<Vec<usize>, RegistryError> {
    registry.admit_search(name, query)?;
    let found = engine.search(query, k);
    Ok(registry.search_in(name, query, k, Ok(found))?.idx)
}

#[test]
fn nearest_of_three_unit_vectors() {
    let mut registry = Registry::new();
    assert_eq!(registry.create_named("t1", "bruteforce_index", 3, b"{}", Ok(())), Ok(()));
    let mut engine = BruteForceIndex::<f32, usize>::new(3, &BruteForceParams::default());
    assert_eq!(add(&mut registry, &mut engine, "t1", &[1.0, 0.0, 0.0], 1), Ok(()));
    assert_eq!(add(&mut registry, &mut engine, "t1", &[0.0, 1.0, 0.0], 2), Ok(()));
    assert_eq!(add(&mut registry, &mut engine, "t1", &[0.0, 0.0, 1.0], 3), Ok(()));
    assert_eq!(build(&mut registry, &mut engine, "t1", "euclidean"), Ok(()));
    assert_eq!(search(&registry, &engine, "t1", &[1.0, 0.0, 0.1], 1), Ok(vec![1]));
    assert_eq!(registry.get("t1").unwrap().ids(), &vec![1, 2, 3]);
}

#[test]
fn engine_is_not_reached_before_the_build() {
    let mut registry = Registry::new();
    assert_eq!(registry.create_named("t1", "bruteforce_index", 3, b"{}", Ok(())), Ok(()));
    let mut engine = BruteForceIndex::<f32, usize>::new(3, &BruteForceParams::default());
    assert_eq!(add(&mut registry, &mut engine, "t1", &[1.0, 0.0, 0.0], 1), Ok(()));
    assert_eq!(
        search(&registry, &engine, "t1", &[1.0, 0.0, 0.1], 1),
        Err(RegistryError::InvalidState)
    );
}

#[test]
fn engine_is_not_reached_with_a_vector_of_the_wrong_length() {
    let mut registry = Registry::new();
    assert_eq!(registry.create_named("t1", "bruteforce_index", 3, b"{}", Ok(())), Ok(()));
    let mut engine = BruteForceIndex::<f32, usize>::new(3, &BruteForceParams::default());
    assert_eq!(add(&mut registry, &mut engine, "t1", &[1.0, 0.0, 0.0], 1), Ok(()));
    assert_eq!(
        add(&mut registry, &mut engine, "t1", &[1.0, 0.0], 2),
        Err(RegistryError::DimensionMismatch)
    );
    assert_eq!(registry.get("t1").unwrap().count(), 1);
    assert_eq!(build(&mut registry, &mut engine, "t1", "euclidean"), Ok(()));
    assert_eq!(
        search(&registry, &engine, "t1", &[1.0, 0.0], 1),
        Err(RegistryError::DimensionMismatch)
    );
    assert_eq!(search(&registry, &engine, "t1", &[0.9, 0.0, 0.0], 5), Ok(vec![1]));
}

#[test]
fn nearest_neighbours_come_ranked_and_cut_to_k() {
    let mut registry = Registry::new();
    assert_eq!(registry.create_named("line", "bruteforce_index", 1, b"{}", Ok(())), Ok(()));
    let mut engine = BruteForceIndex::<f32, usize>::new(1, &BruteForceParams::default());
    for (id, x) in [(10usize, 0.0f32), (20, 1.0), (30, 2.0), (40, 3.0)] {
        assert_eq!(add(&mut registry, &mut engine, "line", &[x], id), Ok(()));
    }
    assert_eq!(build(&mut registry, &mut engine, "line", "euclidean"), Ok(()));
    assert_eq!(search(&registry, &engine, "line", &[2.1], 0), Ok(vec![]));
    assert_eq!(search(&registry, &engine, "line", &[2.1], 1), Ok(vec![30]));
    assert_eq!(search(&registry, &engine, "line", &[2.1], 2), Ok(vec![30, 40]));
    assert_eq!(search(&registry, &engine, "line", &[2.1], 3), Ok(vec![30, 40, 20]));
    assert_eq!(search(&registry, &engine, "line", &[2.1], 9), Ok(vec![30, 40, 20, 10]));
}

#[test]
fn linear_scan_sees_a_vector_added_after_the_build() {
    let mut registry = Registry::new();
    assert_eq!(registry.create_named("t1", "bruteforce_index", 2, b"{}", Ok(())), Ok(()));
    let mut engine = BruteForceIndex::<f32, usize>::new(2, &BruteForceParams::default());
    assert_eq!(add(&mut registry, &mut engine, "t1", &[0.0, 0.0], 1), Ok(()));
    assert_eq!(build(&mut registry, &mut engine, "t1", "manhattan"), Ok(()));
    assert_eq!(add(&mut registry, &mut engine, "t1", &[5.0, 5.0], 2), Ok(()));
    assert_eq!(search(&registry, &engine, "t1", &[4.0, 4.0], 1), Ok(vec![2]));
}

#[test]
fn graph_index_refuses_what_its_limit_excludes() {
    let mut registry = Registry::new();
    assert_eq!(registry.create_named("g", "hnsw_index", 2, b"{}", Ok(())), Ok(()));
    let mut engine = HNSWIndex::<f32, usize>::new(2, &HNSWParams::<f32>::default().max_item(2));
    assert_eq!(add(&mut registry, &mut engine, "g", &[0.0, 0.0], 1), Ok(()));
    assert_eq!(add(&mut registry, &mut engine, "g", &[1.0, 0.0], 2), Ok(()));
    assert_eq!(
        add(&mut registry, &mut engine, "g", &[2.0, 0.0], 3),
        Err(RegistryError::AddFailed(
            "The number of elements exceeds the specified limit".to_string()
        ))
    );
    assert_eq!(registry.get("g").unwrap().ids(), &vec![1, 2]);
}
