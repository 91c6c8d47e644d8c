use ann_registry::error::{AddError, BuildError, FactoryError, RegistryError, SearchError};
use ann_registry::family::Family;
use ann_registry::instance::Lifecycle;
use ann_registry::metric::Metric;
use ann_registry::registry::Registry;

fn with_t1() -> Registry {
    let mut registry = Registry::new();
    assert_eq!(registry.create_named("t1", "bruteforce_index", 3, b"{}", Ok(())), Ok(()));
    registry
}

#[test]
fn new_registry_is_empty() {
    let registry = Registry::new();
    assert_eq!(registry.len(), 0);
    assert!(!registry.contains("t1"));
    assert!(registry.get("t1").is_none());
}

#[test]
fn create_puts_a_fresh_instance_under_the_name() {
    let registry = with_t1();
    assert_eq!(registry.len(), 1);
    assert!(registry.contains("t1"));
    assert!(!registry.contains("t2"));
    assert!(!registry.contains("T1"));
    let instance = registry.get("t1").unwrap();
    assert_eq!(instance.family(), Family::BruteForce);
    assert_eq!(instance.dimension(), 3);
    assert_eq!(instance.state(), Lifecycle::Created);
    assert_eq!(instance.metric(), None);
    assert_eq!(instance.count(), 0);
}

#[test]
fn create_accepts_the_empty_name_once() {
    let mut registry = Registry::new();
    assert_eq!(registry.create_named("", "pq_index", 8, b"{}", Ok(())), Ok(()));
    assert!(registry.contains(""));
    assert_eq!(
        registry.create_named("", "pq_index", 8, b"{}", Ok(())),
        Err(RegistryError::NameCollision)
    );
}

#[test]
fn second_create_of_a_name_collides_and_changes_nothing() {
    let mut registry = with_t1();
    assert_eq!(registry.add_to("t1", &[1.0f32, 0.0, 0.0], 1, Ok(())), Ok(()));
    assert_eq!(registry.build_named("t1", "euclidean", Ok(())), Ok(()));
    assert_eq!(
        registry.create_named("t1", "hnsw_index", 16, b"{}", Ok(())),
        Err(RegistryError::NameCollision)
    );
    assert_eq!(registry.len(), 1);
    let instance = registry.get("t1").unwrap();
    assert_eq!(instance.family(), Family::BruteForce);
    assert_eq!(instance.dimension(), 3);
    assert_eq!(instance.state(), Lifecycle::Ready);
    assert_eq!(instance.metric(), Some(Metric::Euclidean));
    assert_eq!(instance.ids(), &vec![1]);
}

#[test]
fn collision_comes_before_every_factory_error() {
    let mut registry = with_t1();
    assert_eq!(
        registry.create_named("t1", "no_such_index", 0, b"{}", Err("bad".to_string())),
        Err(RegistryError::NameCollision)
    );
}

#[test]
fn create_hands_on_the_factory_errors_and_inserts_nothing() {
    let mut registry = Registry::new();
    assert_eq!(
        registry.create_named("a", "no_such_index", 3, b"{}", Ok(())),
        Err(RegistryError::UnknownIndexType)
    );
    assert_eq!(
        registry.create_named("a", "hnsw_index", 3, b"{}", Err("expected value at line 1".to_string())),
        Err(RegistryError::InvalidParameters("expected value at line 1".to_string()))
    );
    assert_eq!(
        registry.create_named("a", "hnsw_index", 0, b"{}", Ok(())),
        Err(RegistryError::InvalidDimension)
    );
    assert_eq!(registry.len(), 0);
    assert!(!registry.contains("a"));
}

#[test]
fn every_operation_on_a_missing_name_is_not_found() {
    let mut registry = with_t1();
    let v = [1.0f32, 0.0, 0.0];
    assert_eq!(registry.admit_add("t2", &v), Err(RegistryError::NotFound));
    assert_eq!(registry.add_to("t2", &v, 1, Ok(())), Err(RegistryError::NotFound));
    assert_eq!(
        registry.admit_add_batch("t2", &[v.to_vec()], &[1]),
        Err(RegistryError::NotFound)
    );
    assert_eq!(registry.admit_build("t2", "euclidean"), Err(RegistryError::NotFound));
    assert_eq!(registry.build_named("t2", "euclidean", Ok(())), Err(RegistryError::NotFound));
    assert_eq!(registry.admit_search("t2", &v), Err(RegistryError::NotFound));
    assert_eq!(registry.search_in("t2", &v, 1, Ok(vec![1])), Err(RegistryError::NotFound));
    assert_eq!(registry.remove("t2"), Err(RegistryError::NotFound));
    assert_eq!(registry.len(), 1);
}

#[test]
fn not_found_comes_before_a_batch_mismatch_and_an_unknown_metric() {
    let registry = Registry::new();
    let none: [Vec<f32>; 0] = [];
    assert_eq!(registry.admit_add_batch("t2", &none, &[1]), Err(RegistryError::NotFound));
    assert_eq!(registry.admit_build("t2", "no_metric"), Err(RegistryError::NotFound));
}

#[test]
fn search_before_build_is_invalid_state() {
    let mut registry = with_t1();
    let q = [1.0f32, 0.0, 0.1];
    assert_eq!(registry.admit_search("t1", &q), Err(RegistryError::InvalidState));
    assert_eq!(registry.search_in("t1", &q, 1, Ok(vec![1])), Err(RegistryError::InvalidState));
    assert_eq!(registry.add_to("t1", &[1.0f32, 0.0, 0.0], 1, Ok(())), Ok(()));
    assert_eq!(registry.admit_search("t1", &q), Err(RegistryError::InvalidState));
    assert_eq!(
        registry.build_named("t1", "euclidean", Err("engine gave up".to_string())),
        Err(RegistryError::BuildFailed(BuildError::Failed("engine gave up".to_string())))
    );
    assert_eq!(registry.admit_search("t1", &q), Err(RegistryError::InvalidState));
}

#[test]
fn search_is_admitted_after_one_successful_build() {
    let mut registry = with_t1();
    let q = [1.0f32, 0.0, 0.1];
    assert_eq!(registry.build_named("t1", "euclidean", Ok(())), Ok(()));
    assert_eq!(registry.admit_search("t1", &q), Ok(()));
    assert_eq!(registry.search_in("t1", &q, 1, Ok(vec![])).unwrap().idx, Vec::<usize>::new());
}

#[test]
fn add_of_length_two_to_dimension_three_is_a_mismatch_and_stores_nothing() {
    let mut registry = with_t1();
    assert_eq!(registry.add_to("t1", &[1.0f32, 0.0, 0.0], 1, Ok(())), Ok(()));
    assert_eq!(registry.get("t1").unwrap().count(), 1);
    assert_eq!(registry.admit_add("t1", &[1.0f32, 0.0]), Err(RegistryError::DimensionMismatch));
    assert_eq!(
        registry.add_to("t1", &[1.0f32, 0.0], 2, Ok(())),
        Err(RegistryError::DimensionMismatch)
    );
    assert_eq!(registry.get("t1").unwrap().count(), 1);
    assert_eq!(registry.get("t1").unwrap().ids(), &vec![1]);
}

#[test]
fn query_of_the_wrong_length_is_a_mismatch_once_built() {
    let mut registry = with_t1();
    assert_eq!(registry.build_named("t1", "angular", Ok(())), Ok(()));
    assert_eq!(
        registry.admit_search("t1", &[1.0f32, 0.0]),
        Err(RegistryError::DimensionMismatch)
    );
    assert_eq!(
        registry.search_in("t1", &[1.0f32, 0.0, 0.0, 0.0], 1, Ok(vec![1])),
        Err(RegistryError::DimensionMismatch)
    );
}

#[test]
fn add_after_build_is_invalid_state_for_a_graph_index() {
    let mut registry = Registry::new();
    assert_eq!(registry.create_named("g", "hnsw_index", 2, b"{}", Ok(())), Ok(()));
    assert_eq!(registry.add_to("g", &[0.0f32, 1.0], 10, Ok(())), Ok(()));
    assert_eq!(registry.build_named("g", "euclidean", Ok(())), Ok(()));
    assert_eq!(registry.admit_add("g", &[0.0f32, 1.0]), Err(RegistryError::InvalidState));
    assert_eq!(
        registry.add_to("g", &[0.0f32, 1.0], 11, Ok(())),
        Err(RegistryError::InvalidState)
    );
    assert_eq!(registry.get("g").unwrap().ids(), &vec![10]);
}

#[test]
fn add_that_the_engine_refused_is_add_failed_and_stores_nothing() {
    let mut registry = with_t1();
    assert_eq!(
        registry.add_to("t1", &[1.0f32, 0.0, 0.0], 1, Err("limit".to_string())),
        Err(RegistryError::AddFailed("limit".to_string()))
    );
    assert_eq!(registry.get("t1").unwrap().count(), 0);
}

#[test]
fn batch_must_hold_as_many_ids_as_vectors() {
    let registry = with_t1();
    let two = [vec![1.0f32, 0.0, 0.0], vec![0.0f32, 1.0, 0.0]];
    assert_eq!(registry.admit_add_batch("t1", &two, &[1, 2]), Ok(()));
    assert_eq!(registry.admit_add_batch("t1", &two, &[1]), Err(RegistryError::BatchMismatch));
    assert_eq!(
        registry.admit_add_batch("t1", &two, &[1, 2, 3]),
        Err(RegistryError::BatchMismatch)
    );
    let none: [Vec<f32>; 0] = [];
    assert_eq!(registry.admit_add_batch("t1", &none, &[]), Ok(()));
}

#[test]
fn batch_is_refused_as_a_whole_for_one_wrong_vector() {
    let registry = with_t1();
    let last_short = [vec![1.0f32, 0.0, 0.0], vec![0.0f32, 1.0, 0.0], vec![0.0f32, 1.0]];
    assert_eq!(
        registry.admit_add_batch("t1", &last_short, &[1, 2, 3]),
        Err(RegistryError::DimensionMismatch)
    );
    let first_long = [vec![1.0f32, 0.0, 0.0, 0.0], vec![0.0f32, 1.0, 0.0]];
    assert_eq!(
        registry.admit_add_batch("t1", &first_long, &[1, 2]),
        Err(RegistryError::DimensionMismatch)
    );
    assert_eq!(registry.get("t1").unwrap().count(), 0);
}

#[test]
fn batch_checks_count_then_dimension_then_state() {
    let mut registry = Registry::new();
    assert_eq!(registry.create_named("g", "ssg_index", 2, b"{}", Ok(())), Ok(()));
    assert_eq!(registry.build_named("g", "euclidean", Ok(())), Ok(()));
    let wrong = [vec![1.0f32]];
    let right = [vec![1.0f32, 2.0]];
    assert_eq!(registry.admit_add_batch("g", &wrong, &[]), Err(RegistryError::BatchMismatch));
    assert_eq!(registry.admit_add_batch("g", &wrong, &[1]), Err(RegistryError::DimensionMismatch));
    assert_eq!(registry.admit_add_batch("g", &right, &[1]), Err(RegistryError::InvalidState));
    let none: [Vec<f32>; 0] = [];
    assert_eq!(registry.admit_add_batch("g", &none, &[]), Err(RegistryError::InvalidState));
}

#[test]
fn build_resolves_the_metric_name() {
    let mut registry = with_t1();
    assert_eq!(registry.admit_build("t1", "cosine_similarity"), Ok(Metric::CosineSimilarity));
    assert_eq!(registry.get("t1").unwrap().state(), Lifecycle::Created);
    assert_eq!(registry.build_named("t1", "cosine_similarity", Ok(())), Ok(()));
    assert_eq!(registry.get("t1").unwrap().metric(), Some(Metric::CosineSimilarity));
    assert_eq!(registry.get("t1").unwrap().state(), Lifecycle::Ready);
}

#[test]
fn build_with_an_unrecognised_metric_is_refused_and_changes_nothing() {
    let mut registry = with_t1();
    assert_eq!(registry.admit_build("t1", "hamming"), Err(RegistryError::UnknownMetric));
    assert_eq!(registry.build_named("t1", "hamming", Ok(())), Err(RegistryError::UnknownMetric));
    assert_eq!(
        registry.build_named("t1", "", Err("x".to_string())),
        Err(RegistryError::UnknownMetric)
    );
    assert_eq!(registry.get("t1").unwrap().state(), Lifecycle::Created);
    assert_eq!(registry.get("t1").unwrap().metric(), None);
}

#[test]
fn build_twice_is_already_built_for_a_quantized_index() {
    let mut registry = Registry::new();
    assert_eq!(registry.create_named("p", "pq_index", 4, b"{}", Ok(())), Ok(()));
    assert_eq!(registry.build_named("p", "euclidean", Ok(())), Ok(()));
    assert_eq!(
        registry.admit_build("p", "manhattan"),
        Err(RegistryError::BuildFailed(BuildError::AlreadyBuilt))
    );
    assert_eq!(
        registry.build_named("p", "manhattan", Ok(())),
        Err(RegistryError::BuildFailed(BuildError::AlreadyBuilt))
    );
    assert_eq!(registry.get("p").unwrap().metric(), Some(Metric::Euclidean));
}

#[test]
fn unknown_metric_comes_before_already_built() {
    let mut registry = Registry::new();
    assert_eq!(registry.create_named("p", "pq_index", 4, b"{}", Ok(())), Ok(()));
    assert_eq!(registry.build_named("p", "euclidean", Ok(())), Ok(()));
    assert_eq!(registry.admit_build("p", "nope"), Err(RegistryError::UnknownMetric));
}

#[test]
fn failed_build_fails_the_instance_for_good() {
    let mut registry = with_t1();
    assert_eq!(
        registry.build_named("t1", "euclidean", Err("first".to_string())),
        Err(RegistryError::BuildFailed(BuildError::Failed("first".to_string())))
    );
    assert_eq!(registry.get("t1").unwrap().state(), Lifecycle::Failed);
    assert_eq!(
        registry.admit_build("t1", "euclidean"),
        Err(RegistryError::BuildFailed(BuildError::Failed("first".to_string())))
    );
    assert_eq!(
        registry.build_named("t1", "euclidean", Ok(())),
        Err(RegistryError::BuildFailed(BuildError::Failed("first".to_string())))
    );
    assert_eq!(
        registry.admit_add("t1", &[1.0f32, 0.0, 0.0]),
        Err(RegistryError::InvalidState)
    );
    assert_eq!(registry.get("t1").unwrap().state(), Lifecycle::Failed);
}

#[test]
fn search_answer_never_exceeds_k() {
    let mut registry = with_t1();
    assert_eq!(registry.build_named("t1", "euclidean", Ok(())), Ok(()));
    let q = [1.0f32, 0.0, 0.1];
    for k in 0..6usize {
        let answer = registry.search_in("t1", &q, k, Ok(vec![4, 2, 5, 1])).unwrap();
        assert!(answer.idx.len() <= k);
        assert_eq!(answer.idx, vec![4, 2, 5, 1][..k.min(4)].to_vec());
    }
    assert_eq!(
        registry.search_in("t1", &q, 0, Ok(vec![4, 2, 5, 1])).unwrap().idx,
        Vec::<usize>::new()
    );
}

#[test]
fn search_that_the_engine_failed_is_search_failed() {
    let mut registry = with_t1();
    assert_eq!(registry.build_named("t1", "euclidean", Ok(())), Ok(()));
    assert_eq!(
        registry.search_in("t1", &[1.0f32, 0.0, 0.1], 1, Err("cand error".to_string())),
        Err(RegistryError::SearchFailed("cand error".to_string()))
    );
}

#[test]
fn operations_on_one_name_leave_the_others_alone() {
    let mut registry = with_t1();
    assert_eq!(registry.create_named("t2", "hnsw_index", 2, b"{}", Ok(())), Ok(()));
    assert_eq!(registry.add_to("t2", &[1.0f32, 0.0], 42, Ok(())), Ok(()));
    assert_eq!(registry.build_named("t2", "angular", Ok(())), Ok(()));
    let t1 = registry.get("t1").unwrap();
    assert_eq!(t1.state(), Lifecycle::Created);
    assert_eq!(t1.count(), 0);
    assert_eq!(t1.dimension(), 3);
    let t2 = registry.get("t2").unwrap();
    assert_eq!(t2.state(), Lifecycle::Ready);
    assert_eq!(t2.ids(), &vec![42]);
    assert_eq!(registry.len(), 2);
}

#[test]
fn remove_takes_the_instance_out_and_frees_the_name() {
    let mut registry = with_t1();
    assert_eq!(registry.create_named("t2", "hnsw_index", 2, b"{}", Ok(())), Ok(()));
    assert_eq!(registry.create_named("t3", "pq_index", 4, b"{}", Ok(())), Ok(()));
    assert_eq!(registry.add_to("t2", &[1.0f32, 0.0], 42, Ok(())), Ok(()));
    let gone = registry.remove("t2").unwrap();
    assert_eq!(gone.family(), Family::Hnsw);
    assert_eq!(gone.ids(), &vec![42]);
    assert_eq!(registry.len(), 2);
    assert!(!registry.contains("t2"));
    assert!(registry.contains("t1"));
    assert_eq!(registry.get("t3").unwrap().family(), Family::Pq);
    assert_eq!(registry.create_named("t2", "ssg_index", 5, b"{}", Ok(())), Ok(()));
    assert_eq!(registry.get("t2").unwrap().family(), Family::Ssg);
    assert_eq!(registry.get("t2").unwrap().count(), 0);
}

#[test]
fn errors_answer_with_their_status() {
    assert_eq!(RegistryError::UnknownIndexType.status(), 404);
    assert_eq!(RegistryError::NotFound.status(), 404);
    assert_eq!(RegistryError::NameCollision.status(), 409);
    assert_eq!(RegistryError::InvalidParameters("x".to_string()).status(), 400);
    assert_eq!(RegistryError::InvalidDimension.status(), 400);
    assert_eq!(RegistryError::DimensionMismatch.status(), 400);
    assert_eq!(RegistryError::InvalidState.status(), 400);
    assert_eq!(RegistryError::UnknownMetric.status(), 400);
    assert_eq!(RegistryError::BatchMismatch.status(), 400);
    assert_eq!(RegistryError::BuildFailed(BuildError::AlreadyBuilt).status(), 500);
    assert_eq!(RegistryError::BuildFailed(BuildError::Failed("x".to_string())).status(), 500);
    assert_eq!(RegistryError::SearchFailed("x".to_string()).status(), 500);
    assert_eq!(RegistryError::AddFailed("x".to_string()).status(), 500);
    assert_eq!(ann_registry::wire::STATUS_OK, 200);
}

#[test]
fn instance_and_factory_errors_become_registry_errors() {
    assert_eq!(
        RegistryError::from_factory(FactoryError::UnknownIndexType),
        RegistryError::UnknownIndexType
    );
    assert_eq!(
        RegistryError::from_factory(FactoryError::InvalidParameters("p".to_string())),
        RegistryError::InvalidParameters("p".to_string())
    );
    assert_eq!(
        RegistryError::from_factory(FactoryError::InvalidDimension),
        RegistryError::InvalidDimension
    );
    assert_eq!(
        RegistryError::from_add(AddError::DimensionMismatch),
        RegistryError::DimensionMismatch
    );
    assert_eq!(RegistryError::from_add(AddError::InvalidState), RegistryError::InvalidState);
    assert_eq!(
        RegistryError::from_add(AddError::Rejected("a".to_string())),
        RegistryError::AddFailed("a".to_string())
    );
    assert_eq!(
        RegistryError::from_build(BuildError::AlreadyBuilt),
        RegistryError::BuildFailed(BuildError::AlreadyBuilt)
    );
    assert_eq!(
        RegistryError::from_build(BuildError::Failed("b".to_string())),
        RegistryError::BuildFailed(BuildError::Failed("b".to_string()))
    );
    assert_eq!(RegistryError::from_search(SearchError::InvalidState), RegistryError::InvalidState);
    assert_eq!(
        RegistryError::from_search(SearchError::DimensionMismatch),
        RegistryError::DimensionMismatch
    );
    assert_eq!(
        RegistryError::from_search(SearchError::Failed("s".to_string())),
        RegistryError::SearchFailed("s".to_string())
    );
}
