use app_operator::deployment::{
    build_workload, CreateOutcome, DeleteOutcome, WorkloadStore, WORKLOAD_REPLICAS,
};
use app_operator::Error;

fn descriptor(name: &str, image: &str) -> app_operator::deployment::WorkloadDescriptor {
    build_workload(&name.to_owned(), &image.to_owned()).unwrap()
}

#[test]
fn build_workload_fills_descriptor() {
    let d = descriptor("a", "nginx:1");
    assert_eq!(d.name, "a");
    assert_eq!(d.replicas, WORKLOAD_REPLICAS);
    assert_eq!(d.replicas, 2);
    assert_eq!(d.app_label, "nginx");
    assert_eq!(d.container_name, "a");
    assert_eq!(d.image, "nginx:1");
}

#[test]
fn build_workload_rejects_empty_name() {
    let r = build_workload(&String::new(), &"nginx:1".to_owned());
    assert!(matches!(r, Err(Error::SerializationError(_))));
}

#[test]
fn build_workload_rejects_long_name() {
    let long = "x".repeat(64);
    let r = build_workload(&long, &"nginx:1".to_owned());
    assert!(matches!(r, Err(Error::SerializationError(_))));
    let just_fits = "x".repeat(63);
    assert!(build_workload(&just_fits, &"nginx:1".to_owned()).is_ok());
}

#[test]
fn build_workload_rejects_empty_image() {
    let r = build_workload(&"a".to_owned(), &String::new());
    assert!(matches!(r, Err(Error::SerializationError(_))));
}

#[test]
fn create_twice_leaves_one_workload() {
    let mut store = WorkloadStore::new();
    let first = store.create(descriptor("a", "nginx:1"));
    assert_eq!(first, CreateOutcome::Created);
    let second = store.create(descriptor("a", "nginx:1"));
    assert_eq!(second, CreateOutcome::AlreadyExists);
    assert_eq!(store.len(), 1);
    assert!(store.get(&"a".to_owned()).is_some());
}

#[test]
fn create_existing_name_is_success_without_duplicate() {
    let mut store = WorkloadStore::new();
    assert_eq!(store.create(descriptor("a", "nginx:0")), CreateOutcome::Created);
    let outcome = store.create(descriptor("a", "nginx:1"));
    assert_eq!(outcome, CreateOutcome::AlreadyExists);
    assert_eq!(store.len(), 1);
    // The pre-existing workload is left as it was, not treated as changed.
    assert_eq!(store.get(&"a".to_owned()).unwrap().image, "nginx:0");
}

#[test]
fn delete_absent_is_noop_success() {
    let mut store = WorkloadStore::new();
    assert_eq!(store.delete(&"a".to_owned()), DeleteOutcome::NotFound);
    assert_eq!(store.len(), 0);

    store.create(descriptor("b", "nginx:1"));
    assert_eq!(store.delete(&"a".to_owned()), DeleteOutcome::NotFound);
    assert_eq!(store.len(), 1);
}

#[test]
fn delete_then_delete_again() {
    let mut store = WorkloadStore::new();
    store.create(descriptor("a", "nginx:1"));
    assert_eq!(store.delete(&"a".to_owned()), DeleteOutcome::Deleted);
    assert_eq!(store.len(), 0);
    assert_eq!(store.delete(&"a".to_owned()), DeleteOutcome::NotFound);
}

#[test]
fn distinct_names_coexist() {
    let mut store = WorkloadStore::new();
    assert_eq!(store.create(descriptor("a", "nginx:1")), CreateOutcome::Created);
    assert_eq!(store.create(descriptor("b", "nginx:2")), CreateOutcome::Created);
    assert_eq!(store.len(), 2);
    assert_eq!(store.get(&"a".to_owned()).unwrap().image, "nginx:1");
    assert_eq!(store.get(&"b".to_owned()).unwrap().image, "nginx:2");
}
