use httpress_example::routes::{
    create_key, delete_key, get_key, list_keys, update_key, CreatePayload, Reply, UpdatePayload,
};
use httpress_example::store::KvStore;

fn create(store: &mut KvStore, key: &str, value: &str) -> Reply {
    create_key(store, CreatePayload { key: key.to_string(), value: value.to_string() })
}

fn update(store: &mut KvStore, key: &str, value: &str) -> Reply {
    update_key(store, key.to_string(), UpdatePayload { value: value.to_string() })
}

fn read(store: &KvStore, key: &str) -> Option<String> {
    match get_key(store, key) {
        Reply::Found(v) => Some(v),
        Reply::NotFound => None,
        _ => panic!("a read is answered with a value or not found"),
    }
}

fn sorted_keys(store: &KvStore) -> Vec<String> {
    let mut keys = list_keys(store);
    keys.sort();
    keys
}

#[test]
fn status_codes_of_every_reply() {
    assert_eq!(Reply::Found("v".to_string()).status(), 200);
    assert_eq!(Reply::Updated.status(), 200);
    assert_eq!(Reply::Created.status(), 201);
    assert_eq!(Reply::Deleted.status(), 204);
    assert_eq!(Reply::NotFound.status(), 404);
    assert_eq!(Reply::Conflict.status(), 409);
}

#[test]
fn new_store_is_empty() {
    let store = KvStore::new();
    assert!(list_keys(&store).is_empty());
    assert_eq!(get_key(&store, "foo").status(), 404);
}

#[test]
fn get_of_missing_key_is_not_found() {
    let mut store = KvStore::new();
    create(&mut store, "foo", "bar");
    assert!(matches!(get_key(&store, "fo"), Reply::NotFound));
}

#[test]
fn update_of_missing_key_is_not_found_and_adds_nothing() {
    let mut store = KvStore::new();
    let res = update(&mut store, "foo", "bar");
    assert!(matches!(res, Reply::NotFound));
    assert_eq!(res.status(), 404);
    assert_eq!(read(&store, "foo"), None);
    assert!(list_keys(&store).is_empty());
}

#[test]
fn delete_of_missing_key_is_not_found() {
    let mut store = KvStore::new();
    create(&mut store, "a", "1");
    let res = delete_key(&mut store, "b");
    assert!(matches!(res, Reply::NotFound));
    assert_eq!(res.status(), 404);
    assert_eq!(sorted_keys(&store), ["a"]);
}

#[test]
fn conflict_keeps_the_first_value() {
    let mut store = KvStore::new();
    assert!(matches!(create(&mut store, "foo", "bar"), Reply::Created));
    assert!(matches!(create(&mut store, "foo", "baz"), Reply::Conflict));
    assert_eq!(read(&store, "foo").as_deref(), Some("bar"));
    assert_eq!(sorted_keys(&store), ["foo"]);
}

#[test]
fn delete_undoes_create() {
    let mut store = KvStore::new();
    create(&mut store, "a", "1");
    create(&mut store, "b", "2");
    assert!(matches!(create(&mut store, "c", "3"), Reply::Created));
    assert!(matches!(delete_key(&mut store, "c"), Reply::Deleted));
    assert_eq!(sorted_keys(&store), ["a", "b"]);
    assert_eq!(read(&store, "a").as_deref(), Some("1"));
    assert_eq!(read(&store, "b").as_deref(), Some("2"));
    assert_eq!(read(&store, "c"), None);
}

#[test]
fn second_delete_is_not_found() {
    let mut store = KvStore::new();
    create(&mut store, "foo", "bar");
    assert!(matches!(delete_key(&mut store, "foo"), Reply::Deleted));
    assert!(matches!(delete_key(&mut store, "foo"), Reply::NotFound));
}

#[test]
fn last_update_wins() {
    let mut store = KvStore::new();
    create(&mut store, "foo", "bar");
    assert!(matches!(update(&mut store, "foo", "one"), Reply::Updated));
    assert!(matches!(update(&mut store, "foo", "two"), Reply::Updated));
    assert_eq!(read(&store, "foo").as_deref(), Some("two"));
    assert_eq!(sorted_keys(&store), ["foo"]);
}

#[test]
fn other_keys_are_unaffected() {
    let mut store = KvStore::new();
    create(&mut store, "a", "1");
    create(&mut store, "b", "2");
    update(&mut store, "a", "10");
    delete_key(&mut store, "a");
    assert_eq!(read(&store, "b").as_deref(), Some("2"));
}

#[test]
fn deleting_a_middle_key_keeps_the_others_listed() {
    let mut store = KvStore::new();
    for (k, v) in [("a", "1"), ("b", "2"), ("c", "3"), ("d", "4")] {
        create(&mut store, k, v);
    }
    delete_key(&mut store, "b");
    assert_eq!(sorted_keys(&store), ["a", "c", "d"]);
    delete_key(&mut store, "a");
    assert_eq!(sorted_keys(&store), ["c", "d"]);
    assert_eq!(read(&store, "d").as_deref(), Some("4"));
    create(&mut store, "b", "20");
    assert_eq!(sorted_keys(&store), ["b", "c", "d"]);
    assert_eq!(read(&store, "b").as_deref(), Some("20"));
}

#[test]
fn many_keys_listed_once_each() {
    let mut store = KvStore::new();
    for i in 0..200 {
        create(&mut store, &format!("k_{i}"), &format!("v_{i}"));
    }
    for i in (0..200).step_by(3) {
        assert!(matches!(delete_key(&mut store, &format!("k_{i}")), Reply::Deleted));
    }
    let keys = sorted_keys(&store);
    let mut expected: Vec<String> = (0..200).filter(|i| i % 3 != 0).map(|i| format!("k_{i}")).collect();
    expected.sort();
    assert_eq!(keys, expected);
    for i in 0..200 {
        let want = if i % 3 == 0 { None } else { Some(format!("v_{i}")) };
        assert_eq!(read(&store, &format!("k_{i}")), want);
    }
}

#[test]
fn store_methods_directly() {
    let mut store = KvStore::new();
    store.insert("x".to_string(), "1".to_string());
    store.insert("x".to_string(), "2".to_string());
    assert!(store.contains_key("x"));
    assert_eq!(store.get("x").map(|s| s.as_str()), Some("2"));
    assert_eq!(store.keys(), vec!["x".to_string()]);
    assert!(store.remove("x"));
    assert!(!store.remove("x"));
    assert!(!store.contains_key("x"));
    assert_eq!(store.get("x"), None);
}
