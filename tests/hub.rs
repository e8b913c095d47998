use memory_hub::hub::{merge_read, merge_write};
use memory_hub::MemoryHub;
use std::cell::RefCell;
use std::collections::HashMap;

#[derive(Default)]
struct MapBackend {
    data: RefCell<HashMap<String, Vec<u8>>>,
    writes: RefCell<Vec<(String, Vec<u8>)>>,
}

impl MapBackend {
    fn write(&self, key: String, value: Vec<u8>) -> Result<(), String> {
        self.writes.borrow_mut().push((key.clone(), value.clone()));
        self.data.borrow_mut().insert(key, value);
        Ok(())
    }

    fn read(&self, key: String) -> Result<Option<Vec<u8>>, String> {
        Ok(self.data.borrow().get(&key).cloned())
    }
}

fn hub_write(hub: &MemoryHub<MapBackend>, key: &str, value: &[u8]) -> Result<(), String> {
    let requests = hub.write_requests(&key.to_string(), &value.to_vec());
    let mut results = Vec::new();
    for (i, (k, v)) in requests.into_iter().enumerate() {
        results.push(hub.backend(i).write(k, v));
    }
    merge_write(results)
}

fn hub_read(hub: &MemoryHub<MapBackend>, key: &str) -> Result<Option<Vec<u8>>, String> {
    let requests = hub.read_requests(&key.to_string());
    let mut results = Vec::new();
    for (i, k) in requests.into_iter().enumerate() {
        results.push(hub.backend(i).read(k));
    }
    merge_read(results)
}

#[test]
fn smoke_write_read() {
    let mut hub = MemoryHub::new();
    hub.register_backend(MapBackend::default());
    hub_write(&hub, "foo", b"bar").unwrap();
    let res = hub_read(&hub, "foo").unwrap();
    assert_eq!(res.unwrap(), b"bar".to_vec());
}

#[test]
fn new_hub_is_empty() {
    let hub: MemoryHub<MapBackend> = MemoryHub::new();
    assert_eq!(hub.len(), 0);
    assert!(hub.write_requests(&"k".to_string(), &vec![1]).is_empty());
}

#[test]
fn registration_keeps_order() {
    let mut hub = MemoryHub::new();
    hub.register_backend(10u32);
    hub.register_backend(20u32);
    hub.register_backend(30u32);
    assert_eq!(hub.len(), 3);
    assert_eq!(*hub.backend(0), 10);
    assert_eq!(*hub.backend(1), 20);
    assert_eq!(*hub.backend(2), 30);
}

#[test]
fn write_reaches_every_backend_once() {
    let mut hub = MemoryHub::new();
    for _ in 0..3 {
        hub.register_backend(MapBackend::default());
    }
    hub_write(&hub, "k", &[1, 2, 3]).unwrap();
    for i in 0..3 {
        let writes = hub.backend(i).writes.borrow();
        assert_eq!(writes.len(), 1);
        assert_eq!(writes[0], ("k".to_string(), vec![1, 2, 3]));
    }
}

#[test]
fn write_requests_copy_key_and_value() {
    let mut hub = MemoryHub::new();
    hub.register_backend(());
    hub.register_backend(());
    let reqs = hub.write_requests(&"key".to_string(), &vec![0, 255]);
    assert_eq!(reqs, vec![("key".to_string(), vec![0, 255]), ("key".to_string(), vec![0, 255])]);
    assert_eq!(hub.read_requests(&"key".to_string()), vec!["key".to_string(), "key".to_string()]);
}

#[test]
fn merge_write_returns_lowest_index_error() {
    let results: Vec<Result<(), &str>> = vec![Ok(()), Err("b1"), Ok(()), Err("b3")];
    assert_eq!(merge_write(results), Err("b1"));
}

#[test]
fn merge_write_all_ok() {
    let results: Vec<Result<(), &str>> = vec![Ok(()), Ok(())];
    assert_eq!(merge_write(results), Ok(()));
}

#[test]
fn merge_write_empty_registry_succeeds() {
    let results: Vec<Result<(), &str>> = vec![];
    assert_eq!(merge_write(results), Ok(()));
}

#[test]
fn read_empty_registry_not_found() {
    let results: Vec<Result<Option<Vec<u8>>, &str>> = vec![];
    assert_eq!(merge_read(results), Ok(None));
    let hub: MemoryHub<MapBackend> = MemoryHub::new();
    assert_eq!(hub_read(&hub, "k"), Ok(None));
}

#[test]
fn read_all_miss_not_found() {
    let results: Vec<Result<Option<Vec<u8>>, &str>> = vec![Ok(None), Ok(None), Ok(None)];
    assert_eq!(merge_read(results), Ok(None));
}

#[test]
fn read_single_holder_wins_after_earlier_misses() {
    let results: Vec<Result<Option<Vec<u8>>, &str>> = vec![Ok(None), Ok(None), Ok(Some(vec![7])), Ok(None)];
    assert_eq!(merge_read(results), Ok(Some(vec![7])));
}

#[test]
fn read_earlier_error_beats_later_hit() {
    let results: Vec<Result<Option<Vec<u8>>, &str>> = vec![Ok(None), Err("io"), Ok(Some(vec![1]))];
    assert_eq!(merge_read(results), Err("io"));
}

#[test]
fn read_earlier_hit_beats_later_error() {
    let results: Vec<Result<Option<Vec<u8>>, &str>> = vec![Ok(Some(vec![1])), Err("io")];
    assert_eq!(merge_read(results), Ok(Some(vec![1])));
}

#[test]
fn read_first_hit_in_registry_order() {
    let results: Vec<Result<Option<Vec<u8>>, &str>> = vec![Ok(None), Ok(Some(vec![2])), Ok(Some(vec![3]))];
    assert_eq!(merge_read(results), Ok(Some(vec![2])));
}

#[test]
fn round_trip_empty_payload() {
    let mut hub = MemoryHub::new();
    hub.register_backend(MapBackend::default());
    hub_write(&hub, "empty", &[]).unwrap();
    assert_eq!(hub_read(&hub, "empty"), Ok(Some(vec![])));
}

#[test]
fn round_trip_binary_payload() {
    let mut hub = MemoryHub::new();
    hub.register_backend(MapBackend::default());
    let payload: Vec<u8> = (0..=255u8).chain([0, 0, 0]).collect();
    hub_write(&hub, "bin", &payload).unwrap();
    assert_eq!(hub_read(&hub, "bin"), Ok(Some(payload)));
}
