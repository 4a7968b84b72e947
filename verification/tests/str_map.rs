use doca_bot::str_map::StrMap;
use doca_bot::structs::api::{clone_handler, ApiRequest, BotHandler};

fn key(s: &str) -> String {
    s.to_string()
}

#[test]
fn map_keeps_insertion_order_and_replaces_in_place() {
    let mut map: StrMap<u32> = StrMap::new();
    assert!(map.is_empty());
    assert_eq!(map.insert(key("b"), 1), None);
    assert_eq!(map.insert(key("a"), 2), None);
    assert_eq!(map.insert(key("b"), 3), Some(1));
    assert_eq!(map.len(), 2);
    assert_eq!(map.key_at(0), "b");
    assert_eq!(*map.value_at(0), 3);
    assert_eq!(map.key_at(1), "a");
    assert_eq!(*map.value_at(1), 2);
    assert_eq!(map.position(&key("a")), Some(1));
    assert_eq!(map.position(&key("z")), None);
    assert!(map.contains_key(&key("a")));
    assert!(!map.contains_key(&key("A")));
    assert_eq!(map.get(&key("b")), Some(&3));
    assert_eq!(map.get(&key("")), None);
}

#[test]
fn map_removes_one_key() {
    let mut map: StrMap<u32> = StrMap::new();
    map.insert(key("a"), 1);
    map.insert(key("b"), 2);
    map.insert(key("c"), 3);
    assert_eq!(map.remove(&key("b")), Some(2));
    assert_eq!(map.remove(&key("b")), None);
    assert_eq!(map.len(), 2);
    assert_eq!(map.key_at(0), "a");
    assert_eq!(map.key_at(1), "c");
    assert_eq!(map.get(&key("c")), Some(&3));
}

#[test]
fn extend_prefers_the_values_of_the_other_map() {
    let mut left: StrMap<u32> = StrMap::new();
    left.insert(key("a"), 1);
    left.insert(key("b"), 2);
    let mut right: StrMap<u32> = StrMap::new();
    right.insert(key("b"), 20);
    right.insert(key("c"), 30);
    left.extend(right);
    assert_eq!(left.len(), 3);
    assert_eq!(left.get(&key("a")), Some(&1));
    assert_eq!(left.get(&key("b")), Some(&20));
    assert_eq!(left.get(&key("c")), Some(&30));
    assert_eq!(left.key_at(0), "a");
    assert_eq!(left.key_at(1), "b");
}

#[test]
fn handler_copy_is_equal_and_independent() {
    let mut handler: BotHandler = StrMap::new();
    let call = ApiRequest {
        api_url: key("http://hook"),
        object: key("o"),
        command: key("c"),
        data: key("{}"),
    };
    handler.insert(key("yes"), call.clone());
    handler.insert(key("no"), ApiRequest::default());
    let mut copy = clone_handler(&handler);
    assert_eq!(copy.len(), 2);
    assert_eq!(copy.key_at(0), "yes");
    assert_eq!(copy.key_at(1), "no");
    assert_eq!(copy.get(&key("yes")), Some(&call));
    copy.remove(&key("yes"));
    assert_eq!(handler.get(&key("yes")), Some(&call));
}
