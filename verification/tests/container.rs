use std::collections::HashMap;

use edisp::container::Container;

#[test]
fn container_for_vec() {
    let left: Vec<()> = Vec::create_new();
    assert_eq!(left, Vec::new());

    let mut left = Vec::new();
    left.add_element(42);
    assert_eq!(left, vec![42]);
}

#[test]
fn container_for_hashmap() {
    let left: HashMap<(), ()> = HashMap::create_new();
    assert_eq!(left, HashMap::new());

    let mut left = HashMap::new();
    left.add_element(("horse", "manatee"));

    let right = {
        let mut tmp = HashMap::new();
        tmp.insert("horse", "manatee");
        tmp
    };

    assert_eq!(left, right);
}

#[test]
fn container_for_hashmap_upserts() {
    let mut map: HashMap<&str, i32> = HashMap::create_new();
    map.add_element(("a", 1));
    map.add_element(("b", 2));
    map.add_element(("a", 3));

    assert_eq!(map.len(), 2);
    assert_eq!(map["a"], 3);
    assert_eq!(map["b"], 2);
}
