use registry_conformance::NameMap;
use std::collections::BTreeMap;

fn listed(map: &NameMap<u32>) -> Vec<(String, u32)> {
    (0..map.len()).map(|i| (map.name_at(i).to_owned(), *map.value_at(i))).collect()
}

#[test]
fn entries_ascend_and_names_are_unique() {
    let mut map = NameMap::new();
    assert_eq!(map.len(), 0);
    map.insert("main.rs".to_owned(), 1);
    map.insert("lib.rs".to_owned(), 2);
    map.insert("main.rs".to_owned(), 3);
    assert_eq!(listed(&map), [("lib.rs".to_owned(), 2), ("main.rs".to_owned(), 3)]);
    assert_eq!(map.get("main.rs"), Some(&3));
    assert_eq!(map.get("build.rs"), None);
    assert_eq!(map.take("lib.rs"), Some(2));
    assert_eq!(map.take("lib.rs"), None);
    assert_eq!(listed(&map), [("main.rs".to_owned(), 3)]);
}

#[test]
fn behaves_like_an_ordered_map() {
    let mut map = NameMap::new();
    let mut model = BTreeMap::new();
    let mut state: u32 = 7;
    for round in 0..2000u32 {
        state = state.wrapping_mul(1664525).wrapping_add(1013904223);
        let name = match (state >> 16) % 4 {
            0 => format!("{}", (state >> 24) % 13),
            1 => format!("-{}", (state >> 24) % 7),
            2 => "\u{10000}".repeat(((state >> 24) % 3) as usize),
            _ => format!("\u{ffff}{}", (state >> 24) % 5),
        };
        if (state >> 8) % 3 == 0 {
            assert_eq!(map.take(&name), model.remove(&name));
        } else {
            map.insert(name.clone(), round);
            model.insert(name, round);
        }
        let expected: Vec<(String, u32)> = model.iter().map(|(k, v)| (k.clone(), *v)).collect();
        assert_eq!(listed(&map), expected);
    }
}
