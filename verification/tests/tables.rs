use websocket::table::Table;

fn key(name: &str) -> String {
    name.to_string()
}

#[test]
fn values_stand_under_their_keys() {
    let mut table: Table<String, u32> = Table::new();
    assert_eq!(table.len(), 0);
    table.insert(key("a"), 1);
    table.insert(key("b"), 2);
    assert_eq!(table.len(), 2);
    assert_eq!(table.get(&key("a")), Some(&1));
    assert_eq!(table.get(&key("b")), Some(&2));
    assert_eq!(table.get(&key("c")), None);
}

#[test]
fn second_value_under_a_key_replaces_the_first() {
    let mut table: Table<String, u32> = Table::new();
    table.insert(key("a"), 1);
    table.insert(key("a"), 2);
    assert_eq!(table.len(), 1);
    assert_eq!(table.get(&key("a")), Some(&2));
}

#[test]
fn removal_gives_the_value_back() {
    let mut table: Table<String, u32> = Table::new();
    table.insert(key("a"), 1);
    table.insert(key("b"), 2);
    assert_eq!(table.remove(&key("a")), Some(1));
    assert_eq!(table.remove(&key("a")), None);
    assert_eq!(table.get(&key("b")), Some(&2));
    assert_eq!(table.len(), 1);
}

#[test]
fn entries_are_listed() {
    let mut table: Table<String, u32> = Table::new();
    table.insert(key("a"), 1);
    table.insert(key("b"), 2);
    let mut listed: Vec<(String, u32)> = Vec::new();
    for i in 0..table.len() {
        listed.push((table.key_at(i).clone(), *table.value_at(i)));
    }
    listed.sort();
    assert_eq!(listed, vec![(key("a"), 1), (key("b"), 2)]);
}

#[test]
fn duplicate_holds_the_same() {
    let mut table: Table<String, u32> = Table::new();
    table.insert(key("a"), 1);
    let mut copy = table.duplicate();
    copy.insert(key("b"), 2);
    assert_eq!(copy.get(&key("a")), Some(&1));
    assert_eq!(table.len(), 1);
}
