use cloudman::columns::BasicColumn;
use cloudman::entity::Instance;
use cloudman::sort::sort_by_column;

fn ent(id: &str, arch: Option<&str>) -> Instance {
    Instance {
        instance_id: id.to_string(),
        tags: None,
        architecture: arch.map(|a| a.to_string()),
        vpc_id: None,
        instance_type: None,
        key_name: None,
        state_code: None,
        state_name: None,
        public_ip_address: None,
        private_ip_address: None,
    }
}

fn ids(items: &[Instance]) -> Vec<String> {
    items.iter().map(|e| e.instance_id.clone()).collect()
}

#[test]
fn sorts_by_canonical_id() {
    let items = vec![ent("i-c", None), ent("i-a", None), ent("i-b", None)];
    let sorted = sort_by_column(&items, BasicColumn::InstanceID);
    assert_eq!(ids(&sorted), vec!["i-a", "i-b", "i-c"]);
    // The name column orders by the canonical id as well.
    let by_name = sort_by_column(&items, BasicColumn::Name);
    assert_eq!(ids(&by_name), vec!["i-a", "i-b", "i-c"]);
}

#[test]
fn sorts_by_architecture_with_absent_first() {
    let items = vec![
        ent("1", Some("x86_64")),
        ent("2", None),
        ent("3", Some("arm64")),
    ];
    let sorted = sort_by_column(&items, BasicColumn::Type);
    assert_eq!(ids(&sorted), vec!["2", "3", "1"]);
}

#[test]
fn equal_keys_keep_their_original_order() {
    let items = vec![
        ent("z-late", Some("arm64")),
        ent("a-early", Some("arm64")),
        ent("m-mid", Some("arm64")),
    ];
    // Every key is equal under the architecture rule: a stable sort keeps
    // the input order byte for byte.
    let sorted = sort_by_column(&items, BasicColumn::State);
    assert_eq!(ids(&sorted), vec!["z-late", "a-early", "m-mid"]);
}

#[test]
fn sorting_an_empty_set_yields_an_empty_set() {
    let sorted = sort_by_column(&Vec::new(), BasicColumn::InstanceID);
    assert!(sorted.is_empty());
}
