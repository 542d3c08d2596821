use cloudman::entity::{Instance, Tag};
use cloudman::table::Table;

fn ent(id: &str, name: Option<&str>) -> Instance {
    Instance {
        instance_id: id.to_string(),
        tags: name.map(|n| {
            vec![Tag { key: "Name".to_string(), value: Some(n.to_string()) }]
        }),
        architecture: None,
        vpc_id: None,
        instance_type: None,
        key_name: None,
        state_code: Some(16),
        state_name: Some("running".to_string()),
        public_ip_address: None,
        private_ip_address: None,
    }
}

#[test]
fn new_table_is_empty_and_unselected() {
    let t = Table::new();
    assert_eq!(t.items.len(), 0);
    assert!(t.selected.is_none());
    assert!(t.memory.is_none());
}

#[test]
fn select_by_id_finds_and_reports_absence() {
    let mut t = Table::new();
    t.replace(vec![ent("1", Some("a")), ent("2", Some("b"))]);
    assert!(t.select_by_id("2"));
    assert_eq!(t.selected, Some(1));
    assert_eq!(t.memory.as_deref(), Some("2"));
    assert!(!t.select_by_id("9"));
    assert_eq!(t.selected, Some(1));
}

#[test]
fn select_index_is_bounds_checked() {
    let mut t = Table::new();
    t.replace(vec![ent("1", Some("a"))]);
    t.select_index(0);
    assert_eq!(t.selected, Some(0));
    t.select_index(5);
    assert_eq!(t.selected, Some(0));
}

#[test]
fn replace_preserves_selection_by_identity_not_position() {
    let mut t = Table::new();
    t.replace(vec![ent("1", Some("a")), ent("2", Some("b")), ent("3", Some("c"))]);
    t.select_index(1);
    t.replace(vec![ent("3", Some("c")), ent("2", Some("b"))]);
    assert_eq!(t.selected, Some(1));
    assert_eq!(t.memory.as_deref(), Some("2"));
}

#[test]
fn replace_clears_cursor_but_remembers_identity() {
    let mut t = Table::new();
    t.replace(vec![ent("1", Some("a")), ent("2", Some("b"))]);
    t.select_index(1);
    t.replace(vec![ent("1", Some("a"))]);
    assert!(t.selected.is_none());
    assert_eq!(t.memory.as_deref(), Some("2"));
    // A later replacement carrying the id restores the selection.
    t.replace(vec![ent("1", Some("a")), ent("2", Some("b"))]);
    assert_eq!(t.selected, Some(1));
}

#[test]
fn selected_entity_returns_the_selected_record() {
    let mut t = Table::new();
    t.replace(vec![ent("1", Some("a")), ent("2", Some("b"))]);
    assert!(t.selected_entity().is_none());
    t.select_index(0);
    let e = t.selected_entity().unwrap();
    assert_eq!(e.instance_id, "1");
}
