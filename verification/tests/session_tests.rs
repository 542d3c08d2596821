use cloudman::entity::{Instance, Tag};
use cloudman::filter::filter_entities;
use cloudman::session::{Mode, ReturnValues};
use cloudman::status::{bottom_bar, BottomBarType};

fn ent(id: &str, name: Option<&str>) -> Instance {
    Instance {
        instance_id: id.to_string(),
        tags: name.map(|n| {
            vec![Tag { key: "Name".to_string(), value: Some(n.to_string()) }]
        }),
        architecture: None,
        vpc_id: None,
        instance_type: None,
        key_name: None,
        state_code: Some(16),
        state_name: Some("running".to_string()),
        public_ip_address: None,
        private_ip_address: None,
    }
}

fn ids(items: &[Instance]) -> Vec<String> {
    items.iter().map(|e| e.instance_id.clone()).collect()
}

fn session_with(entities: Vec<Instance>) -> ReturnValues {
    let mut rv = ReturnValues::new();
    rv.refresh(Ok(entities)).unwrap();
    rv
}

#[test]
fn new_session_is_standard_and_empty() {
    let rv = ReturnValues::new();
    assert_eq!(rv.mode, Mode::Standard);
    assert_eq!(rv.profile, "");
    assert_eq!(rv.search, "");
    assert!(!rv.search_found);
    assert_eq!(rv.filter, "");
    assert!(rv.instances.is_empty());
    assert!(rv.table.items.is_empty());
}

#[test]
fn filter_correctness_on_concrete_set() {
    let full = vec![
        ent("1", Some("web-1")),
        ent("2", Some("db-1")),
        ent("3", Some("web-2")),
        ent("4", None),
    ];
    let kept = filter_entities(&full, "web");
    assert_eq!(ids(&kept), vec!["1", "3"]);
    // The empty term keeps everything, the nameless entity included.
    let all = filter_entities(&full, "");
    assert_eq!(ids(&all), vec!["1", "2", "3", "4"]);
    // No name, no match, for any non-empty term.
    let none = filter_entities(&full, "zzz");
    assert!(none.is_empty());
}

#[test]
fn filter_keeps_matching_selection_and_drops_vanished_one() {
    let mut rv = session_with(vec![
        ent("1", Some("web-1")),
        ent("2", Some("db-1")),
        ent("3", Some("web-2")),
    ]);
    rv.table.select_by_id("3");
    assert!(rv.enter_filter());
    rv.update_buffer("web");
    // web-2 still matches: it stays selected.
    assert_eq!(rv.table.selected, Some(1));
    assert_eq!(rv.table.memory.as_deref(), Some("3"));
    rv.update_buffer("db");
    // web-2 no longer matches: the selection becomes none.
    assert!(rv.table.selected.is_none());
}

#[test]
fn search_selects_first_match_and_search_next_wraps_around() {
    let mut rv = session_with(vec![
        ent("a", Some("web-1")),
        ent("b", Some("db-1")),
        ent("c", Some("web-2")),
    ]);
    assert!(rv.enter_search());
    rv.update_buffer("web");
    assert!(rv.search_found);
    assert_eq!(rv.table.selected, Some(0));

    // Find-next skips the non-matching row and lands on web-2 …
    assert!(rv.search_next("web"));
    assert_eq!(rv.table.selected, Some(2));
    // … and a further find-next wraps back to web-1.
    assert!(rv.search_next("web"));
    assert_eq!(rv.table.selected, Some(0));
}

#[test]
fn search_next_reselects_sole_matching_current_row() {
    let mut rv = session_with(vec![ent("a", Some("web-1")), ent("b", Some("db-1"))]);
    assert!(rv.enter_search());
    rv.update_buffer("web");
    assert_eq!(rv.table.selected, Some(0));
    // The only match is the current row: inclusive wraparound re-selects it.
    assert!(rv.search_next("web"));
    assert_eq!(rv.table.selected, Some(0));
}

#[test]
fn search_without_match_leaves_selection_alone() {
    let mut rv = session_with(vec![ent("a", Some("web-1"))]);
    rv.table.select_index(0);
    assert!(rv.enter_search());
    rv.update_buffer("zzz");
    assert!(!rv.search_found);
    assert_eq!(rv.table.selected, Some(0));
    assert!(!rv.search_next("zzz"));
    assert_eq!(rv.table.selected, Some(0));
}

#[test]
fn empty_search_term_selects_first_visible_row() {
    let mut rv = session_with(vec![ent("a", Some("web-1")), ent("b", None)]);
    assert!(rv.enter_search());
    rv.update_buffer("");
    assert!(rv.search_found);
    assert_eq!(rv.table.selected, Some(0));
}

#[test]
fn cancel_search_restores_selection_saved_on_entry() {
    let mut rv = session_with(vec![ent("a", Some("web-1")), ent("b", Some("db-1"))]);
    rv.table.select_by_id("b");
    assert!(rv.enter_search());
    rv.update_buffer("web");
    assert_eq!(rv.table.selected, Some(0));
    rv.cancel();
    assert_eq!(rv.mode, Mode::Standard);
    assert_eq!(rv.table.selected, Some(1));
    assert_eq!(rv.table.memory.as_deref(), Some("b"));
}

#[test]
fn only_one_of_search_and_filter_is_reachable() {
    let mut rv = session_with(vec![ent("a", Some("web-1"))]);
    assert!(rv.enter_search());
    assert!(!rv.enter_filter());
    assert_eq!(rv.mode, Mode::Searching);
    rv.close();
    assert!(rv.enter_filter());
    assert!(!rv.enter_search());
    assert_eq!(rv.mode, Mode::Filtering);
}

#[test]
fn filter_buffer_is_sticky_and_search_buffer_is_not() {
    let mut rv = session_with(vec![ent("a", Some("web-1"))]);
    assert!(rv.enter_filter());
    rv.update_buffer("web");
    rv.close();
    assert_eq!(rv.filter, "web");
    assert!(rv.enter_search());
    rv.update_buffer("web");
    rv.close();
    assert!(rv.enter_search());
    assert_eq!(rv.search, "");
}

#[test]
fn closed_filter_persists_its_visible_set() {
    let mut rv = session_with(vec![ent("1", Some("web-1")), ent("2", Some("db-1"))]);
    assert!(rv.enter_filter());
    rv.update_buffer("web");
    rv.close();
    assert_eq!(rv.mode, Mode::Standard);
    assert_eq!(ids(&rv.table.items), vec!["1"]);
    assert_eq!(rv.filter, "web");
}

#[test]
fn refresh_failure_leaves_everything_untouched() {
    let mut rv = session_with(vec![ent("1", Some("web-1")), ent("2", Some("db-1"))]);
    rv.table.select_by_id("2");
    let before_items = ids(&rv.table.items);
    let r = rv.refresh(Err("connection refused".to_string()));
    assert_eq!(r, Err("connection refused".to_string()));
    assert_eq!(ids(&rv.table.items), before_items);
    assert_eq!(rv.table.selected, Some(1));
    assert_eq!(ids(&rv.instances), vec!["1", "2"]);
}

#[test]
fn refresh_reapplies_active_filter_and_preserves_selection() {
    let mut rv = session_with(vec![ent("1", Some("web-1")), ent("2", Some("db-1"))]);
    assert!(rv.enter_filter());
    rv.update_buffer("web");
    rv.table.select_by_id("1");
    rv.refresh(Ok(vec![
        ent("0", Some("db-2")),
        ent("1", Some("web-1")),
        ent("3", Some("web-3")),
    ]))
    .unwrap();
    assert_eq!(ids(&rv.table.items), vec!["1", "3"]);
    assert_eq!(rv.table.selected, Some(0));
    assert_eq!(ids(&rv.instances), vec!["0", "1", "3"]);
}

#[test]
fn update_buffer_recomputes_idempotently() {
    let full = vec![
        ent("1", Some("web-1")),
        ent("2", Some("west")),
        ent("3", Some("db-1")),
    ];
    let mut once = session_with(full.clone());
    assert!(once.enter_filter());
    once.update_buffer("w");

    let mut thrice = session_with(full);
    assert!(thrice.enter_filter());
    thrice.update_buffer("w");
    thrice.update_buffer("we");
    thrice.update_buffer("w");

    assert_eq!(ids(&once.table.items), ids(&thrice.table.items));
    assert_eq!(ids(&once.table.items), vec!["1", "2"]);
}

#[test]
fn filter_scenario_with_cancel_restoring_set_and_selection() {
    let mut rv = session_with(vec![
        ent("1", Some("web-1")),
        ent("2", Some("web-2")),
        ent("3", Some("db-1")),
    ]);
    assert!(rv.enter_filter());
    rv.update_buffer("web");
    assert_eq!(ids(&rv.table.items), vec!["1", "2"]);
    assert!(rv.table.select_by_id("2"));
    rv.update_buffer("zzz");
    assert!(rv.table.items.is_empty());
    assert!(rv.table.selected.is_none());
    rv.cancel();
    assert_eq!(rv.mode, Mode::Standard);
    assert_eq!(ids(&rv.table.items), vec!["1", "2", "3"]);
    assert_eq!(rv.table.selected, Some(1));
    assert_eq!(rv.table.memory.as_deref(), Some("2"));
    assert_eq!(rv.filter, "");
}

#[test]
fn region_change_applies_fetch_or_nothing() {
    let mut rv = session_with(vec![ent("1", Some("web-1"))]);
    rv.region = "left".to_string();
    assert!(rv.region_change_needed("right"));
    assert!(!rv.region_change_needed("left"));

    let r = rv.change_region("right", Err("no route".to_string()));
    assert_eq!(r, Err("no route".to_string()));
    assert_eq!(rv.region, "left");

    rv.change_region("right", Ok(vec![ent("9", Some("web-9"))])).unwrap();
    assert_eq!(rv.region, "right");
    assert_eq!(ids(&rv.table.items), vec!["9"]);
}

#[test]
fn bottom_bar_projects_each_mode() {
    let mut rv = session_with(vec![ent("1", Some("web-1"))]);
    rv.profile = "default".to_string();
    rv.region = "somewhere".to_string();

    let bar = bottom_bar(&rv);
    assert_eq!(bar.bar_type, BottomBarType::Standard);
    assert_eq!(bar.content, "");
    assert!(bar.valid);
    assert_eq!(bar.region, "somewhere");
    assert_eq!(bar.profile, "default");

    assert!(rv.enter_search());
    rv.update_buffer("nope");
    let bar = bottom_bar(&rv);
    assert_eq!(bar.bar_type, BottomBarType::Search);
    assert_eq!(bar.content, "nope");
    assert!(!bar.valid);
    rv.close();

    assert!(rv.enter_filter());
    rv.update_buffer("web");
    let bar = bottom_bar(&rv);
    assert_eq!(bar.bar_type, BottomBarType::Filter);
    assert_eq!(bar.content, "web");
    assert!(bar.valid);
}
