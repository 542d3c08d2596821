use cloudman::entity::{entity_filter_matches, entity_search_matches, find_tag, Instance, Tag};
use cloudman::text::{str_contains, str_contains_ci, str_eq, str_eq_ci};

fn ent(id: &str, name: Option<&str>) -> Instance {
    Instance {
        instance_id: id.to_string(),
        tags: name.map(|n| {
            vec![Tag { key: "Name".to_string(), value: Some(n.to_string()) }]
        }),
        architecture: None,
        vpc_id: None,
        instance_type: None,
        key_name: None,
        state_code: Some(16),
        state_name: Some("running".to_string()),
        public_ip_address: None,
        private_ip_address: None,
    }
}

#[test]
fn contains_is_case_sensitive() {
    assert!(str_contains("web-1", "web"));
    assert!(str_contains("web-1", ""));
    assert!(!str_contains("web-1", "Web"));
    assert!(!str_contains("web", "web-1"));
    assert!(str_contains("", ""));
    assert!(!str_contains("", "a"));
}

#[test]
fn contains_ci_folds_ascii_case() {
    assert!(str_contains_ci("Web-1", "wEB"));
    assert!(str_contains_ci("DB-PRIMARY", "primary"));
    assert!(!str_contains_ci("db-1", "web"));
    assert!(str_contains_ci("anything", ""));
}

#[test]
fn string_equality_helpers() {
    assert!(str_eq("abc", "abc"));
    assert!(!str_eq("abc", "abd"));
    assert!(!str_eq("abc", "ab"));
    assert!(str_eq_ci("NaMe", "name"));
    assert!(!str_eq_ci("name", "names"));
}

#[test]
fn find_tag_is_case_insensitive_on_keys() {
    let tags = Some(vec![
        Tag { key: "Name".to_string(), value: Some("web-1".to_string()) },
        Tag { key: "env".to_string(), value: Some("prod".to_string()) },
    ]);
    assert_eq!(find_tag("name", &tags), Some("web-1".to_string()));
    assert_eq!(find_tag("NAME", &tags), Some("web-1".to_string()));
    assert_eq!(find_tag("Env", &tags), Some("prod".to_string()));
    assert_eq!(find_tag("owner", &tags), None);
    assert_eq!(find_tag("name", &None), None);
}

#[test]
fn find_tag_first_match_wins_and_valueless_tag_yields_none() {
    let tags = Some(vec![
        Tag { key: "name".to_string(), value: None },
        Tag { key: "NAME".to_string(), value: Some("late".to_string()) },
    ]);
    assert_eq!(find_tag("name", &tags), None);
}

#[test]
fn match_policies_on_entities() {
    let web = ent("i-1", Some("Web-1"));
    let anon = ent("i-2", None);

    // The search policy is case-insensitive.
    assert!(entity_search_matches(&web, "web"));
    // The filter policy is case-sensitive.
    assert!(!entity_filter_matches(&web, "web"));
    assert!(entity_filter_matches(&web, "Web"));

    // The empty term matches everything; a nameless entity matches nothing
    // else.
    assert!(entity_search_matches(&anon, ""));
    assert!(entity_filter_matches(&anon, ""));
    assert!(!entity_search_matches(&anon, "w"));
    assert!(!entity_filter_matches(&anon, "w"));
}
