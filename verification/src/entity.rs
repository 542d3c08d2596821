//! The entity record: one displayed row, with its tags and named fields.
//!
//! Entities are immutable value records. Identity is the `instance_id`
//! field: the engine re-locates a record across refreshes by this id, never
//! by structural equality. The display name is not a field of its own but
//! the value of the tag whose key is `name`, compared case-insensitively.
//!
//! Every contract speaks of the mathematical view of a record: [`TagV`] and
//! [`InstanceV`], in which each string is a character sequence.

use vstd::prelude::*;
use crate::text::{seq_eq_ci, seq_contains, seq_contains_ci, str_eq_ci, str_contains,
    str_contains_ci};

verus! {

/// A key/value tag attached to an entity. The value is optional: a tag may
/// be present with no value.
pub struct Tag {
    pub key: String,
    pub value: Option<String>,
}

/// Mathematical view of a [`Tag`].
pub struct TagV {
    pub key: Seq<char>,
    pub value: Option<Seq<char>>,
}

/// One entity record. Optional fields may be absent; every reader of them
/// substitutes the empty string for display.
pub struct Instance {
    /// Canonical identity; required.
    pub instance_id: String,
    pub tags: Option<Vec<Tag>>,
    pub architecture: Option<String>,
    pub vpc_id: Option<String>,
    pub instance_type: Option<String>,
    pub key_name: Option<String>,
    /// Lifecycle state code; `16` is the running state.
    pub state_code: Option<i64>,
    pub state_name: Option<String>,
    pub public_ip_address: Option<String>,
    pub private_ip_address: Option<String>,
}

/// Mathematical view of an [`Instance`].
pub struct InstanceV {
    pub instance_id: Seq<char>,
    pub tags: Option<Seq<TagV>>,
    pub architecture: Option<Seq<char>>,
    pub vpc_id: Option<Seq<char>>,
    pub instance_type: Option<Seq<char>>,
    pub key_name: Option<Seq<char>>,
    pub state_code: Option<i64>,
    pub state_name: Option<Seq<char>>,
    pub public_ip_address: Option<Seq<char>>,
    pub private_ip_address: Option<Seq<char>>,
}

/// View of an optional string.
pub open spec fn opt_str_view(o: Option<String>) -> Option<Seq<char>> {
    match o {
        Some(s) => Some(s@),
        None => None,
    }
}

/// Views of a sequence of tags, element for element.
pub open spec fn tag_views(ts: Seq<Tag>) -> Seq<TagV> {
    ts.map_values(|t: Tag| t@)
}

/// View of an optional tag vector.
pub open spec fn tags_view(o: Option<Vec<Tag>>) -> Option<Seq<TagV>> {
    match o {
        Some(ts) => Some(tag_views(ts@)),
        None => None,
    }
}

impl View for Tag {
    type V = TagV;

    open spec fn view(&self) -> TagV {
        TagV { key: self.key@, value: opt_str_view(self.value) }
    }
}

impl View for Instance {
    type V = InstanceV;

    open spec fn view(&self) -> InstanceV {
        InstanceV {
            instance_id: self.instance_id@,
            tags: tags_view(self.tags),
            architecture: opt_str_view(self.architecture),
            vpc_id: opt_str_view(self.vpc_id),
            instance_type: opt_str_view(self.instance_type),
            key_name: opt_str_view(self.key_name),
            state_code: self.state_code,
            state_name: opt_str_view(self.state_name),
            public_ip_address: opt_str_view(self.public_ip_address),
            private_ip_address: opt_str_view(self.private_ip_address),
        }
    }
}

/// Views of a sequence of entities, element for element.
pub open spec fn views(items: Seq<Instance>) -> Seq<InstanceV> {
    items.map_values(|e: Instance| e@)
}

impl Clone for Tag {
    fn clone(&self) -> (r: Self)
        ensures
            r@ == self@,
    {
        Tag { key: self.key.clone(), value: clone_opt_string(&self.value) }
    }
}

impl Clone for Instance {
    fn clone(&self) -> (r: Self)
        ensures
            r@ == self@,
    {
        Instance {
            instance_id: self.instance_id.clone(),
            tags: clone_opt_tags(&self.tags),
            architecture: clone_opt_string(&self.architecture),
            vpc_id: clone_opt_string(&self.vpc_id),
            instance_type: clone_opt_string(&self.instance_type),
            key_name: clone_opt_string(&self.key_name),
            state_code: self.state_code,
            state_name: clone_opt_string(&self.state_name),
            public_ip_address: clone_opt_string(&self.public_ip_address),
            private_ip_address: clone_opt_string(&self.private_ip_address),
        }
    }
}

/// Copy of an optional string, equal to the original.
pub fn clone_opt_string(o: &Option<String>) -> (r: Option<String>)
    ensures
        r == *o,
{
    match o {
        Some(s) => Some(s.clone()),
        None => None,
    }
}

fn clone_opt_tags(o: &Option<Vec<Tag>>) -> (r: Option<Vec<Tag>>)
    ensures
        tags_view(r) == tags_view(*o),
{
    match o {
        Some(ts) => {
            let mut out: Vec<Tag> = Vec::new();
            let mut i: usize = 0;
            while i < ts.len()
                invariant
                    i <= ts.len(),
                    out@.len() == i,
                    forall|k: int| 0 <= k < i ==> out@[k]@ == ts@[k]@,
                decreases ts.len() - i,
            {
                out.push(ts[i].clone());
                i += 1;
            }
            proof {
                assert(tag_views(out@) =~= tag_views(ts@));
            }
            Some(out)
        },
        None => None,
    }
}

/// The tag's key equals `key` up to ASCII case.
pub open spec fn tag_key_matches(t: TagV, key: Seq<char>) -> bool {
    seq_eq_ci(t.key, key)
}

/// Value of the first tag at or after position `i` whose key matches `key`.
pub open spec fn tag_lookup_from(tags: Seq<TagV>, key: Seq<char>, i: int) -> Option<Seq<char>>
    decreases tags.len() - i,
{
    if i < 0 || i >= tags.len() {
        None
    } else if tag_key_matches(tags[i], key) {
        tags[i].value
    } else {
        tag_lookup_from(tags, key, i + 1)
    }
}

/// Value of the first tag whose key matches `key`, if any such tag exists
/// and carries a value.
pub open spec fn find_tag_spec(key: Seq<char>, tags: Option<Seq<TagV>>) -> Option<Seq<char>> {
    match tags {
        Some(ts) => tag_lookup_from(ts, key, 0),
        None => None,
    }
}

/// Looks up a tag by key, case-insensitively; the first match wins. An
/// entity with no tags, no matching tag, or a matching tag without a value
/// yields `None`.
pub fn find_tag(key: &str, tags: &Option<Vec<Tag>>) -> (r: Option<String>)
    ensures
        opt_str_view(r) == find_tag_spec(key@, tags_view(*tags)),
{
    match tags {
        Some(ts) => {
            let ghost vts: Seq<TagV> = tag_views(ts@);
            let mut i: usize = 0;
            while i < ts.len()
                invariant
                    i <= ts.len(),
                    vts == tag_views(ts@),
                    tags_view(*tags) == Some(vts),
                    tag_lookup_from(vts, key@, 0) == tag_lookup_from(vts, key@, i as int),
                decreases ts.len() - i,
            {
                if str_eq_ci(ts[i].key.as_str(), key) {
                    proof {
                        assert(tags_view(*tags) == Some(vts));
                        assert(find_tag_spec(key@, tags_view(*tags)) == tag_lookup_from(
                            vts,
                            key@,
                            0,
                        ));
                        assert(vts[i as int] == ts@[i as int]@);
                        assert(tag_key_matches(vts[i as int], key@));
                        assert(tag_lookup_from(vts, key@, i as int) == vts[i as int].value);
                        assert(vts[i as int].value == opt_str_view(ts@[i as int].value));
                    }
                    return clone_opt_string(&ts[i].value);
                }
                i += 1;
            }
            None
        },
        None => None,
    }
}

/// The display name of an entity: the value of its `name` tag.
pub open spec fn name_of(e: InstanceV) -> Option<Seq<char>> {
    find_tag_spec("name"@, e.tags)
}

/// The search engine's match policy: the empty term matches every entity;
/// a non-empty term matches an entity whose name contains it up to ASCII
/// case. An entity without a name never matches a non-empty term.
pub open spec fn search_matches(e: InstanceV, term: Seq<char>) -> bool {
    term.len() == 0 || (name_of(e) matches Some(n) && seq_contains_ci(n, term))
}

/// The filter engine's match policy: as [`search_matches`], but the
/// substring comparison is case-sensitive.
pub open spec fn filter_matches(e: InstanceV, term: Seq<char>) -> bool {
    term.len() == 0 || (name_of(e) matches Some(n) && seq_contains(n, term))
}

/// Whether the search term matches this entity's name.
pub fn entity_search_matches(e: &Instance, term: &str) -> (r: bool)
    ensures
        r == search_matches(e@, term@),
{
    if term.unicode_len() == 0 {
        return true;
    }
    match find_tag("name", &e.tags) {
        Some(n) => str_contains_ci(n.as_str(), term),
        None => false,
    }
}

/// Whether the filter term matches this entity's name.
pub fn entity_filter_matches(e: &Instance, term: &str) -> (r: bool)
    ensures
        r == filter_matches(e@, term@),
{
    if term.unicode_len() == 0 {
        return true;
    }
    match find_tag("name", &e.tags) {
        Some(n) => str_contains(n.as_str(), term),
        None => false,
    }
}

/// Copy of an entity vector, element for element.
pub fn clone_entities(items: &Vec<Instance>) -> (r: Vec<Instance>)
    ensures
        views(r@) == views(items@),
{
    let mut out: Vec<Instance> = Vec::new();
    let mut i: usize = 0;
    while i < items.len()
        invariant
            i <= items.len(),
            out@.len() == i,
            forall|k: int| 0 <= k < i ==> out@[k]@ == items@[k]@,
        decreases items.len() - i,
    {
        out.push(items[i].clone());
        i += 1;
    }
    proof {
        assert(views(out@) =~= views(items@));
    }
    out
}

} // verus!
