//! The status bar projector: a pure derivation of the bottom line from the
//! current session state. It owns no state of its own.
//!
//! Standard mode shows only the connection context; search mode shows the
//! search buffer with a validity indicator reflecting the last match;
//! filter mode shows the filter buffer with no indicator — a filter is
//! never invalid, only possibly empty-producing.

use vstd::prelude::*;
use crate::session::{Mode, ReturnValues};

verus! {

/// Which of the three line formats the bottom bar shows.
#[derive(Copy, Clone, PartialEq, Eq, Debug, Structural)]
pub enum BottomBarType {
    Standard,
    Search,
    Filter,
}

/// One rendered bottom line: its format, the buffer it shows, whether that
/// buffer is marked valid, and the connection context.
pub struct BottomBar {
    pub bar_type: BottomBarType,
    pub content: String,
    pub valid: bool,
    pub region: String,
    pub profile: String,
}

/// The line format that a mode projects to.
pub open spec fn bar_type_of(m: Mode) -> BottomBarType {
    match m {
        Mode::Standard => BottomBarType::Standard,
        Mode::Searching => BottomBarType::Search,
        Mode::Filtering => BottomBarType::Filter,
    }
}

/// The buffer text that a session's bottom line shows: the search buffer
/// in search mode, the filter buffer in filter mode, nothing otherwise.
pub open spec fn bar_content_of(rv: ReturnValues) -> Seq<char> {
    match rv.mode {
        Mode::Standard => Seq::<char>::empty(),
        Mode::Searching => rv.search@,
        Mode::Filtering => rv.filter@,
    }
}

/// The validity flag of a session's bottom line: in search mode, whether
/// the last search matched; otherwise always valid.
pub open spec fn bar_valid_of(rv: ReturnValues) -> bool {
    match rv.mode {
        Mode::Searching => rv.search_found,
        _ => true,
    }
}

/// Derives the bottom status line from the session alone.
pub fn bottom_bar(rv: &ReturnValues) -> (r: BottomBar)
    ensures
        r.bar_type == bar_type_of(rv.mode),
        r.content@ == bar_content_of(*rv),
        r.valid == bar_valid_of(*rv),
        r.region@ == rv.region@,
        r.profile@ == rv.profile@,
{
    let (content, valid) = match rv.mode {
        Mode::Standard => (String::new(), true),
        Mode::Searching => (rv.search.clone(), rv.search_found),
        Mode::Filtering => (rv.filter.clone(), true),
    };
    BottomBar {
        bar_type: match rv.mode {
            Mode::Standard => BottomBarType::Standard,
            Mode::Searching => BottomBarType::Search,
            Mode::Filtering => BottomBarType::Filter,
        },
        content,
        valid,
        region: rv.region.clone(),
        profile: rv.profile.clone(),
    }
}

} // verus!
