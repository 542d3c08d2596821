//! The session state and its interaction-mode state machine.
//!
//! A session is in exactly one of three modes: standard, search, or filter.
//! Search and filter each carry an ephemeral text buffer; the filter buffer
//! is sticky across re-entry, the search buffer starts empty. Updating a
//! buffer re-runs its engine from scratch against the authoritative set —
//! an idempotent re-derivation, never an incremental patch — so repeated
//! updates cannot drift. Cancelling discards the buffer's effects;
//! closing keeps them as the new baseline.
//!
//! The session invariant ties the table to the full fetched set: the
//! visible set always equals the full set filtered by the active filter
//! term (the empty term keeps everything).

use vstd::prelude::*;
use crate::entity::{Instance, views, clone_entities, clone_opt_string};
use crate::filter::{filter_views, filter_entities, lemma_filter_empty_term};
use crate::search::{first_match, search, search_next};
use crate::table::{Table, cursor_is, reselected_cursor};
use crate::text::str_eq;

verus! {

/// The interaction mode; exactly one is active at a time.
#[derive(Copy, Clone, PartialEq, Eq, Debug, Structural)]
pub enum Mode {
    Standard,
    Searching,
    Filtering,
}

/// The whole session: connection context, mode, buffers, the full fetched
/// set, and the table over it.
pub struct ReturnValues {
    /// Credential profile of the active connection.
    pub profile: String,
    /// Region of the active connection.
    pub region: String,
    /// The search buffer, as last submitted.
    pub search: String,
    /// Whether the last search submission matched any visible entity.
    pub search_found: bool,
    /// The filter buffer; sticky across re-entry into filter mode.
    pub filter: String,
    /// Selection identity as of entering search mode, restored on cancel.
    pub saved_memory: Option<String>,
    /// The active interaction mode.
    pub mode: Mode,
    /// The full fetched set, replaced wholesale on every successful fetch.
    pub instances: Vec<Instance>,
    /// The table: visible set, cursor, and remembered selection identity.
    pub table: Table,
}

impl ReturnValues {
    /// Session invariant: the table is well formed and its visible set is
    /// exactly the full fetched set filtered by the active filter term.
    pub open spec fn wf(self) -> bool {
        &&& self.table.wf()
        &&& views(self.table.items@) == filter_views(views(self.instances@), self.filter@)
    }

    /// An empty session: standard mode, empty buffers, nothing fetched,
    /// nothing selected.
    pub fn new() -> (r: Self)
        ensures
            r.wf(),
            r.mode == Mode::Standard,
            r.profile@ == Seq::<char>::empty(),
            r.region@ == Seq::<char>::empty(),
            r.search@ == Seq::<char>::empty(),
            !r.search_found,
            r.filter@ == Seq::<char>::empty(),
            r.saved_memory is None,
            r.instances@.len() == 0,
            r.table.items@.len() == 0,
            r.table.selected is None,
            r.table.memory is None,
    {
        let r = ReturnValues {
            profile: String::new(),
            region: String::new(),
            search: String::new(),
            search_found: false,
            filter: String::new(),
            saved_memory: None,
            mode: Mode::Standard,
            instances: Vec::new(),
            table: Table::new(),
        };
        proof {
            lemma_filter_empty_term(views(r.instances@));
            assert(views(r.instances@) =~= Seq::<Instance>::empty().map_values(
                |e: Instance| e@,
            ));
            assert(views(r.table.items@) =~= views(r.instances@));
        }
        r
    }

    /// Enters search mode from the standard mode: the buffer starts empty,
    /// nothing is matched yet, and the current selection identity is saved
    /// so that cancelling can restore it. From any other mode the request
    /// is rejected and nothing changes.
    pub fn enter_search(&mut self) -> (r: bool)
        requires
            old(self).wf(),
        ensures
            final(self).wf(),
            r == (old(self).mode == Mode::Standard),
            r ==> final(self).mode == Mode::Searching && final(self).search@ == Seq::<char>::empty() && !final(self).search_found && final(self).saved_memory == old(self).table.memory && final(self).table == old(self).table && final(self).instances == old(self).instances && final(self).filter == old(self).filter && final(self).profile == old(self).profile && final(self).region == old(self).region,
            !r ==> *final(self) == *old(self),
    {
        match self.mode {
            Mode::Standard => {
                self.mode = Mode::Searching;
                self.search = String::new();
                self.search_found = false;
                self.saved_memory = clone_opt_string(&self.table.memory);
                true
            },
            _ => false,
        }
    }

    /// Enters filter mode from the standard mode; the buffer keeps its
    /// previous contents (it is sticky across re-entry). From any other
    /// mode the request is rejected and nothing changes.
    pub fn enter_filter(&mut self) -> (r: bool)
        requires
            old(self).wf(),
        ensures
            final(self).wf(),
            r == (old(self).mode == Mode::Standard),
            r ==> final(self).mode == Mode::Filtering && final(self).table == old(self).table
                && final(self).instances == old(self).instances && final(self).filter == old(self).filter && final(self).search == old(self).search && final(self).search_found == old(self).search_found && final(self).saved_memory == old(self).saved_memory && final(self).profile == old(self).profile && final(self).region == old(self).region,
            !r ==> *final(self) == *old(self),
    {
        match self.mode {
            Mode::Standard => {
                self.mode = Mode::Filtering;
                true
            },
            _ => false,
        }
    }

    /// Re-runs the active mode's engine with a new buffer, from scratch:
    /// in search mode the first matching visible entity is selected and the
    /// match flag set; in filter mode the visible set is recomputed from
    /// the full fetched set and the selection preserved by identity. In
    /// standard mode there is no buffer and nothing changes.
    pub fn update_buffer(&mut self, text: &str)
        requires
            old(self).wf(),
        ensures
            final(self).wf(),
            final(self).mode == old(self).mode,
            final(self).instances == old(self).instances,
            final(self).profile == old(self).profile,
            final(self).region == old(self).region,
            final(self).saved_memory == old(self).saved_memory,
            old(self).mode == Mode::Standard ==> *final(self) == *old(self),
            old(self).mode == Mode::Searching ==> final(self).search@ == text@ && final(self).filter == old(self).filter && final(self).table.items == old(self).table.items
                && final(self).search_found == (first_match(
                views(old(self).table.items@),
                text@,
            ) is Some) && (final(self).search_found ==> cursor_is(
                final(self).table.selected,
                first_match(views(old(self).table.items@), text@),
            )) && (!final(self).search_found ==> final(self).table == old(self).table),
            old(self).mode == Mode::Filtering ==> final(self).filter@ == text@ && final(self).search == old(self).search && final(self).search_found == old(self).search_found
                && views(final(self).table.items@) == filter_views(
                views(old(self).instances@),
                text@,
            ) && final(self).table.memory == old(self).table.memory && cursor_is(
                final(self).table.selected,
                reselected_cursor(
                    filter_views(views(old(self).instances@), text@),
                    old(self).table.memory,
                ),
            ),
    {
        match self.mode {
            Mode::Standard => {},
            Mode::Searching => {
                let found = search(&mut self.table, text);
                self.search = text.to_owned();
                self.search_found = found;
            },
            Mode::Filtering => {
                let filtered = filter_entities(&self.instances, text);
                self.table.replace(filtered);
                self.filter = text.to_owned();
            },
        }
    }

    /// Leaves the active mode and discards the buffer's effects: cancelling
    /// a search restores the selection identity saved on entry; cancelling
    /// a filter clears the filter term and restores the unfiltered visible
    /// set, re-selecting the remembered identity if it is present. In
    /// standard mode nothing changes.
    pub fn cancel(&mut self)
        requires
            old(self).wf(),
        ensures
            final(self).wf(),
            final(self).instances == old(self).instances,
            final(self).profile == old(self).profile,
            final(self).region == old(self).region,
            old(self).mode == Mode::Standard ==> *final(self) == *old(self),
            old(self).mode != Mode::Standard ==> final(self).mode == Mode::Standard,
            old(self).mode == Mode::Searching ==> final(self).filter == old(self).filter && final(self).table.items == old(self).table.items && final(self).table.memory == old(self).saved_memory && cursor_is(
                final(self).table.selected,
                reselected_cursor(views(old(self).table.items@), old(self).saved_memory),
            ),
            old(self).mode == Mode::Filtering ==> final(self).filter@ == Seq::<char>::empty()
                && views(final(self).table.items@) == views(old(self).instances@) && final(self).table.memory == old(self).table.memory && cursor_is(
                final(self).table.selected,
                reselected_cursor(views(old(self).instances@), old(self).table.memory),
            ),
    {
        match self.mode {
            Mode::Standard => {},
            Mode::Searching => {
                self.mode = Mode::Standard;
                let m = clone_opt_string(&self.saved_memory);
                self.table.reselect(m);
            },
            Mode::Filtering => {
                self.mode = Mode::Standard;
                let full = clone_entities(&self.instances);
                self.table.replace(full);
                self.filter = String::new();
                proof {
                    lemma_filter_empty_term(views(self.instances@));
                }
            },
        }
    }

    /// Leaves the active mode and keeps the buffer's effects as the new
    /// baseline: a closed filter persists its visible set and its sticky
    /// buffer; a closed search keeps the selection it reached. In standard
    /// mode nothing changes.
    pub fn close(&mut self)
        requires
            old(self).wf(),
        ensures
            final(self).wf(),
            old(self).mode == Mode::Standard ==> *final(self) == *old(self),
            old(self).mode != Mode::Standard ==> final(self).mode == Mode::Standard && final(self).table == old(self).table && final(self).instances == old(self).instances && final(self).filter == old(self).filter && final(self).search == old(self).search && final(self).search_found == old(self).search_found && final(self).saved_memory == old(self).saved_memory && final(self).profile == old(self).profile && final(self).region == old(self).region,
    {
        match self.mode {
            Mode::Standard => {},
            _ => {
                self.mode = Mode::Standard;
            },
        }
    }

    /// Submits a find-next from the current selection, with wraparound, and
    /// records whether anything matched. The request is rejected when not
    /// in search mode or when nothing is selected.
    pub fn search_next(&mut self, term: &str) -> (found: bool)
        requires
            old(self).wf(),
        ensures
            final(self).wf(),
            final(self).mode == old(self).mode,
            final(self).instances == old(self).instances,
            final(self).filter == old(self).filter,
            old(self).mode != Mode::Searching || old(self).table.selected is None ==> *final(self)
                == *old(self),
            old(self).mode == Mode::Searching && old(self).table.selected is Some ==> final(self).table.items == old(self).table.items && final(self).search_found == found && ({
                let vs = views(old(self).table.items@);
                let cur = old(self).table.selected->Some_0 as int;
                match crate::search::first_match_from(vs, term@, cur + 1) {
                    Some(i) => found && cursor_is(final(self).table.selected, Some(i)),
                    None => match first_match(vs, term@) {
                        Some(j) => found && cursor_is(final(self).table.selected, Some(j)),
                        None => !found && final(self).table == old(self).table,
                    },
                }
            }),
    {
        match self.mode {
            Mode::Searching => {
                match self.table.selected {
                    Some(_) => {
                        let found = search_next(&mut self.table, term);
                        self.search_found = found;
                        found
                    },
                    None => false,
                }
            },
            _ => false,
        }
    }

    /// Whether switching the connection to region `name` would change
    /// anything at all.
    pub fn region_change_needed(&self, name: &str) -> (r: bool)
        ensures
            r == (self.region@ != name@),
    {
        !str_eq(self.region.as_str(), name)
    }

    /// Merges a fetch outcome into the session. On success the full set is
    /// replaced wholesale, the active filter term re-applied to it, and the
    /// selection preserved by identity. On failure every part of the
    /// session is left untouched and the error is passed back for display.
    pub fn refresh(&mut self, fetched: Result<Vec<Instance>, String>) -> (r: Result<(), String>)
        requires
            old(self).wf(),
        ensures
            final(self).wf(),
            match fetched {
                Ok(new_full) => r is Ok && final(self).instances == new_full && final(self).filter
                    == old(self).filter && views(final(self).table.items@) == filter_views(
                    views(new_full@),
                    old(self).filter@,
                ) && final(self).table.memory == old(self).table.memory && cursor_is(
                    final(self).table.selected,
                    reselected_cursor(
                        filter_views(views(new_full@), old(self).filter@),
                        old(self).table.memory,
                    ),
                ) && final(self).mode == old(self).mode && final(self).search == old(self).search
                    && final(self).search_found == old(self).search_found && final(self).profile
                    == old(self).profile && final(self).region == old(self).region,
                Err(e) => r == Err::<(), String>(e) && *final(self) == *old(self),
            },
    {
        match fetched {
            Ok(new_full) => {
                let filtered = filter_entities(&new_full, self.filter.as_str());
                self.instances = new_full;
                self.table.replace(filtered);
                Ok(())
            },
            Err(e) => Err(e),
        }
    }

    /// Switches the connection to another region using a fetch made there.
    /// On success the region is recorded and the fetched set merged as by
    /// [`Self::refresh`]; on failure everything is left untouched.
    pub fn change_region(&mut self, name: &str, fetched: Result<Vec<Instance>, String>) -> (r:
        Result<(), String>)
        requires
            old(self).wf(),
        ensures
            final(self).wf(),
            match fetched {
                Ok(new_full) => r is Ok && final(self).region@ == name@ && final(self).instances
                    == new_full && final(self).filter == old(self).filter && views(
                    final(self).table.items@,
                ) == filter_views(views(new_full@), old(self).filter@) && final(self).table.memory
                    == old(self).table.memory && final(self).mode == old(self).mode,
                Err(e) => r == Err::<(), String>(e) && *final(self) == *old(self),
            },
    {
        match fetched {
            Ok(new_full) => {
                self.region = name.to_owned();
                self.refresh(Ok(new_full))
            },
            Err(e) => Err(e),
        }
    }
}

/// Re-deriving the visible set is idempotent: two sessions that recomputed
/// their visible set from the same full set with the same buffer hold the
/// same visible set, whatever buffers either submitted before.
pub proof fn lemma_recompute_idempotent(a: ReturnValues, b: ReturnValues, term: Seq<char>)
    requires
        views(a.instances@) == views(b.instances@),
        views(a.table.items@) == filter_views(views(a.instances@), term),
        views(b.table.items@) == filter_views(views(b.instances@), term),
    ensures
        views(a.table.items@) == views(b.table.items@),
{
}

} // verus!
