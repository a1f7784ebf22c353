//! Session state: the visible result list mirrored from the aggregator, the
//! selection cursor, input focus, progress records, and the render cache.

use vstd::multiset::Multiset;
use vstd::prelude::*;

use crate::render_cache::{fingerprint_of, RenderCache};
use crate::result::{duplicate_all, ProgressiveLoadStatus, SearchResult};
use crate::sorter::{merge_desc, rank_desc, FileSorter};
use crate::strings::{dec_digits, usize_to_string};

verus! {

/// How many rendered lines the session keeps before evicting.
pub const DEFAULT_CACHE_LIMIT: usize = 1000;

/// Input focus state for the search interface.
#[derive(Debug, Clone, Copy, PartialEq, Eq)]
pub enum InputFocus {
    /// The primary search box is focused.
    Primary,
    /// The results list is focused.
    Results,
}

/// Search progress state: how far the running search has come.
#[derive(Debug, Clone, PartialEq, Eq)]
pub struct SearchProgress {
    /// Number of files with matches found so far.
    pub files_with_matches: usize,
    /// Whether the search is currently in progress.
    pub is_searching: bool,
    /// Whether the search is complete.
    pub is_complete: bool,
}

impl SearchProgress {
    /// A fresh progress record: nothing found, nothing running.
    pub fn new() -> (r: SearchProgress)
        ensures
            r.files_with_matches == 0,
            !r.is_searching,
            !r.is_complete,
    {
        SearchProgress { files_with_matches: 0, is_searching: false, is_complete: false }
    }

    /// Starts a new search: the count resets and searching begins.
    pub fn start_search(&mut self)
        ensures
            final(self).files_with_matches == 0,
            final(self).is_searching,
            !final(self).is_complete,
    {
        self.files_with_matches = 0;
        self.is_searching = true;
        self.is_complete = false;
    }

    /// Updates the running count of files with matches.
    pub fn update_file_count(&mut self, files_with_matches: usize)
        ensures
            final(self).files_with_matches == files_with_matches,
            final(self).is_searching == old(self).is_searching,
            final(self).is_complete == old(self).is_complete,
    {
        self.files_with_matches = files_with_matches;
    }

    /// Marks the search as complete.
    pub fn complete_search(&mut self)
        ensures
            final(self).files_with_matches == old(self).files_with_matches,
            !final(self).is_searching,
            final(self).is_complete,
    {
        self.is_searching = false;
        self.is_complete = true;
    }

    /// Resets the record to its fresh state.
    pub fn reset(&mut self)
        ensures
            final(self).files_with_matches == 0,
            !final(self).is_searching,
            !final(self).is_complete,
    {
        self.files_with_matches = 0;
        self.is_searching = false;
        self.is_complete = false;
    }
}

/// The status line: the progressive record when present, the search-progress
/// message otherwise, and a ready sentinel when neither applies.
pub open spec fn loading_message_of(
    pls: Option<ProgressiveLoadStatus>,
    sp: SearchProgress,
) -> Seq<char> {
    match pls {
        Some(st) => if st.loading_complete {
            "Loaded "@ + dec_digits(st.total_loaded as nat) + " results from "@ + dec_digits(
                st.total_files_found as nat,
            ) + " files"@
        } else {
            "Loading... "@ + dec_digits(st.total_loaded as nat) + " results from "@ + dec_digits(
                st.total_files_found as nat,
            ) + " files"@
        },
        None => if sp.is_searching {
            "Searching... "@ + dec_digits(sp.files_with_matches as nat) + " files found"@
        } else if sp.is_complete {
            "Search complete - "@ + dec_digits(sp.files_with_matches as nat) + " files"@
        } else {
            "Ready to search"@
        },
    }
}

/// Main session state.
pub struct App {
    /// Current visible search results, a mirror of the aggregator's order.
    pub search_results: Vec<SearchResult>,
    /// Currently selected search result index.
    pub selected_index: usize,
    /// Current search pattern.
    pub current_pattern: String,
    /// Whether the session should end.
    pub should_quit: bool,
    /// Current input focus state.
    pub input_focus: InputFocus,
    /// Search progress tracking.
    pub search_progress: SearchProgress,
    /// Progressive load status, once the controller reports incremental loads.
    pub progressive_load_status: Option<ProgressiveLoadStatus>,
    /// Flag asking the controller to consider loading more results.
    pub needs_progressive_load_check: bool,
    /// Bounded cache of render-ready lines, keyed by content fingerprint.
    pub highlighted_cache: RenderCache,
    /// The aggregator that owns the global sort order.
    pub sorter: FileSorter,
}

impl App {
    /// The session's collections are well formed and the visible list
    /// mirrors the aggregator's global order.
    pub open spec fn wf(self) -> bool {
        &&& self.sorter.wf()
        &&& self.sorter.ranked_ok()
        &&& self.highlighted_cache.wf()
        &&& self.search_results@ == self.sorter.results()
    }

    /// Creates a session with the default render-cache bound.
    pub fn new() -> (app: App)
        ensures
            app.wf(),
            app.search_results@ == Seq::<SearchResult>::empty(),
            app.selected_index == 0,
            app.current_pattern@ == Seq::<char>::empty(),
            !app.should_quit,
            app.input_focus is Primary,
            app.search_progress.files_with_matches == 0,
            !app.search_progress.is_searching,
            !app.search_progress.is_complete,
            app.progressive_load_status is None,
            !app.needs_progressive_load_check,
            app.highlighted_cache.size() == 0,
            app.highlighted_cache.cap() == DEFAULT_CACHE_LIMIT,
            !app.sorter.enabled_(),
    {
        Self::with_cache_limit(DEFAULT_CACHE_LIMIT)
    }

    /// Creates a session with a chosen render-cache bound.
    pub fn with_cache_limit(cache_limit: usize) -> (app: App)
        requires
            cache_limit >= 1,
        ensures
            app.wf(),
            app.search_results@ == Seq::<SearchResult>::empty(),
            app.selected_index == 0,
            app.current_pattern@ == Seq::<char>::empty(),
            !app.should_quit,
            app.input_focus is Primary,
            app.search_progress.files_with_matches == 0,
            !app.search_progress.is_searching,
            !app.search_progress.is_complete,
            app.progressive_load_status is None,
            !app.needs_progressive_load_check,
            app.highlighted_cache.size() == 0,
            app.highlighted_cache.cap() == cache_limit,
            !app.sorter.enabled_(),
    {
        App {
            search_results: Vec::new(),
            selected_index: 0,
            current_pattern: String::new(),
            should_quit: false,
            input_focus: InputFocus::Primary,
            search_progress: SearchProgress::new(),
            progressive_load_status: None,
            needs_progressive_load_check: false,
            highlighted_cache: RenderCache::new(cache_limit),
            sorter: FileSorter::new(),
        }
    }

    /// Replaces all results for a new pattern: the render cache is cleared,
    /// the selection resets, and the aggregator is cleared and repopulated;
    /// the visible list mirrors the aggregator afterwards.
    pub fn update_search_results(&mut self, results: Vec<SearchResult>)
        requires
            old(self).wf(),
        ensures
            final(self).wf(),
            final(self).selected_index == 0,
            final(self).highlighted_cache.size() == 0,
            final(self).search_results@ == final(self).sorter.results(),
            final(self).sorter.results().to_multiset() == results@.to_multiset(),
            !old(self).sorter.enabled_() || results@.len() == 0 ==> final(self).sorter.results()
                == results@,
            old(self).sorter.enabled_() && results@.len() > 0 ==> final(self).sorter.results()
                == rank_desc(final(self).sorter.times(), results@),
            final(self).current_pattern == old(self).current_pattern,
            final(self).should_quit == old(self).should_quit,
            final(self).input_focus == old(self).input_focus,
            final(self).search_progress == old(self).search_progress,
    {
        self.selected_index = 0;
        self.highlighted_cache.clear();
        self.sorter.clear();
        if results.len() > 0 {
            let ghost batch = results@;
            let ranked = self.sorter.add_results(results);
            proof {
                if self.sorter.enabled_() {
                    assert(merge_desc(
                        self.sorter.times(),
                        Seq::<SearchResult>::empty(),
                        ranked@,
                    ) == ranked@);
                    crate::sorter::lemma_rank_desc_props(self.sorter.times(), batch);
                }
                assert(Seq::<SearchResult>::empty().to_multiset().add(batch.to_multiset())
                    =~= batch.to_multiset());
            }
        } else {
            proof {
                assert(results@ =~= Seq::<SearchResult>::empty());
            }
        }
        self.sync_results_from_sorter();
    }

    /// Adds one streamed result, keeping the global order.
    pub fn add_search_result(&mut self, result: SearchResult)
        requires
            old(self).wf(),
        ensures
            final(self).wf(),
            final(self).search_results@ == final(self).sorter.results(),
            final(self).sorter.results().to_multiset() == old(self).sorter.results().to_multiset(
            ).insert(result),
            !old(self).sorter.enabled_() ==> final(self).sorter.results() == old(
                self,
            ).sorter.results().push(result),
            final(self).selected_index == old(self).selected_index,
    {
        let ghost one = result;
        let mut batch: Vec<SearchResult> = Vec::new();
        batch.push(result);
        proof {
            broadcast use vstd::seq_lib::group_to_multiset_ensures;

            assert(batch@ =~= Seq::<SearchResult>::empty().push(one));
            assert(batch@.to_multiset() =~= Multiset::<SearchResult>::empty().insert(one));
        }
        let _ = self.sorter.add_results(batch);
        self.sync_results_from_sorter();
        proof {
            assert(old(self).sorter.results().to_multiset().add(
                Multiset::<SearchResult>::empty().insert(one),
            ) =~= old(self).sorter.results().to_multiset().insert(one));
            if !old(self).sorter.enabled_() {
                assert(old(self).sorter.results() + Seq::<SearchResult>::empty().push(one)
                    =~= old(self).sorter.results().push(one));
            }
        }
    }

    /// Adds a batch of streamed results, keeping the global order.
    pub fn add_sarch_results(&mut self, results: Vec<SearchResult>)
        requires
            old(self).wf(),
        ensures
            final(self).wf(),
            final(self).search_results@ == final(self).sorter.results(),
            final(self).sorter.results().to_multiset() == old(self).sorter.results().to_multiset(
            ).add(results@.to_multiset()),
            !old(self).sorter.enabled_() || results@.len() == 0 ==> final(self).sorter.results()
                == old(self).sorter.results() + results@,
            old(self).sorter.enabled_() && results@.len() > 0 ==> final(self).sorter.results()
                == merge_desc(
                final(self).sorter.times(),
                old(self).sorter.results(),
                rank_desc(final(self).sorter.times(), results@),
            ),
            final(self).selected_index == old(self).selected_index,
    {
        if results.len() == 0 {
            proof {
                broadcast use vstd::seq_lib::group_to_multiset_ensures;

                assert(old(self).sorter.results().to_multiset().add(results@.to_multiset())
                    =~= old(self).sorter.results().to_multiset());
                assert(old(self).sorter.results() + results@ =~= old(self).sorter.results());
            }
            return ;
        }
        let _ = self.sorter.add_results(results);
        self.sync_results_from_sorter();
    }

    /// Re-reads the aggregator's full ordered list into the visible mirror.
    fn sync_results_from_sorter(&mut self)
        requires
            old(self).sorter.wf(),
        ensures
            *final(self) == (App { search_results: final(self).search_results, ..*old(self) }),
            final(self).search_results@ == old(self).sorter.results(),
    {
        self.search_results = duplicate_all(self.sorter.get_all_results());
    }

    /// Clears all results, the selection, the aggregator and the render
    /// cache, for a new search.
    pub fn clear_search_results(&mut self)
        requires
            old(self).wf(),
        ensures
            final(self).wf(),
            final(self).search_results@ == Seq::<SearchResult>::empty(),
            final(self).selected_index == 0,
            final(self).highlighted_cache.size() == 0,
            final(self).search_progress == old(self).search_progress,
            final(self).current_pattern == old(self).current_pattern,
    {
        self.search_results.clear();
        self.selected_index = 0;
        self.sorter.clear();
        self.clear_highlighting_cache();
    }

    /// Starts a new search: results cleared, progress restarted.
    pub fn start_new_search(&mut self)
        requires
            old(self).wf(),
        ensures
            final(self).wf(),
            final(self).search_results@ == Seq::<SearchResult>::empty(),
            final(self).selected_index == 0,
            final(self).highlighted_cache.size() == 0,
            final(self).search_progress.files_with_matches == 0,
            final(self).search_progress.is_searching,
            !final(self).search_progress.is_complete,
    {
        self.clear_search_results();
        self.search_progress.start_search();
    }

    /// Updates the count of files with matches.
    pub fn update_file_count(&mut self, files_with_matches: usize)
        requires
            old(self).wf(),
        ensures
            final(self).wf(),
            final(self).search_progress.files_with_matches == files_with_matches,
            final(self).search_progress.is_searching == old(self).search_progress.is_searching,
            final(self).search_progress.is_complete == old(self).search_progress.is_complete,
            final(self).search_results == old(self).search_results,
    {
        self.search_progress.update_file_count(files_with_matches);
    }

    /// Marks the current search as complete.
    pub fn complete_search(&mut self)
        requires
            old(self).wf(),
        ensures
            final(self).wf(),
            !final(self).search_progress.is_searching,
            final(self).search_progress.is_complete,
            final(self).search_results == old(self).search_results,
    {
        self.search_progress.complete_search();
    }

    /// The currently selected search result, when the selection is in range.
    pub fn selected_result(&self) -> (r: Option<&SearchResult>)
        ensures
            match r {
                Some(res) => self.selected_index < self.search_results@.len() && *res
                    == self.search_results@[self.selected_index as int],
                None => self.selected_index >= self.search_results@.len(),
            },
    {
        if self.selected_index < self.search_results.len() {
            Some(&self.search_results[self.selected_index])
        } else {
            None
        }
    }

    /// The visible result list.
    pub fn active_results(&self) -> (r: &Vec<SearchResult>)
        ensures
            r@ == self.search_results@,
    {
        &self.search_results
    }

    /// Cycles between the two focus states; nothing else changes.
    pub fn toggle_focus(&mut self)
        ensures
            old(self).input_focus is Primary ==> final(self).input_focus is Results,
            old(self).input_focus is Results ==> final(self).input_focus is Primary,
            *final(self) == (App { input_focus: final(self).input_focus, ..*old(self) }),
    {
        match self.input_focus {
            InputFocus::Primary => self.input_focus = InputFocus::Results,
            InputFocus::Results => self.input_focus = InputFocus::Primary,
        }
    }

    /// Asks the session to end.
    pub fn quit(&mut self)
        ensures
            final(self).should_quit,
            *final(self) == (App { should_quit: true, ..*old(self) }),
    {
        self.should_quit = true;
    }

    /// Replaces the current search pattern.
    pub fn update_pattern(&mut self, pattern: String)
        ensures
            final(self).current_pattern == pattern,
            *final(self) == (App { current_pattern: pattern, ..*old(self) }),
    {
        self.current_pattern = pattern;
    }

    /// Handles a mouse click in the results list; returns whether the click
    /// selected a result.
    pub fn handle_results_click(
        &mut self,
        click_row: u16,
        results_area_top: u16,
        results_area_height: u16,
    ) -> (changed: bool)
        ensures
            changed == (click_row >= results_area_top && (click_row as int) < results_area_top
                + results_area_height && click_row - results_area_top
                < final(self).search_results@.len()),
            changed ==> final(self).selected_index == click_row - results_area_top,
            !changed ==> final(self).selected_index == old(self).selected_index,
            *final(self) == (App { selected_index: final(self).selected_index, ..*old(self) }),
    {
        if click_row < results_area_top {
            return false;
        }
        let offset = click_row - results_area_top;
        if offset >= results_area_height {
            return false;
        }
        let click_index = offset as usize;
        if click_index < self.search_results.len() {
            self.selected_index = click_index;
            true
        } else {
            false
        }
    }

    /// Sets the selection to an index, when it is in range.
    pub fn select_iindex(&mut self, index: usize)
        ensures
            index < old(self).search_results@.len() ==> final(self).selected_index == index,
            index >= old(self).search_results@.len() ==> final(self).selected_index == old(
                self,
            ).selected_index,
            *final(self) == (App { selected_index: final(self).selected_index, ..*old(self) }),
    {
        if index < self.search_results.len() {
            self.selected_index = index;
        }
    }

    /// The current search pattern.
    pub fn active_pattern(&self) -> (r: &str)
        ensures
            r@ == self.current_pattern@,
    {
        self.current_pattern.as_str()
    }

    /// The current search pattern, for editing in place.
    pub fn active_pattern_mut(&mut self) -> (r: &mut String)
        ensures
            *r == old(self).current_pattern,
            *final(self) == (App { current_pattern: *final(r), ..*old(self) }),
    {
        &mut self.current_pattern
    }

    /// The progressive load status, for display.
    pub fn get_progressive_load_status(&self) -> (r: Option<&ProgressiveLoadStatus>)
        ensures
            match r {
                Some(st) => self.progressive_load_status is Some && *st
                    == self.progressive_load_status->0,
                None => self.progressive_load_status is None,
            },
    {
        self.progressive_load_status.as_ref()
    }

    /// Moves the selection down, clamped to the list, and requests a
    /// progressive load check.
    pub fn select_next(&mut self)
        ensures
            old(self).search_results@.len() > 0 && old(self).selected_index + 1 < old(
                self,
            ).search_results@.len() ==> final(self).selected_index == old(self).selected_index + 1
                && final(self).needs_progressive_load_check,
            !(old(self).search_results@.len() > 0 && old(self).selected_index + 1 < old(
                self,
            ).search_results@.len()) ==> *final(self) == *old(self),
            *final(self) == (App {
                selected_index: final(self).selected_index,
                needs_progressive_load_check: final(self).needs_progressive_load_check,
                ..*old(self)
            }),
    {
        if self.search_results.len() > 0 && self.selected_index < self.search_results.len() - 1 {
            self.selected_index = self.selected_index + 1;
            self.needs_progressive_load_check = true;
        }
    }

    /// Moves the selection up, clamped at zero, and requests a progressive
    /// load check.
    pub fn select_previous(&mut self)
        ensures
            old(self).selected_index > 0 ==> final(self).selected_index == old(
                self,
            ).selected_index - 1 && final(self).needs_progressive_load_check,
            old(self).selected_index == 0 ==> *final(self) == *old(self),
            *final(self) == (App {
                selected_index: final(self).selected_index,
                needs_progressive_load_check: final(self).needs_progressive_load_check,
                ..*old(self)
            }),
    {
        if self.selected_index > 0 {
            self.selected_index = self.selected_index - 1;
            self.needs_progressive_load_check = true;
        }
    }

    /// The status message: the progressive record when present, else the
    /// search progress, else the ready sentinel.
    pub fn get_loading_message(&self) -> (r: String)
        ensures
            r@ == loading_message_of(self.progressive_load_status, self.search_progress),
    {
        match &self.progressive_load_status {
            Some(status) => {
                let head = if status.loading_complete {
                    String::from_str("Loaded ")
                } else {
                    String::from_str("Loading... ")
                };
                let mut out = head;
                out.append(usize_to_string(status.total_loaded).as_str());
                out.append(" results from ");
                out.append(usize_to_string(status.total_files_found).as_str());
                out.append(" files");
                proof {
                    assert(out@ =~= loading_message_of(
                        self.progressive_load_status,
                        self.search_progress,
                    ));
                }
                out
            },
            None => {
                if self.search_progress.is_searching {
                    let mut out = String::from_str("Searching... ");
                    out.append(usize_to_string(self.search_progress.files_with_matches).as_str());
                    out.append(" files found");
                    proof {
                        assert(out@ =~= loading_message_of(
                            self.progressive_load_status,
                            self.search_progress,
                        ));
                    }
                    out
                } else if self.search_progress.is_complete {
                    let mut out = String::from_str("Search complete - ");
                    out.append(usize_to_string(self.search_progress.files_with_matches).as_str());
                    out.append(" files");
                    proof {
                        assert(out@ =~= loading_message_of(
                            self.progressive_load_status,
                            self.search_progress,
                        ));
                    }
                    out
                } else {
                    String::from_str("Ready to search")
                }
            },
        }
    }

    /// Returns the cached rendered line for a result, rendering and caching
    /// it on the first request.
    pub fn get_cached_highlighted_line<F>(&mut self, result: &SearchResult, render: F) -> (line:
        String) where F: Fn(&SearchResult) -> String
        requires
            old(self).wf(),
            render.requires((result,)),
        ensures
            final(self).wf(),
            ({
                let fp = fingerprint_of(
                    result.file_path@,
                    result.line_number,
                    result.line_content@,
                );
                &&& (old(self).highlighted_cache.table().contains_key(fp) ==> line@ == old(
                    self,
                ).highlighted_cache.table()[fp])
                &&& (!old(self).highlighted_cache.table().contains_key(fp)
                    ==> render.ensures((result,), line))
                &&& final(self).highlighted_cache.table().contains_key(fp)
                &&& final(self).highlighted_cache.table()[fp] == line@
            }),
            final(self).search_results == old(self).search_results,
            final(self).sorter == old(self).sorter,
    {
        self.highlighted_cache.get_or_render(result, render)
    }

    /// Clears the render cache, as a new search does.
    pub fn clear_highlighting_cache(&mut self)
        requires
            old(self).highlighted_cache.wf(),
        ensures
            final(self).highlighted_cache.wf(),
            final(self).highlighted_cache.size() == 0,
            final(self).highlighted_cache.cap() == old(self).highlighted_cache.cap(),
            *final(self) == (App {
                highlighted_cache: final(self).highlighted_cache,
                ..*old(self)
            }),
    {
        self.highlighted_cache.clear();
    }

    /// The render cache's size and bound.
    pub fn get_cache_stats(&self) -> (r: (usize, usize))
        ensures
            r.0 == self.highlighted_cache.size(),
            r.1 == self.highlighted_cache.cap(),
    {
        self.highlighted_cache.stats()
    }
}

} // verus!
