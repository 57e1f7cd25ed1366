//! The window's application model and its handlers: each one changes the
//! state as the model in [`crate::model`] says and collects what it sends.

use vstd::prelude::*;

use crate::entries::{
    ids_of, lemma_position, first_index, tab_lists, tab_shows, shown_entries, any_shown, split_pinned,
    Entry, Tab,
};
use crate::model::AppModel;
use crate::pipeline::{ImagePipeline, PipelineModel};
use crate::state::{EntriesState, SearchKind, SettingsState, State, UiState};

verus! {

broadcast use crate::model::group_effects;

/// The window's application model: its state, its two image pipelines,
/// whether closing it only hides it, and its window id once known.
pub struct RingboardApp<P, H, W> {
    pub state: State<P>,
    /// Downscaled row-preview thumbnails, kept for every listed image entry.
    pub thumbnails: ImagePipeline<H>,
    /// Full-size images, only for the entry whose details are open.
    pub detail_images: ImagePipeline<H>,
    /// Whether closing the window hides it instead of ending the process.
    pub daemon: bool,
    /// The window's id, once it is known.
    pub window_id: Option<W>,
}

impl<P, H, W> View for RingboardApp<P, H, W> {
    type V = AppModel<P, H, W>;

    open spec fn view(&self) -> AppModel<P, H, W> {
        AppModel {
            query: self.state.ui.query@,
            search_kind: self.state.ui.search_kind,
            active_tab: self.state.ui.active_tab,
            highlighted_id: self.state.ui.highlighted_id,
            search_highlighted_id: self.state.ui.search_highlighted_id,
            hovered_id: self.state.ui.hovered_id,
            pinned_expanded: self.state.ui.pinned_expanded,
            input_active: self.state.ui.input_active,
            ctrl_held: self.state.ui.ctrl_held,
            shortcuts_shown: self.state.ui.shortcuts_shown,
            details_requested: self.state.ui.details_requested,
            detailed_entry: self.state.ui.detailed_entry,
            last_error: match self.state.ui.last_error {
                Some(e) => Some(e.model()),
                None => None,
            },
            fatal_error: self.state.ui.fatal_error,
            searching: self.state.ui.pending_search_token is Some,
            loaded: self.state.entries.loaded_entries@,
            results: self.state.entries.search_results@,
            max_main: self.state.settings.max_main_entries@,
            max_favorites: self.state.settings.max_favorite_entries@,
            gc_bytes: self.state.settings.gc_max_wasted_bytes@,
            status: match self.state.settings.status {
                Some(Ok(s)) => Some(Ok(s@)),
                Some(Err(s)) => Some(Err(s@)),
                None => None,
            },
            settings_loaded: self.state.settings.loaded,
            saving: self.state.settings.saving,
            running_gc: self.state.settings.running_gc,
            thumbnails: self.thumbnails@,
            detail_images: self.detail_images@,
            daemon: self.daemon,
            window_id: self.window_id,
        }
    }
}

/// The state of a freshly started window: nothing loaded, nothing searched
/// or highlighted, the All tab, plain search, the search box focused.
pub open spec fn initial_model<P, H, W>(daemon: bool) -> AppModel<P, H, W> {
    AppModel {
        query: Seq::empty(),
        search_kind: SearchKind::Plain,
        active_tab: Tab::All,
        highlighted_id: None,
        search_highlighted_id: None,
        hovered_id: None,
        pinned_expanded: false,
        input_active: true,
        ctrl_held: false,
        shortcuts_shown: false,
        details_requested: None,
        detailed_entry: None,
        last_error: None,
        fatal_error: None,
        searching: false,
        loaded: Seq::empty(),
        results: Seq::empty(),
        max_main: Seq::empty(),
        max_favorites: Seq::empty(),
        gc_bytes: Seq::empty(),
        status: None,
        settings_loaded: false,
        saving: false,
        running_gc: false,
        thumbnails: PipelineModel::empty(),
        detail_images: PipelineModel::empty(),
        daemon,
        window_id: None,
    }
}

impl<P, H, W: Copy> RingboardApp<P, H, W> {
    /// A freshly started window (see [`initial_model`]).
    pub fn new(daemon: bool) -> (app: Self)
        ensures
            app@ == initial_model::<P, H, W>(daemon),
    {
        let app = RingboardApp {
            state: State {
                ui: UiState {
                    query: String::new(),
                    search_kind: SearchKind::Plain,
                    active_tab: Tab::All,
                    highlighted_id: None,
                    search_highlighted_id: None,
                    hovered_id: None,
                    pinned_expanded: false,
                    input_active: true,
                    ctrl_held: false,
                    shortcuts_shown: false,
                    details_requested: None,
                    detailed_entry: None,
                    last_error: None,
                    fatal_error: None,
                    pending_search_token: None,
                },
                entries: EntriesState { loaded_entries: Vec::new(), search_results: Vec::new() },
                settings: SettingsState {
                    max_main_entries: String::new(),
                    max_favorite_entries: String::new(),
                    gc_max_wasted_bytes: String::new(),
                    status: None,
                    loaded: false,
                    saving: false,
                    running_gc: false,
                },
            },
            thumbnails: ImagePipeline::new(),
            detail_images: ImagePipeline::new(),
            daemon,
            window_id: None,
        };
        assert(app@ =~= initial_model::<P, H, W>(daemon));
        app
    }

    /// The window's title for the program's `version`.
    pub fn title(&self, version: &str) -> (t: String)
        ensures
            t@ == "Ringboard v"@ + version@,
    {
        let mut t = String::from_str("Ringboard v");
        t.append(version);
        t
    }

    /// Whether the active tab lists `e`.
    pub fn tab_matches(&self, e: &Entry<P>) -> (r: bool)
        ensures
            r == tab_shows(self.state.ui.active_tab, *e),
    {
        tab_lists(self.state.ui.active_tab, e)
    }

    /// The entries the search box's state selects: the first page while the
    /// query is empty, the search results otherwise.
    pub fn active_entries(&self) -> (r: &[Entry<P>])
        ensures
            r@ == self@.active(),
    {
        if self.state.ui.query.as_str().is_empty() {
            self.state.entries.loaded_entries.as_slice()
        } else {
            self.state.entries.search_results.as_slice()
        }
    }

    /// The active entries that the tab lists.
    pub fn filtered_entries(&self) -> (r: Vec<&Entry<P>>)
        ensures
            r@.unref() == self@.filtered(),
    {
        shown_entries(self.state.ui.active_tab, self.active_entries())
    }

    /// Whether the tab lists any active entry, without building the list.
    pub fn has_visible_entries(&self) -> (r: bool)
        ensures
            r == (self@.filtered().len() > 0),
    {
        any_shown(self.state.ui.active_tab, self.active_entries())
    }

    /// Whether the list is split into Favorites and Recent sections: only the
    /// unfiltered All tab has sections.
    pub fn show_sections(&self) -> (r: bool)
        ensures
            r == self@.show_sections(),
    {
        self.state.ui.query.as_str().is_empty() && self.state.ui.active_tab == Tab::All
    }

    /// Splits the filtered list into (pinned favorites, unpinned recents).
    pub fn partitioned_entries(&self) -> (r: (Vec<&Entry<P>>, Vec<&Entry<P>>))
        ensures
            r.0@.unref() == self@.pinned(),
            r.1@.unref() == self@.unpinned(),
    {
        split_pinned(self.filtered_entries())
    }

    /// Navigation order: favorites first where there are sections, then the
    /// rest.
    pub fn nav_entries(&self) -> (r: Vec<&Entry<P>>)
        ensures
            r@.unref() == self@.nav(),
    {
        if self.show_sections() {
            let (mut pinned, mut unpinned) = self.partitioned_entries();
            let ghost p = pinned@;
            let ghost u = unpinned@;
            pinned.append(&mut unpinned);
            assert(pinned@.unref() =~= p.unref() + u.unref());
            pinned
        } else {
            self.filtered_entries()
        }
    }

    /// The highlighted entry of the list on screen.
    pub fn current_highlight_id(&self) -> (r: Option<u64>)
        ensures
            r == self@.highlight(),
    {
        if self.state.ui.query.as_str().is_empty() {
            self.state.ui.highlighted_id
        } else {
            self.state.ui.search_highlighted_id
        }
    }

    /// Looks an entry up by id across the first page and the results.
    pub fn find_entry(&self, id: u64) -> (r: Option<&Entry<P>>)
        ensures
            r matches Some(e) ==> self@.find(id) == Some(*e),
            r is None ==> self@.find(id) is None,
    {
        let ghost all = self@.loaded + self@.results;
        let ghost ids = ids_of(all);
        let loaded = &self.state.entries.loaded_entries;
        let results = &self.state.entries.search_results;
        let mut i: usize = 0;
        while i < loaded.len()
            invariant
                i <= loaded@.len(),
                all == loaded@ + results@,
                all == self@.loaded + self@.results,
                ids == ids_of(all),
                forall|j: int| 0 <= j < i ==> ids[j] != id,
            decreases loaded@.len() - i,
        {
            if loaded[i].id == id {
                proof {
                    assert(first_index(ids, id, i as int));
                    lemma_position(ids, id, i as int);
                    assert(all[i as int] == loaded@[i as int]);
                }
                return Some(&loaded[i]);
            }
            i += 1;
        }
        let mut k: usize = 0;
        while k < results.len()
            invariant
                k <= results@.len(),
                all == loaded@ + results@,
                all == self@.loaded + self@.results,
                ids == ids_of(all),
                forall|j: int| 0 <= j < loaded@.len() + k ==> ids[j] != id,
            decreases results@.len() - k,
        {
            if results[k].id == id {
                proof {
                    assert(ids[loaded@.len() + k] == id);
                    assert(first_index(ids, id, loaded@.len() + k));
                    lemma_position(ids, id, loaded@.len() + k);
                    assert(all[loaded@.len() + k] == results@[k as int]);
                }
                return Some(&results[k]);
            }
            k += 1;
        }
        proof {
            assert(!ids.contains(id));
        }
        None
    }
}

} // verus!
