//! The handlers that the window's messages and the server's replies run.

use vstd::prelude::*;

use crate::app::RingboardApp;
use crate::entries::{
    ids_of, index_of_id, position, position_of_tab, tab_at, tab_index, Entry,
    EntryKind, Ring, Tab,
};
use crate::model::{
    request_thumbnails, row_weight, rows_height, AppModel, ControllerEvent, EffectsModel,
    Effects, Followup, Request, UiTask, ImageKind,
};
use crate::outside::{new_search_token, search_is_done};
use crate::state::SearchKind;
use crate::text::{chars_of, decimal_string, parse_positive_u32, parse_u64, trim};

verus! {

broadcast use crate::model::group_effects;

/// The height of `e`'s row in tenths of a plain row (see [`row_weight`]).
pub fn row_weight_of<P>(details_requested: Option<u64>, e: &Entry<P>) -> (w: u128)
    ensures
        w == row_weight(details_requested, e.kind, e.id),
        w <= 100,
{
    let expanded = match details_requested {
        Some(d) => d == e.id,
        None => false,
    };
    if e.kind == EntryKind::Image && expanded {
        100
    } else if e.kind.is_text() && expanded {
        80
    } else if e.kind == EntryKind::Image {
        16
    } else {
        10
    }
}

/// The summed heights of the first `upto` rows of `rows`, in tenths.
pub fn rows_height_of<P>(details_requested: Option<u64>, rows: &[&Entry<P>], upto: usize) -> (h: u128)
    requires
        upto <= rows@.len(),
    ensures
        h == rows_height(details_requested, rows@.unref().take(upto as int)),
{
    let ghost s = rows@.unref();
    let mut total: u128 = 0;
    let mut i: usize = 0;
    while i < upto
        invariant
            i <= upto <= rows@.len(),
            s == rows@.unref(),
            total == rows_height(details_requested, s.take(i as int)),
            total <= 100 * i,
        decreases upto - i,
    {
        let w = row_weight_of(details_requested, rows[i]);
        proof {
            assert(s.take(i + 1).drop_last() =~= s.take(i as int));
            assert(s.take(i + 1).last() == *rows@[i as int]);
        }
        total = total + w;
        i += 1;
    }
    total
}

impl<P, H, W: Copy> RingboardApp<P, H, W> {
    pub(crate) fn paste(&mut self, id: u64, fx: &mut Effects<W>)
        ensures
            final(self)@ == old(self)@.paste(id).0,
            final(fx)@ == old(fx)@.followed_by(old(self)@.paste(id).1),
    {
        self.state.ui.pending_search_token = None;
        fx.send(Request::Paste(id));
    }

    pub(crate) fn paste_text(&mut self, id: u64, fx: &mut Effects<W>)
        ensures
            final(self)@ == old(self)@.paste_text(id).0,
            final(fx)@ == old(fx)@.followed_by(old(self)@.paste_text(id).1),
    {
        self.state.ui.pending_search_token = None;
        fx.send(Request::PasteText(id));
    }

    pub(crate) fn send_search(&mut self, fx: &mut Effects<W>)
        ensures
            final(self)@ == old(self)@.send_search().0,
            final(fx)@ == old(fx)@.followed_by(old(self)@.send_search().1),
    {
        let (source, sink) = new_search_token();
        fx.send(
            Request::Search {
                query: self.state.ui.query.clone(),
                kind: self.state.ui.search_kind,
                token: source,
            },
        );
        self.state.ui.pending_search_token = Some(sink);
    }

    pub(crate) fn refresh_entries(&mut self, fx: &mut Effects<W>)
        ensures
            final(self)@ == old(self)@.refresh_entries().0,
            final(fx)@ == old(fx)@.followed_by(old(self)@.refresh_entries().1),
    {
        self.state.ui.last_error = None;
        fx.send(Request::LoadFirstPage);
        if !self.state.ui.query.as_str().is_empty() {
            self.send_search(fx);
        }
    }

    /// The rows on screen, top to bottom.
    pub fn render_order(&self) -> (r: Vec<&Entry<P>>)
        ensures
            r@.unref() == self@.render_order(),
    {
        if self.show_sections() {
            let (mut pinned, mut unpinned) = self.partitioned_entries();
            if self.state.ui.pinned_expanded {
                let ghost p = pinned@;
                let ghost u = unpinned@;
                pinned.append(&mut unpinned);
                assert(pinned@.unref() =~= p.unref() + u.unref());
                pinned
            } else {
                unpinned
            }
        } else {
            self.filtered_entries()
        }
    }

    /// Keeps `id`'s row roughly in view, where it is on screen.
    pub(crate) fn scroll_to_entry(&self, id: u64, fx: &mut Effects<W>)
        ensures
            final(fx)@ == old(fx)@.followed_by(self@.scroll_to_entry(id)),
    {
        proof {
            reveal(AppModel::scroll_to_entry);
        }
        let rows = self.render_order();
        let idx = index_of_id(rows.as_slice(), id);
        match idx {
            Some(i) => {
                let before = rows_height_of(self.state.ui.details_requested, rows.as_slice(), i);
                let total = rows_height_of(
                    self.state.ui.details_requested,
                    rows.as_slice(),
                    rows.len(),
                );
                proof {
                    assert(rows@.unref().take(rows@.len() as int) =~= rows@.unref());
                }
                fx.task(UiTask::ScrollTo { before, total });
            },
            None => {},
        }
    }

    /// Keeps the highlighted entry roughly in view after keyboard navigation.
    pub(crate) fn scroll_to_highlighted(&self, fx: &mut Effects<W>)
        ensures
            final(fx)@ == old(fx)@.followed_by(self@.scroll_to_highlighted()),
    {
        match self.current_highlight_id() {
            Some(id) => self.scroll_to_entry(id, fx),
            None => {},
        }
    }

    /// The favorite that `id` would swap places with: the one before it
    /// (`up`) or after it among the pinned favorites.
    fn swap_partner(&self, id: u64, up: bool) -> (r: Option<u64>)
        ensures
            ({
                let pinned = ids_of(self@.pinned());
                match position(pinned, id) {
                    Some(pos) => if up {
                        if pos > 0 {
                            r == Some(pinned[pos - 1])
                        } else {
                            r is None
                        }
                    } else {
                        if pos + 1 < pinned.len() {
                            r == Some(pinned[pos + 1])
                        } else {
                            r is None
                        }
                    },
                    None => r is None,
                }
            }),
    {
        let (pinned, _) = self.partitioned_entries();
        match index_of_id(pinned.as_slice(), id) {
            Some(pos) => {
                if up {
                    if pos > 0 {
                        Some(pinned[pos - 1].id)
                    } else {
                        None
                    }
                } else {
                    if pos < pinned.len() - 1 {
                        Some(pinned[pos + 1].id)
                    } else {
                        None
                    }
                }
            },
            None => None,
        }
    }

    pub(crate) fn move_favorite_up(&mut self, id: u64, fx: &mut Effects<W>)
        ensures
            final(self)@ == old(self)@.move_favorite_up(id).0,
            final(fx)@ == old(fx)@.followed_by(old(self)@.move_favorite_up(id).1),
    {
        match self.swap_partner(id, true) {
            Some(prev_id) => {
                fx.send(Request::Swap(id, prev_id));
                self.state.ui.highlighted_id = Some(id);
                self.refresh_entries(fx);
            },
            None => {},
        }
    }

    pub(crate) fn move_favorite_down(&mut self, id: u64, fx: &mut Effects<W>)
        ensures
            final(self)@ == old(self)@.move_favorite_down(id).0,
            final(fx)@ == old(fx)@.followed_by(old(self)@.move_favorite_down(id).1),
    {
        match self.swap_partner(id, false) {
            Some(next_id) => {
                fx.send(Request::Swap(id, next_id));
                self.state.ui.highlighted_id = Some(id);
                self.refresh_entries(fx);
            },
            None => {},
        }
    }

    pub(crate) fn toggle_favorite(&mut self, id: u64, fx: &mut Effects<W>)
        ensures
            final(self)@ == old(self)@.toggle_favorite(id).0,
            final(fx)@ == old(fx)@.followed_by(old(self)@.toggle_favorite(id).1),
    {
        let favorite = match self.find_entry(id) {
            Some(e) => e.ring == Ring::Favorites,
            None => false,
        };
        if favorite {
            fx.send(Request::Unfavorite(id));
        } else {
            fx.send(Request::Favorite(id));
        }
        self.refresh_entries(fx);
    }

    pub(crate) fn delete(&mut self, id: u64, fx: &mut Effects<W>)
        ensures
            final(self)@ == old(self)@.delete(id).0,
            final(fx)@ == old(fx)@.followed_by(old(self)@.delete(id).1),
    {
        fx.send(Request::Delete(id));
        if self.state.ui.query.as_str().is_empty() {
            self.state.ui.highlighted_id = None;
        } else {
            self.state.ui.search_highlighted_id = None;
        }
        self.refresh_entries(fx);
    }

    fn request_details(&mut self, id: u64, fx: &mut Effects<W>)
        ensures
            final(self)@ == old(self)@.request_details(id).0,
            final(fx)@ == old(fx)@.followed_by(old(self)@.request_details(id).1),
    {
        let (has_text, is_image) = match self.find_entry(id) {
            Some(e) => (e.kind.is_text(), e.kind == EntryKind::Image),
            None => (false, false),
        };
        self.state.ui.details_requested = Some(id);
        self.state.ui.detailed_entry = None;
        fx.send(Request::GetDetails { id, with_text: has_text });
        if is_image {
            if self.detail_images.request(id) {
                fx.send(Request::LoadImage(id));
            }
        }
    }

    pub(crate) fn open_detail(&mut self, id: u64, fx: &mut Effects<W>)
        ensures
            final(self)@ == old(self)@.open_detail(id).0,
            final(fx)@ == old(fx)@.followed_by(old(self)@.open_detail(id).1),
    {
        let already = match self.state.ui.details_requested {
            Some(d) => d == id,
            None => false,
        };
        if !already {
            self.request_details(id, fx);
            self.scroll_to_entry(id, fx);
        }
    }

    /// The state after the window was hidden (see [`AppModel::reset`]).
    pub(crate) fn reset_state(&mut self)
        ensures
            final(self)@ == old(self)@.reset(),
    {
        self.state.ui.query = String::new();
        self.state.entries.search_results = Vec::new();
        self.state.ui.highlighted_id = None;
        self.state.ui.search_highlighted_id = None;
        self.state.ui.hovered_id = None;
        self.state.ui.pinned_expanded = false;
        self.state.ui.input_active = true;
        self.state.ui.details_requested = None;
        self.state.ui.detailed_entry = None;
        self.state.ui.last_error = None;
        self.state.ui.pending_search_token = None;
        assert(self@ =~= old(self)@.reset());
    }

    pub(crate) fn hide_window(&mut self, id: W, fx: &mut Effects<W>)
        ensures
            final(self)@ == old(self)@.hide_window(id).0,
            final(fx)@ == old(fx)@.followed_by(old(self)@.hide_window(id).1),
    {
        self.reset_state();
        self.thumbnails.clear();
        self.detail_images.clear();
        fx.task(UiTask::Minimize(id, true));
    }

    /// Ends the process, after the window's runtime stops its background
    /// work.
    pub(crate) fn exit(&self, fx: &mut Effects<W>)
        ensures
            final(fx)@ == old(fx)@.followed_by(EffectsModel::task(UiTask::Exit)),
    {
        fx.task(UiTask::Exit);
    }

    /// Hides the window where it runs in the background and its id is
    /// known; ends the process otherwise.
    pub(crate) fn close_or_hide(&mut self, fx: &mut Effects<W>)
        ensures
            final(self)@ == old(self)@.close_or_hide().0,
            final(fx)@ == old(fx)@.followed_by(old(self)@.close_or_hide().1),
    {
        match self.window_id {
            Some(id) => {
                if self.daemon {
                    self.hide_window(id, fx);
                } else {
                    self.exit(fx);
                }
            },
            None => self.exit(fx),
        }
    }

    pub(crate) fn note_window(&mut self, id: W)
        ensures
            final(self)@ == old(self)@.note_window(id),
    {
        if self.window_id.is_none() {
            self.window_id = Some(id);
        }
    }

    pub(crate) fn handle_window_event(&mut self, id: W, event: crate::model::WindowEvent, fx: &mut Effects<W>)
        ensures
            final(self)@ == old(self)@.window_event(id, event).0,
            final(fx)@ == old(fx)@.followed_by(old(self)@.window_event(id, event).1),
    {
        self.note_window(id);
        match event {
            crate::model::WindowEvent::Focused => {
                self.state.ui.input_active = true;
                fx.task(UiTask::FocusSearch);
            },
            crate::model::WindowEvent::Unfocused => {
                if self.daemon {
                    self.hide_window(id, fx);
                }
            },
            crate::model::WindowEvent::CloseRequested => {
                if self.daemon {
                    self.hide_window(id, fx);
                } else {
                    self.exit(fx);
                }
            },
            _ => {},
        }
    }

    /// Called when another launch asked the window to show itself.
    pub(crate) fn wake(&mut self, fx: &mut Effects<W>)
        ensures
            final(self)@ == old(self)@.wake().0,
            final(fx)@ == old(fx)@.followed_by(old(self)@.wake().1),
    {
        match self.window_id {
            Some(id) => {
                fx.task(UiTask::Minimize(id, false));
                fx.task(UiTask::GainFocus(id));
                self.refresh_entries(fx);
            },
            None => {},
        }
    }

    pub(crate) fn toggle_detail(&self, fx: &mut Effects<W>)
        ensures
            final(fx)@ == old(fx)@.followed_by(self@.toggle_detail()),
    {
        match self.current_highlight_id() {
            Some(id) => {
                let open = match self.state.ui.details_requested {
                    Some(d) => d == id,
                    None => false,
                };
                if open {
                    fx.task(UiTask::Follow(Followup::DetailClosed));
                } else {
                    fx.task(UiTask::Follow(Followup::DetailRequested(id)));
                }
            },
            None => {},
        }
    }

    pub(crate) fn select_tab(&mut self, tab: Tab, fx: &mut Effects<W>)
        ensures
            final(self)@ == old(self)@.select_tab(tab).0,
            final(fx)@ == old(fx)@.followed_by(old(self)@.select_tab(tab).1),
    {
        self.state.ui.active_tab = tab;
        self.state.ui.highlighted_id = None;
        self.state.ui.search_highlighted_id = None;
        if tab == Tab::Settings && !self.state.settings.loaded {
            fx.task(UiTask::LoadSettings);
        }
    }

    pub(crate) fn cycle_tab(&mut self, delta: i8, fx: &mut Effects<W>)
        ensures
            final(self)@ == old(self)@.cycle_tab(delta as int).0,
            final(fx)@ == old(fx)@.followed_by(old(self)@.cycle_tab(delta as int).1),
    {
        let current = position_of_tab(self.state.ui.active_tab);
        let shifted: u32 = (current as i32 + delta as i32 + 130) as u32;
        let next = (shifted % 5) as usize;
        proof {
            let x = tab_index(self.state.ui.active_tab) + delta as int;
            assert((x + 130) % 5 == x % 5) by (nonlinear_arith);
        }
        let tab = tab_at(next);
        self.select_tab(tab, fx);
    }

    pub(crate) fn toggle_search_kind(&mut self, fx: &mut Effects<W>)
        ensures
            final(self)@ == old(self)@.toggle_search_kind().0,
            final(fx)@ == old(fx)@.followed_by(old(self)@.toggle_search_kind().1),
    {
        self.state.ui.search_kind = match self.state.ui.search_kind {
            SearchKind::Plain => SearchKind::Regex,
            SearchKind::Regex => SearchKind::Mime,
            SearchKind::Mime => SearchKind::Plain,
        };
        if !self.state.ui.query.as_str().is_empty() {
            self.send_search(fx);
        }
    }

    pub(crate) fn refresh(&mut self, fx: &mut Effects<W>)
        ensures
            final(self)@ == old(self)@.refresh().0,
            final(fx)@ == old(fx)@.followed_by(old(self)@.refresh().1),
    {
        self.state.ui.last_error = None;
        self.state.ui.highlighted_id = None;
        self.state.ui.search_highlighted_id = None;
        self.thumbnails.clear();
        self.detail_images.clear();
        self.refresh_entries(fx);
    }

    pub(crate) fn handle_search_changed(&mut self, query: String, fx: &mut Effects<W>)
        ensures
            final(self)@ == old(self)@.search_changed(query@).0,
            final(fx)@ == old(fx)@.followed_by(old(self)@.search_changed(query@).1),
    {
        self.state.ui.last_error = None;
        if query.as_str().is_empty() {
            self.state.ui.query = String::new();
            self.state.entries.search_results = Vec::new();
            self.state.ui.search_highlighted_id = None;
            self.state.ui.pending_search_token = None;
            assert(self@ =~= old(self)@.search_changed(query@).0);
        } else {
            self.state.ui.query = query;
            self.send_search(fx);
        }
    }

    pub(crate) fn save_settings(&mut self, fx: &mut Effects<W>)
        ensures
            final(self)@ == old(self)@.save_settings().0,
            final(fx)@ == old(fx)@.followed_by(old(self)@.save_settings().1),
    {
        let main_text = trim(chars_of(self.state.settings.max_main_entries.as_str()).as_slice());
        let max_main = match parse_positive_u32(main_text.as_slice()) {
            Some(v) => v,
            None => {
                self.state.settings.status = Some(
                    Err(String::from_str("Max main entries must be a positive number")),
                );
                return ;
            },
        };
        let favorites_text = trim(
            chars_of(self.state.settings.max_favorite_entries.as_str()).as_slice(),
        );
        let max_favorites = match parse_positive_u32(favorites_text.as_slice()) {
            Some(v) => v,
            None => {
                self.state.settings.status = Some(
                    Err(String::from_str("Max favorite entries must be a positive number")),
                );
                return ;
            },
        };
        self.state.settings.saving = true;
        self.state.settings.status = None;
        fx.task(UiTask::SaveSettings { main: max_main, favorites: max_favorites });
    }

    pub(crate) fn run_gc(&mut self, fx: &mut Effects<W>)
        ensures
            final(self)@ == old(self)@.run_gc().0,
            final(fx)@ == old(fx)@.followed_by(old(self)@.run_gc().1),
    {
        let text = trim(chars_of(self.state.settings.gc_max_wasted_bytes.as_str()).as_slice());
        let max_wasted_bytes = match parse_u64(text.as_slice()) {
            Some(v) => v,
            None => {
                self.state.settings.status = Some(
                    Err(String::from_str("Max wasted bytes must be a non-negative number")),
                );
                return ;
            },
        };
        self.state.settings.running_gc = true;
        self.state.settings.status = None;
        fx.send(Request::GarbageCollect { max_wasted_bytes });
    }

    pub(crate) fn handle_settings_loaded(&mut self, result: Result<(u32, u32), String>)
        ensures
            final(self)@ == old(self)@.settings_loaded(
                match result {
                    Ok(v) => Ok(v),
                    Err(e) => Err(e@),
                },
            ),
    {
        match result {
            Ok((main, favorites)) => {
                self.state.settings.max_main_entries = decimal_string(main as u64);
                self.state.settings.max_favorite_entries = decimal_string(favorites as u64);
            },
            Err(e) => {
                self.state.settings.status = Some(Err(e));
            },
        }
        self.state.settings.loaded = true;
    }

    pub(crate) fn handle_settings_saved(&mut self, result: Result<(), String>)
        ensures
            final(self)@ == old(self)@.settings_saved(
                match result {
                    Ok(v) => Ok(v),
                    Err(e) => Err(e@),
                },
            ),
    {
        self.state.settings.saving = false;
        self.state.settings.status = Some(
            match result {
                Ok(()) => Ok(String::from_str("Saved. Restart the Ringboard server to apply.")),
                Err(e) => Err(e),
            },
        );
    }
}

/// Appends the ids of `list` to `out`, in order.
pub fn push_ids<P>(out: &mut Vec<u64>, list: &[Entry<P>])
    ensures
        final(out)@ == old(out)@ + ids_of(list@),
{
    let mut i: usize = 0;
    while i < list.len()
        invariant
            i <= list@.len(),
            out@ == old(out)@ + ids_of(list@.take(i as int)),
        decreases list@.len() - i,
    {
        out.push(list[i].id);
        proof {
            assert(ids_of(list@.take(i + 1)) =~= ids_of(list@.take(i as int)).push(list@[i as int].id));
            assert(out@ =~= old(out)@ + ids_of(list@.take(i + 1)));
        }
        i += 1;
    }
    proof {
        assert(list@.take(list@.len() as int) =~= list@);
    }
}

impl<P, H, W: Copy> RingboardApp<P, H, W> {
    /// Asks for the thumbnail of each image entry of `entries` that is not
    /// held or asked for yet.
    pub(crate) fn request_images(&mut self, entries: &[Entry<P>], fx: &mut Effects<W>)
        ensures
            final(self)@ == (AppModel {
                thumbnails: request_thumbnails::<H, W, P>(old(self)@.thumbnails, entries@).0,
                ..old(self)@
            }),
            final(fx)@ == old(fx)@.followed_by(
                request_thumbnails::<H, W, P>(old(self)@.thumbnails, entries@).1,
            ),
    {
        let mut i: usize = 0;
        while i < entries.len()
            invariant
                i <= entries@.len(),
                self@ == (AppModel {
                    thumbnails: request_thumbnails::<H, W, P>(
                        old(self)@.thumbnails,
                        entries@.take(i as int),
                    ).0,
                    ..old(self)@
                }),
                fx@ == old(fx)@.followed_by(
                    request_thumbnails::<H, W, P>(
                        old(self)@.thumbnails,
                        entries@.take(i as int),
                    ).1,
                ),
            decreases entries@.len() - i,
        {
            proof {
                assert(entries@.take(i + 1).drop_last() =~= entries@.take(i as int));
                assert(entries@.take(i + 1).last() == entries@[i as int]);
            }
            let e = &entries[i];
            if e.kind == EntryKind::Image {
                if self.thumbnails.request(e.id) {
                    fx.send(Request::LoadImage(e.id));
                }
            }
            i += 1;
        }
        proof {
            assert(entries@.take(entries@.len() as int) =~= entries@);
        }
    }

    /// Drops the thumbnails of entries that are no longer listed: ids are
    /// reused once ring slots are freed, so a stale thumbnail would show for
    /// new content.
    pub(crate) fn prune_image_caches(&mut self)
        ensures
            final(self)@ == old(self)@.prune_image_caches(),
    {
        let mut live: Vec<u64> = Vec::new();
        push_ids(&mut live, self.state.entries.loaded_entries.as_slice());
        push_ids(&mut live, self.state.entries.search_results.as_slice());
        proof {
            assert(live@ =~= ids_of(self@.loaded + self@.results));
        }
        self.thumbnails.retain(live.as_slice());
    }

    /// Takes the search token where the search has finished; the result
    /// says whether it had. With no search in flight nothing has finished;
    /// whether one in flight has is what the search thread's flag says.
    fn settle_search(&mut self) -> (done: bool)
        ensures
            done ==> old(self)@.searching,
            final(self)@ == (AppModel { searching: old(self)@.searching && !done, ..old(self)@ }),
    {
        let done = match &self.state.ui.pending_search_token {
            Some(token) => search_is_done(token),
            None => false,
        };
        if done {
            self.state.ui.pending_search_token = None;
        }
        done
    }

    /// Routes an arrived image file to the pipeline waiting on it (the
    /// detail pipeline first), and handles every other event of the server.
    pub fn handle_incoming_controller_message(&mut self, event: ControllerEvent<P>, fx: &mut Effects<W>)
        ensures
            exists|done: bool|
                {
                    &&& final(self)@ == #[trigger] old(self)@.controller(event.model(), done).0
                    &&& final(fx)@ == old(fx)@.followed_by(
                        old(self)@.controller(event.model(), done).1,
                    )
                },
    {
        let ghost before = self@;
        let ghost ev = event.model();
        match event {
            ControllerEvent::LoadedImage { id } => {
                if self.detail_images.claim(id) {
                    fx.task(UiTask::DecodeImage { id, kind: ImageKind::Detail });
                } else {
                    assert(before.detail_images.pending.remove(id) =~= before.detail_images.pending);
                    if self.thumbnails.claim(id) {
                        fx.task(UiTask::DecodeImage { id, kind: ImageKind::Thumbnail });
                    } else {
                        assert(before.thumbnails.pending.remove(id) =~= before.thumbnails.pending);
                    }
                }
                assert(self@ == before.controller(ev, false).0);
            },
            _ => self.handle_controller_message(event, fx),
        }
    }

    fn on_error(&mut self, e: clipboard_history_client_sdk::ui_actor::CommandError) -> (done: bool)
        ensures
            final(self)@ == old(self)@.controller(crate::model::ControllerEventModel::Error(e), done).0,
    {
        self.state.settings.running_gc = false;
        let done = self.settle_search();
        self.state.ui.last_error = Some(crate::state::UiError::Command(e));
        done
    }

    fn on_loaded_first_page(
        &mut self,
        entries: Vec<Entry<P>>,
        default_focused_id: Option<u64>,
        fx: &mut Effects<W>,
    )
        ensures
            final(self)@ == old(self)@.loaded_first_page(entries@, default_focused_id).0,
            final(fx)@ == old(fx)@.followed_by(
                old(self)@.loaded_first_page(entries@, default_focused_id).1,
            ),
    {
        if self.state.ui.highlighted_id.is_none() {
            self.state.ui.highlighted_id = match default_focused_id {
                Some(id) => Some(id),
                None => if entries.len() > 0 {
                    Some(entries[0].id)
                } else {
                    None
                },
            };
        }
        self.request_images(entries.as_slice(), fx);
        self.state.entries.loaded_entries = entries;
        self.prune_image_caches();
    }

    fn on_search_results(&mut self, entries: Vec<Entry<P>>, fx: &mut Effects<W>) -> (done: bool)
        ensures
            final(self)@ == old(self)@.search_results(entries@, done).0,
            final(fx)@ == old(fx)@.followed_by(old(self)@.search_results(entries@, done).1),
    {
        if self.state.ui.pending_search_token.is_none() {
            return false;
        }
        let done = self.settle_search();
        self.state.ui.search_highlighted_id = if entries.len() > 0 {
            Some(entries[0].id)
        } else {
            None
        };
        self.request_images(entries.as_slice(), fx);
        self.state.entries.search_results = entries;
        self.prune_image_caches();
        done
    }

    fn on_entry_details(
        &mut self,
        id: u64,
        result: Option<clipboard_history_client_sdk::ui_actor::DetailedEntry>,
        fx: &mut Effects<W>,
    )
        ensures
            final(self)@ == old(self)@.controller(
                crate::model::ControllerEventModel::EntryDetails { id, result },
                false,
            ).0,
            final(fx)@ == old(fx)@.followed_by(
                old(self)@.controller(
                    crate::model::ControllerEventModel::EntryDetails { id, result },
                    false,
                ).1,
            ),
    {
        let open = match self.state.ui.details_requested {
            Some(d) => d == id,
            None => false,
        };
        if open {
            self.state.ui.detailed_entry = result;
            self.scroll_to_entry(id, fx);
        }
    }

    fn on_favorite_change(&mut self, id: u64, fx: &mut Effects<W>)
        ensures
            final(self)@ == old(self)@.controller(
                crate::model::ControllerEventModel::FavoriteChange(id),
                false,
            ).0,
            final(fx)@ == old(fx)@.followed_by(
                old(self)@.controller(crate::model::ControllerEventModel::FavoriteChange(id), false).1,
            ),
    {
        if self.state.ui.query.as_str().is_empty() {
            self.state.ui.highlighted_id = Some(id);
        } else {
            self.state.ui.search_highlighted_id = Some(id);
        }
        self.thumbnails.remove(id);
        self.refresh_entries(fx);
    }

    fn on_deleted(&mut self, id: u64, fx: &mut Effects<W>)
        ensures
            final(self)@ == old(self)@.controller(crate::model::ControllerEventModel::Deleted(id), false).0,
            final(fx)@ == old(fx)@.followed_by(
                old(self)@.controller(crate::model::ControllerEventModel::Deleted(id), false).1,
            ),
    {
        self.thumbnails.remove(id);
        self.detail_images.remove(id);
        self.refresh_entries(fx);
    }

    fn on_garbage_collected(&mut self, bytes_freed: u64, fx: &mut Effects<W>)
        ensures
            final(self)@ == old(self)@.controller(
                crate::model::ControllerEventModel::GarbageCollected { bytes_freed },
                false,
            ).0,
            final(fx)@ == old(fx)@.followed_by(
                old(self)@.controller(
                    crate::model::ControllerEventModel::GarbageCollected { bytes_freed },
                    false,
                ).1,
            ),
    {
        self.state.settings.running_gc = false;
        let mut message = String::from_str("Freed ");
        crate::text::push_decimal(&mut message, bytes_freed);
        message.append(" bytes.");
        self.state.settings.status = Some(Ok(message));
        self.refresh_entries(fx);
    }

    /// Handles every event of the server but an arrived image file, which
    /// changes nothing here (it is routed where it arrives).
    pub(crate) fn handle_controller_message(&mut self, event: ControllerEvent<P>, fx: &mut Effects<W>)
        ensures
            event is LoadedImage ==> final(self)@ == old(self)@ && final(fx)@ == old(fx)@,
            !(event is LoadedImage) ==> exists|done: bool|
                {
                    &&& final(self)@ == #[trigger] old(self)@.controller(event.model(), done).0
                    &&& final(fx)@ == old(fx)@.followed_by(
                        old(self)@.controller(event.model(), done).1,
                    )
                },
    {
        let ghost before = self@;
        let ghost fx_before = fx@;
        let ghost ev = event.model();
        let ghost mut done_witness = false;
        match event {
            ControllerEvent::FatalDbOpen(e) => {
                self.state.ui.fatal_error = Some(e);
            },
            ControllerEvent::Error(e) => {
                let done = self.on_error(e);
                proof {
                    done_witness = done;
                }
            },
            ControllerEvent::LoadedFirstPage { entries, default_focused_id } => {
                self.on_loaded_first_page(entries, default_focused_id, fx);
            },
            ControllerEvent::EntryDetails { id, result } => {
                self.on_entry_details(id, result, fx);
            },
            ControllerEvent::SearchResults(entries) => {
                let done = self.on_search_results(entries, fx);
                proof {
                    done_witness = done;
                }
            },
            ControllerEvent::FavoriteChange(id) => self.on_favorite_change(id, fx),
            ControllerEvent::Deleted(id) => self.on_deleted(id, fx),
            ControllerEvent::LoadedImage { .. } => {
                return ;
            },
            ControllerEvent::Pasted => self.close_or_hide(fx),
            ControllerEvent::Swapped => self.refresh_entries(fx),
            ControllerEvent::GarbageCollected { bytes_freed } => {
                self.on_garbage_collected(bytes_freed, fx);
            },
        }
        assert(self@ == before.controller(ev, done_witness).0);
        assert(fx@ == fx_before.followed_by(before.controller(ev, done_witness).1));
    }
}

} // verus!
