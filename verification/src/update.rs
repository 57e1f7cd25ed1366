//! The window's update function, and the handling of decoded images.

use vstd::prelude::*;

use crate::app::RingboardApp;
use crate::model::{AppModel, Effects, ImageKind, Msg, UiTask};
use crate::outside::{thumbnail, thumbnail_rgba};
use crate::state::UiError;

verus! {

broadcast use crate::model::group_effects;

/// The width that row thumbnails are scaled to fit.
pub const THUMBNAIL_WIDTH: u32 = 320;

/// The height that row thumbnails are scaled to fit: no limit (`u32::MAX`)
/// where a thumbnail [`THUMBNAIL_WIDTH`] pixels wide and that tall fits in
/// memory, as on every 64-bit machine; on a narrower `usize`, the tallest
/// that fits.
pub open spec fn thumbnail_max_height() -> u32 {
    let fitting: int = usize::MAX as int / (4 * THUMBNAIL_WIDTH as int);
    if fitting < u32::MAX {
        fitting as u32
    } else {
        u32::MAX
    }
}

fn thumbnail_height_limit() -> (r: u32)
    ensures
        r == thumbnail_max_height(),
        1 <= r,
        4 * THUMBNAIL_WIDTH * r <= usize::MAX,
{
    let fitting: u64 = usize::MAX as u64 / (4 * THUMBNAIL_WIDTH as u64);
    assert(usize::MAX >= u32::MAX);
    assert(4 * THUMBNAIL_WIDTH * fitting <= usize::MAX) by (nonlinear_arith)
        requires
            fitting == usize::MAX as u64 / 1280u64,
            THUMBNAIL_WIDTH == 320;
    if fitting < u32::MAX as u64 {
        fitting as u32
    } else {
        u32::MAX
    }
}

/// The pixels of a decoded image, ready to upload: width, height and RGBA
/// bytes.
pub type RgbaPixels = (u32, u32, Vec<u8>);

impl<P, H, W: Copy> RingboardApp<P, H, W> {
    /// Handles a message: the state changes as [`AppModel::step`] says, and
    /// what it sends is appended to `fx`.
    pub fn update(&mut self, msg: Msg<P, W>, fx: &mut Effects<W>)
        ensures
            exists|done: bool|
                {
                    &&& final(self)@ == #[trigger] old(self)@.step(msg, done).0
                    &&& final(fx)@ == old(fx)@.followed_by(old(self)@.step(msg, done).1)
                },
    {
        let ghost before = self@;
        let ghost fx_before = fx@;
        let ghost message = msg;
        match msg {
            Msg::Controller(event) => {
                let ghost ev = event;
                self.handle_incoming_controller_message(event, fx);
                proof {
                    let d = choose|d: bool|
                        {
                            &&& self@ == #[trigger] before.controller(ev.model(), d).0
                            &&& fx@ == fx_before.followed_by(before.controller(ev.model(), d).1)
                        };
                    assert(self@ == before.step(message, d).0);
                }
                return ;
            },
            Msg::KeyEvent(event) => self.handle_key_event(event, fx),
            Msg::WindowEvent(id, event) => self.handle_window_event(id, event, fx),
            Msg::WindowIdResolved(id) => {
                match id {
                    Some(id) => self.note_window(id),
                    None => {},
                }
            },
            Msg::WakeRequested => self.wake(fx),
            Msg::SearchChanged(query) => self.handle_search_changed(query, fx),
            Msg::SearchKindToggled => self.toggle_search_kind(fx),
            Msg::TabSelected(tab) => self.select_tab(tab, fx),
            Msg::TabNext => self.cycle_tab(1, fx),
            Msg::TabPrev => self.cycle_tab(-1, fx),
            Msg::PinnedToggled => {
                self.state.ui.pinned_expanded = !self.state.ui.pinned_expanded;
            },
            Msg::EntryClicked(id) => {
                self.state.ui.input_active = false;
                self.paste(id, fx);
            },
            Msg::FavPaste(id) => {
                self.state.ui.input_active = false;
                self.paste(id, fx);
            },
            Msg::FavoriteToggled(id) => self.toggle_favorite(id, fx),
            Msg::DeleteEntry(id) => self.delete(id, fx),
            Msg::DetailRequested(id) => self.open_detail(id, fx),
            Msg::DetailClosed => self.close_detail(),
            Msg::SearchInputFocusRequested => {
                self.state.ui.input_active = true;
                fx.task(UiTask::FocusSearch);
            },
            Msg::MoveFavoriteUp(id) => self.move_favorite_up(id, fx),
            Msg::MoveFavoriteDown(id) => self.move_favorite_down(id, fx),
            Msg::Refresh => self.refresh(fx),
            Msg::DismissError => {
                self.state.ui.last_error = None;
            },
            Msg::EntryHovered(id) => {
                self.state.ui.hovered_id = id;
            },
            Msg::SettingsLoaded(result) => self.handle_settings_loaded(result),
            Msg::SettingsMaxMainChanged(value) => {
                self.state.settings.max_main_entries = value;
            },
            Msg::SettingsMaxFavoritesChanged(value) => {
                self.state.settings.max_favorite_entries = value;
            },
            Msg::SettingsSaveRequested => self.save_settings(fx),
            Msg::SettingsSaved(result) => self.handle_settings_saved(result),
            Msg::SettingsGcBytesChanged(value) => {
                self.state.settings.gc_max_wasted_bytes = value;
            },
            Msg::SettingsGcRequested => self.run_gc(fx),
        }
        assert(self@ == before.step(message, false).0);
        assert(fx@ == fx_before.followed_by(before.step(message, false).1));
    }

    /// Closes the details view and drops its full-size image.
    pub(crate) fn close_detail(&mut self)
        ensures
            final(self)@ == old(self)@.close_detail().0,
    {
        match self.state.ui.details_requested {
            Some(id) => self.detail_images.remove(id),
            None => {},
        }
        self.state.ui.details_requested = None;
        self.state.ui.detailed_entry = None;
    }

    /// A decoded image, as RGBA pixels (or the decoder's error), for a
    /// pipeline: thumbnails are scaled to fit [`THUMBNAIL_WIDTH`] (by
    /// [`thumbnail_max_height`]) first, detail images keep their size. The pixels come back for upload; a
    /// failed decode shows its message on the error line.
    pub fn handle_image_decoded(&mut self, kind: ImageKind, result: Result<RgbaPixels, String>) -> (r: Option<RgbaPixels>)
        requires
            result matches Ok(p) ==> p.2@.len() >= 4 * p.0 * p.1,
        ensures
            result is Ok ==> final(self)@ == old(self)@,
            result matches Ok(p) ==> (kind == ImageKind::Detail ==> r == Some(p)),
            result matches Ok(p) ==> (kind == ImageKind::Thumbnail ==> (r matches Some(q) && (
                q.0,
                q.1,
                q.2@,
            ) == thumbnail_rgba(p.0, p.1, p.2@, THUMBNAIL_WIDTH, thumbnail_max_height()))),
            result matches Err(e) ==> r is None && final(self)@ == old(self)@.decode_failed(e@),
    {
        match result {
            Ok(pixels) => match kind {
                ImageKind::Thumbnail => {
                    let (width, height, rgba) = pixels;
                    let max_height = thumbnail_height_limit();
                    Some(thumbnail(width, height, rgba.as_slice(), THUMBNAIL_WIDTH, max_height))
                },
                ImageKind::Detail => Some(pixels),
            },
            Err(e) => {
                self.state.ui.last_error = Some(UiError::ImageDecode(e));
                None
            },
        }
    }

    /// Holds an uploaded image in its pipeline; a new detail image of the
    /// entry whose details are open keeps that row in view.
    pub fn store_image(&mut self, id: u64, kind: ImageKind, handle: H, fx: &mut Effects<W>)
        ensures
            final(self)@ == old(self)@.store_image(id, kind, handle).0,
            final(fx)@ == old(fx)@.followed_by(old(self)@.store_image(id, kind, handle).1),
    {
        match kind {
            ImageKind::Thumbnail => self.thumbnails.insert(id, handle),
            ImageKind::Detail => {
                self.detail_images.insert(id, handle);
                let open = match self.state.ui.details_requested {
                    Some(d) => d == id,
                    None => false,
                };
                if open {
                    self.scroll_to_entry(id, fx);
                }
            },
        }
    }
}

} // verus!
