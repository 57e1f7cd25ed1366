//! The keyboard: what each key does to the highlight, the search box, the
//! details view and the Favorites section.

use vstd::prelude::*;

use crate::app::RingboardApp;
use crate::entries::{
    first_entry_id, first_id, ids_of, index_of_id, last_id, page_down_of, page_up_of, last_entry_id, next_id, page_down_id, page_up_id,
    prev_id, tab_at, Entry,
};
use crate::model::{
    AppModel, Effects, Followup, Key, KeyEvent, Modifiers, Msg, UiTask,
};
use crate::text::{chars_of, first_digit, letter_is};

verus! {

broadcast use crate::model::group_effects;

/// Whether some entry of `list` has `id`.
fn lists_id<P>(list: &[&Entry<P>], id: u64) -> (r: bool)
    ensures
        r == ids_of(list@.unref()).contains(id),
{
    match index_of_id(list, id) {
        Some(i) => {
            assert(ids_of(list@.unref())[i as int] == id);
            true
        },
        None => false,
    }
}

impl<P, H, W: Copy> RingboardApp<P, H, W> {
    /// Whether the details view of `id` has more to show than its row.
    pub(crate) fn entry_has_extra_detail(&self, id: u64) -> (r: bool)
        ensures
            r == self@.has_extra_detail(id),
    {
        match self.find_entry(id) {
            Some(e) => e.kind.has_extra_detail(),
            None => false,
        }
    }

    fn finish_nav(
        &mut self,
        current: Option<u64>,
        new_id: Option<u64>,
        set_pinned: Option<bool>,
        fx: &mut Effects<W>,
    )
        ensures
            final(self)@ == old(self)@.finish_nav(current, new_id, set_pinned).0,
            final(fx)@ == old(fx)@.followed_by(old(self)@.finish_nav(current, new_id, set_pinned).1),
    {
        let moved = match new_id {
            Some(n) => match current {
                Some(c) => n != c,
                None => true,
            },
            None => false,
        };
        let ghost m0 = self@;
        let ghost m1 = if moved {
            AppModel { input_active: false, ..m0 }
        } else {
            m0
        };
        if moved {
            self.state.ui.input_active = false;
        }
        assert(self@ == m1);
        self.set_highlight(new_id);
        let ghost m2 = m1.with_highlight(new_id);
        let ghost m3 = match set_pinned {
            Some(e) => AppModel { pinned_expanded: e, ..m2 },
            None => m2,
        };
        match set_pinned {
            Some(expanded) => {
                self.state.ui.pinned_expanded = expanded;
            },
            None => {},
        }
        assert(self@ == m3);
        assert(m0.finish_nav(current, new_id, set_pinned).0 == m3);
        if moved {
            self.scroll_to_highlighted(fx);
        }
    }

    /// Highlights `id` in the list on screen.
    pub(crate) fn set_highlight(&mut self, id: Option<u64>)
        ensures
            final(self)@ == old(self)@.with_highlight(id),
    {
        if self.state.ui.query.as_str().is_empty() {
            self.state.ui.highlighted_id = id;
        } else {
            self.state.ui.search_highlighted_id = id;
        }
    }

    /// Whether moving to `new_id` expands the collapsed Favorites section.
    fn expand_for(&self, new_id: Option<u64>) -> (r: Option<bool>)
        ensures
            r == self@.expand_for(new_id),
    {
        if self.show_sections() && !self.state.ui.pinned_expanded {
            match new_id {
                Some(id) => {
                    let (pinned, _unpinned) = self.partitioned_entries();
                    if lists_id(pinned.as_slice(), id) {
                        Some(true)
                    } else {
                        None
                    }
                },
                None => None,
            }
        } else {
            None
        }
    }

    fn escape(&mut self, fx: &mut Effects<W>)
        ensures
            final(self)@ == old(self)@.escape().0,
            final(fx)@ == old(fx)@.followed_by(old(self)@.escape().1),
    {
        if self.state.ui.input_active {
            self.state.ui.input_active = false;
            self.state.ui.query = String::new();
            self.state.entries.search_results = Vec::new();
            let first = {
                let nav = self.nav_entries();
                if nav.len() > 0 {
                    Some(nav[0].id)
                } else {
                    None
                }
            };
            self.state.ui.highlighted_id = first;
            self.state.ui.search_highlighted_id = None;
            self.state.ui.last_error = None;
            self.state.ui.pending_search_token = None;
        } else if self.state.ui.details_requested.is_some() {
            fx.task(UiTask::Follow(Followup::DetailClosed));
        } else if !self.state.ui.query.as_str().is_empty() {
            self.state.ui.query = String::new();
            self.state.entries.search_results = Vec::new();
            self.state.ui.highlighted_id = None;
            self.state.ui.search_highlighted_id = None;
            self.state.ui.last_error = None;
            self.state.ui.pending_search_token = None;
        } else {
            self.close_or_hide(fx);
        }
    }

    #[verifier::rlimit(40)]
    fn arrow_down(&mut self, fx: &mut Effects<W>)
        ensures
            final(self)@ == old(self)@.arrow_down().0,
            final(fx)@ == old(fx)@.followed_by(old(self)@.arrow_down().1),
    {
        let current_id = self.current_highlight_id();
        self.state.ui.input_active = false;
        let (new_id, first) = {
            let nav = self.nav_entries();
            let new_id = next_id(nav.as_slice(), current_id);
            let first = if nav.len() > 0 {
                Some(nav[0].id)
            } else {
                None
            };
            (new_id, first)
        };
        let expand = self.expand_for(new_id);
        let wrapped = match (current_id, new_id, first) {
            (Some(c), Some(n), Some(f)) => n == f && c != f,
            _ => false,
        };
        if self.state.ui.query.as_str().is_empty() && wrapped {
            self.state.ui.input_active = true;
            fx.task(UiTask::FocusSearch);
            return ;
        }
        self.finish_nav(current_id, new_id, expand, fx);
    }

    fn arrow_up(&mut self, fx: &mut Effects<W>)
        ensures
            final(self)@ == old(self)@.arrow_up().0,
            final(fx)@ == old(fx)@.followed_by(old(self)@.arrow_up().1),
    {
        let current_id = self.current_highlight_id();
        let (new_id, first) = {
            let nav = self.nav_entries();
            let new_id = prev_id(nav.as_slice(), current_id);
            let first = if nav.len() > 0 {
                Some(nav[0].id)
            } else {
                None
            };
            (new_id, first)
        };
        let expand = self.expand_for(new_id);
        let at_first = match (current_id, first) {
            (Some(c), Some(f)) => c == f,
            _ => false,
        };
        if self.state.ui.query.as_str().is_empty() && at_first {
            self.state.ui.input_active = true;
            fx.task(UiTask::FocusSearch);
            return ;
        }
        self.finish_nav(current_id, new_id, expand, fx);
    }

    fn arrow_left(&mut self, fx: &mut Effects<W>)
        ensures
            final(self)@ == old(self)@.arrow_left().0,
            final(fx)@ == old(fx)@.followed_by(old(self)@.arrow_left().1),
    {
        let current_id = self.current_highlight_id();
        let show_sections = self.show_sections();
        let (has_pinned, on_pinned, first_unpinned) = if show_sections {
            let (pinned, unpinned) = self.partitioned_entries();
            let on_pinned = match current_id {
                Some(id) => lists_id(pinned.as_slice(), id),
                None => false,
            };
            let first_unpinned = if unpinned.len() > 0 {
                Some(unpinned[0].id)
            } else {
                None
            };
            (pinned.len() > 0, on_pinned, first_unpinned)
        } else {
            (false, false, None)
        };
        if show_sections && has_pinned && on_pinned {
            self.finish_nav(current_id, first_unpinned, Some(false), fx);
            return ;
        }
        let close = match current_id {
            Some(id) => match self.state.ui.details_requested {
                Some(d) => d == id,
                None => false,
            },
            None => false,
        };
        if self.state.ui.query.as_str().is_empty() && close {
            fx.task(UiTask::Follow(Followup::DetailClosed));
            return ;
        }
        self.finish_nav(current_id, current_id, None, fx);
    }

    fn arrow_right(&mut self, fx: &mut Effects<W>)
        ensures
            final(self)@ == old(self)@.arrow_right().0,
            final(fx)@ == old(fx)@.followed_by(old(self)@.arrow_right().1),
    {
        let current_id = self.current_highlight_id();
        let show_sections = self.show_sections();
        let (has_pinned, on_pinned) = if show_sections {
            let (pinned, _unpinned) = self.partitioned_entries();
            let on_pinned = match current_id {
                Some(id) => lists_id(pinned.as_slice(), id),
                None => false,
            };
            (pinned.len() > 0, on_pinned)
        } else {
            (false, false)
        };
        let on_collapsed = !self.state.ui.pinned_expanded && on_pinned;
        if show_sections && has_pinned && on_collapsed {
            self.finish_nav(current_id, current_id, Some(true), fx);
            return ;
        }
        if self.state.ui.query.as_str().is_empty() {
            match current_id {
                Some(id) => {
                    let open = match self.state.ui.details_requested {
                        Some(d) => d == id,
                        None => false,
                    };
                    if !open && self.entry_has_extra_detail(id) {
                        fx.task(UiTask::Follow(Followup::DetailRequested(id)));
                        return ;
                    }
                },
                None => {},
            }
        }
        self.finish_nav(current_id, current_id, None, fx);
    }

    /// Moves the highlight to `new_id` for `Home`, `End`, `PgUp` or `PgDn`.
    fn jump(&mut self, new_id: Option<u64>, fx: &mut Effects<W>)
        ensures
            final(self)@ == old(self)@.jump(new_id).0,
            final(fx)@ == old(fx)@.followed_by(old(self)@.jump(new_id).1),
    {
        let current_id = self.current_highlight_id();
        let expand = self.expand_for(new_id);
        self.finish_nav(current_id, new_id, expand, fx);
    }

    /// The place in the navigation order that `Home`, `End`, `PgUp` or `PgDn`
    /// (`which`: 0, 1, 2, 3) goes to.
    fn jump_target(&self, which: u8) -> (r: Option<u64>)
        requires
            which < 4,
        ensures
            which == 0 ==> r == first_id(ids_of(self@.nav())),
            which == 1 ==> r == last_id(ids_of(self@.nav())),
            which == 2 ==> r == page_up_of(ids_of(self@.nav()), self@.highlight()),
            which == 3 ==> r == page_down_of(ids_of(self@.nav()), self@.highlight()),
    {
        let current_id = self.current_highlight_id();
        let nav = self.nav_entries();
        if which == 0 {
            first_entry_id(nav.as_slice())
        } else if which == 1 {
            last_entry_id(nav.as_slice())
        } else if which == 2 {
            page_up_id(nav.as_slice(), current_id)
        } else {
            page_down_id(nav.as_slice(), current_id)
        }
    }

    /// Pastes the entry at place `index` of the favorites (`pinned`) or of
    /// the navigation order, where there is one.
    fn paste_nth(&mut self, pinned: bool, index: usize, fx: &mut Effects<W>)
        ensures
            ({
                let ids = if pinned {
                    ids_of(old(self)@.pinned())
                } else {
                    ids_of(old(self)@.nav())
                };
                &&& final(self)@ == old(self)@.paste_nth(ids, index as nat).0
                &&& final(fx)@ == old(fx)@.followed_by(old(self)@.paste_nth(ids, index as nat).1)
            }),
    {
        let target = if pinned {
            let (list, _) = self.partitioned_entries();
            if index < list.len() {
                Some(list[index].id)
            } else {
                None
            }
        } else {
            let list = self.nav_entries();
            if index < list.len() {
                Some(list[index].id)
            } else {
                None
            }
        };
        match target {
            Some(id) => self.paste(id, fx),
            None => {},
        }
    }

    fn character(&mut self, text: String, mods: Modifiers, fx: &mut Effects<W>)
        ensures
            final(self)@ == old(self)@.character(text@, mods).0,
            final(fx)@ == old(fx)@.followed_by(old(self)@.character(text@, mods).1),
    {
        let chars = chars_of(text.as_str());
        let s = chars.as_slice();
        let current = self.current_highlight_id();
        let is_v = letter_is(s, 'v');
        if mods.control && !mods.shift && is_v && !self.state.ui.input_active && current.is_some() {
            self.paste(current.unwrap(), fx);
            return ;
        }
        if mods.control && mods.shift && is_v && !self.state.ui.input_active && current.is_some() {
            self.paste_text(current.unwrap(), fx);
            return ;
        }
        if mods.control {
            if letter_is(s, 'r') {
                fx.task(UiTask::Follow(Followup::Refresh));
                return ;
            }
            if letter_is(s, 'd') {
                self.toggle_detail(fx);
                return ;
            }
            match first_digit(s) {
                Some(d) => self.paste_nth(mods.shift, d as usize, fx),
                None => {},
            }
            return ;
        }
        if mods.alt {
            if letter_is(s, 'x') || letter_is(s, 'm') {
                self.toggle_search_kind(fx);
                return ;
            }
            match first_digit(s) {
                Some(d) => {
                    if 1 <= d && d <= 5 {
                        let tab = tab_at((d - 1) as usize);
                        fx.task(UiTask::Follow(Followup::TabSelected(tab)));
                    }
                },
                None => {},
            }
            return ;
        }
        if !self.state.ui.input_active && s.len() == 1 && s[0] == '?' {
            proof {
                assert(text@ =~= seq!['?']);
            }
            self.state.ui.shortcuts_shown = !self.state.ui.shortcuts_shown;
            return ;
        }
        if !self.state.ui.input_active {
            self.state.ui.input_active = true;
            self.state.ui.query.append(text.as_str());
            self.send_search(fx);
            fx.task(UiTask::FocusSearch);
        }
    }

    /// A key press, with the modifiers held.
    pub fn handle_key_pressed(&mut self, key: Key, mods: Modifiers, fx: &mut Effects<W>)
        ensures
            final(self)@ == old(self)@.key_pressed(key, mods).0,
            final(fx)@ == old(fx)@.followed_by(old(self)@.key_pressed(key, mods).1),
    {
        let current = self.current_highlight_id();
        match key {
            Key::Enter => {
                if !self.state.ui.input_active {
                    match current {
                        Some(id) => self.paste(id, fx),
                        None => {},
                    }
                }
            },
            Key::Escape => self.escape(fx),
            Key::ArrowDown => {
                if mods.control && mods.shift {
                    match current {
                        Some(id) => self.move_favorite_down(id, fx),
                        None => {},
                    }
                } else if !mods.control {
                    self.arrow_down(fx);
                }
            },
            Key::ArrowUp => {
                if mods.control && mods.shift {
                    match current {
                        Some(id) => self.move_favorite_up(id, fx),
                        None => {},
                    }
                } else if !mods.control {
                    self.arrow_up(fx);
                }
            },
            Key::ArrowLeft => self.arrow_left(fx),
            Key::ArrowRight => self.arrow_right(fx),
            Key::Tab => {
                if mods.control {
                    if mods.shift {
                        fx.task(UiTask::Follow(Followup::TabPrev));
                    } else {
                        fx.task(UiTask::Follow(Followup::TabNext));
                    }
                }
            },
            Key::Character(text) => self.character(text, mods, fx),
            Key::Delete => {
                match current {
                    Some(id) => self.delete(id, fx),
                    None => {},
                }
            },
            Key::Home => {
                let target = self.jump_target(0);
                self.jump(target, fx);
            },
            Key::End => {
                let target = self.jump_target(1);
                self.jump(target, fx);
            },
            Key::PageUp => {
                let target = self.jump_target(2);
                self.jump(target, fx);
            },
            Key::PageDown => {
                let target = self.jump_target(3);
                self.jump(target, fx);
            },
            Key::Other => {},
        }
    }

    /// A keyboard event.
    pub fn handle_key_event(&mut self, event: KeyEvent, fx: &mut Effects<W>)
        ensures
            final(self)@ == old(self)@.key_event(event).0,
            final(fx)@ == old(fx)@.followed_by(old(self)@.key_event(event).1),
    {
        match event {
            KeyEvent::ModifiersChanged(mods) => {
                self.state.ui.ctrl_held = mods.control;
            },
            KeyEvent::KeyReleased(mods) => {
                self.state.ui.ctrl_held = mods.control;
            },
            KeyEvent::KeyPressed(key, mods) => self.handle_key_pressed(key, mods, fx),
        }
    }
}

/// Whether a widget already handled an event.
#[derive(Clone, Copy, PartialEq, Eq, Structural, Debug)]
pub enum EventStatus {
    Ignored,
    Captured,
}

/// An event of the window as the keyboard listener sees it.
pub enum UiEvent {
    Keyboard(KeyEvent),
    Other,
}

/// The message that a captured event forwards: the always-focused search
/// box captures `Left` and `Right` to move its cursor, so those presses are
/// forwarded to the keyboard handler too; every other event is left alone.
pub open spec fn forwarded<P, W>(event: UiEvent, status: EventStatus) -> Option<Msg<P, W>> {
    if status == EventStatus::Captured {
        match event {
            UiEvent::Keyboard(e) => match e {
                KeyEvent::KeyPressed(k, _) => match k {
                    Key::ArrowLeft => Some(Msg::KeyEvent(e)),
                    Key::ArrowRight => Some(Msg::KeyEvent(e)),
                    _ => None,
                },
                _ => None,
            },
            UiEvent::Other => None,
        }
    } else {
        None
    }
}

/// Forwards a captured `Left` or `Right` press (see [`forwarded`]).
pub fn captured_arrow_key<P, W>(event: UiEvent, status: EventStatus, _window: W) -> (r: Option<Msg<P, W>>)
    ensures
        r == forwarded::<P, W>(event, status),
{
    if status != EventStatus::Captured {
        return None;
    }
    match event {
        UiEvent::Keyboard(e) => {
            let arrow = match &e {
                KeyEvent::KeyPressed(k, _) => match k {
                    Key::ArrowLeft | Key::ArrowRight => true,
                    _ => false,
                },
                _ => false,
            };
            if arrow {
                Some(Msg::KeyEvent(e))
            } else {
                None
            }
        },
        UiEvent::Other => None,
    }
}

} // verus!
