//! The model of the window: its state as mathematical values, what goes out
//! of it (requests to the clipboard server and tasks for the window), and
//! how every event changes the state and what it sends.

use vstd::prelude::*;

use clipboard_history_client_sdk::search::CancellationTokenSource;
use clipboard_history_client_sdk::ui_actor::DetailedEntry;
use clipboard_history_client_sdk::ClientError;

use crate::entries::{
    first_id, ids_of, last_id, next_of, page_down_of, page_up_of, pinned_of, position, prev_of, shown, unpinned_of, tab_order,
    tab_index, Entry, EntryKind, Ring, Tab,
};
use crate::pipeline::PipelineModel;
use crate::state::{ErrorModel, SearchKind};
use crate::text::{
    decimal_chars, is_letter, leading_digit, parsed_positive_u32, parsed_unsigned, trimmed,
};

verus! {

/// Which of the window's two image pipelines an image belongs to.
#[derive(Clone, Copy, PartialEq, Eq, Structural, Debug)]
pub enum ImageKind {
    Thumbnail,
    Detail,
}

/// A request to the clipboard server.
pub enum Request {
    LoadFirstPage,
    GetDetails { id: u64, with_text: bool },
    Favorite(u64),
    Unfavorite(u64),
    Delete(u64),
    Search { query: String, kind: SearchKind, token: CancellationTokenSource },
    LoadImage(u64),
    Paste(u64),
    PasteText(u64),
    Swap(u64, u64),
    GarbageCollect { max_wasted_bytes: u64 },
}

/// The model of a [`Request`]; a search's token is fresh for each search
/// and is left out.
pub enum RequestModel {
    LoadFirstPage,
    GetDetails { id: u64, with_text: bool },
    Favorite(u64),
    Unfavorite(u64),
    Delete(u64),
    Search { query: Seq<char>, kind: SearchKind },
    LoadImage(u64),
    Paste(u64),
    PasteText(u64),
    Swap(u64, u64),
    GarbageCollect { max_wasted_bytes: u64 },
}

impl Request {
    pub open spec fn model(&self) -> RequestModel {
        match self {
            Request::LoadFirstPage => RequestModel::LoadFirstPage,
            Request::GetDetails { id, with_text } => RequestModel::GetDetails {
                id: *id,
                with_text: *with_text,
            },
            Request::Favorite(id) => RequestModel::Favorite(*id),
            Request::Unfavorite(id) => RequestModel::Unfavorite(*id),
            Request::Delete(id) => RequestModel::Delete(*id),
            Request::Search { query, kind, token } => RequestModel::Search {
                query: query@,
                kind: *kind,
            },
            Request::LoadImage(id) => RequestModel::LoadImage(*id),
            Request::Paste(id) => RequestModel::Paste(*id),
            Request::PasteText(id) => RequestModel::PasteText(*id),
            Request::Swap(a, b) => RequestModel::Swap(*a, *b),
            Request::GarbageCollect { max_wasted_bytes } => RequestModel::GarbageCollect {
                max_wasted_bytes: *max_wasted_bytes,
            },
        }
    }
}

/// A message the window sends itself to handle next.
#[derive(Clone, Copy, PartialEq, Eq, Structural, Debug)]
pub enum Followup {
    DetailClosed,
    DetailRequested(u64),
    Refresh,
    TabNext,
    TabPrev,
    TabSelected(Tab),
}

/// Work for the window's runtime.
#[derive(PartialEq, Eq, Structural, Debug)]
pub enum UiTask<W> {
    /// Handle this message next.
    Follow(Followup),
    /// Put the keyboard focus in the search box.
    FocusSearch,
    /// Scroll the entry list so that the place `before` of `total` (both in
    /// tenths of a plain row's height) is at the top.
    ScrollTo { before: u128, total: u128 },
    /// Read the server's limits from its configuration.
    LoadSettings,
    /// Write the server's limits to its configuration.
    SaveSettings { main: u32, favorites: u32 },
    /// Decode the image file that arrived for `id` for this pipeline.
    DecodeImage { id: u64, kind: ImageKind },
    /// Minimize (or restore) the window.
    Minimize(W, bool),
    GainFocus(W),
    /// Stop the background work and end the process.
    Exit,
}

/// What a handler sends out, in order.
pub struct Effects<W> {
    pub requests: Vec<Request>,
    pub tasks: Vec<UiTask<W>>,
}

/// The model of [`Effects`].
pub struct EffectsModel<W> {
    pub requests: Seq<RequestModel>,
    pub tasks: Seq<UiTask<W>>,
}

impl<W> EffectsModel<W> {
    pub open spec fn none() -> Self {
        EffectsModel { requests: Seq::empty(), tasks: Seq::empty() }
    }

    pub open spec fn send(r: RequestModel) -> Self {
        EffectsModel { requests: seq![r], tasks: Seq::empty() }
    }

    pub open spec fn task(t: UiTask<W>) -> Self {
        EffectsModel { requests: Seq::empty(), tasks: seq![t] }
    }

    /// These effects, and after them `next`.
    pub open spec fn followed_by(self, next: Self) -> Self {
        EffectsModel { requests: self.requests + next.requests, tasks: self.tasks + next.tasks }
    }
}

pub broadcast proof fn lemma_followed_by_assoc<W>(a: EffectsModel<W>, b: EffectsModel<W>, c: EffectsModel<W>)
    ensures
        #[trigger] a.followed_by(b).followed_by(c) == a.followed_by(b.followed_by(c)),
{
    assert(a.followed_by(b).followed_by(c).requests =~= a.followed_by(b.followed_by(c)).requests);
    assert(a.followed_by(b).followed_by(c).tasks =~= a.followed_by(b.followed_by(c)).tasks);
}

pub broadcast proof fn lemma_followed_by_none<W>(a: EffectsModel<W>)
    ensures
        #[trigger] a.followed_by(EffectsModel::none()) == a,
        EffectsModel::none().followed_by(a) == a,
{
    assert(a.followed_by(EffectsModel::none()).requests =~= a.requests);
    assert(a.followed_by(EffectsModel::none()).tasks =~= a.tasks);
    assert(EffectsModel::none().followed_by(a).requests =~= a.requests);
    assert(EffectsModel::none().followed_by(a).tasks =~= a.tasks);
}

pub broadcast group group_effects {
    lemma_followed_by_assoc,
    lemma_followed_by_none,
}

impl<W> View for Effects<W> {
    type V = EffectsModel<W>;

    open spec fn view(&self) -> EffectsModel<W> {
        EffectsModel {
            requests: self.requests@.map_values(|r: Request| r.model()),
            tasks: self.tasks@,
        }
    }
}

impl<W> Effects<W> {
    pub fn new() -> (fx: Self)
        ensures
            fx@ == EffectsModel::<W>::none(),
    {
        let fx = Effects { requests: Vec::new(), tasks: Vec::new() };
        assert(fx@.requests =~= Seq::<RequestModel>::empty());
        fx
    }

    pub fn send(&mut self, r: Request)
        ensures
            final(self)@ == old(self)@.followed_by(EffectsModel::send(r.model())),
    {
        let ghost m = r.model();
        self.requests.push(r);
        assert(self@.requests =~= old(self)@.requests + seq![m]);
        assert(self@.tasks =~= old(self)@.tasks + Seq::<UiTask<W>>::empty());
    }

    pub fn task(&mut self, t: UiTask<W>)
        ensures
            final(self)@ == old(self)@.followed_by(EffectsModel::task(t)),
    {
        self.tasks.push(t);
        assert(self@.requests =~= old(self)@.requests + Seq::<RequestModel>::empty());
        assert(self@.tasks =~= old(self)@.tasks + seq![t]);
    }
}

/// The state of keyboard modifiers with a key event.
#[derive(Clone, Copy, PartialEq, Eq, Structural, Debug)]
pub struct Modifiers {
    pub control: bool,
    pub shift: bool,
    pub alt: bool,
}

/// A key as the window tells keys apart.
#[derive(Clone, Debug)]
pub enum Key {
    Enter,
    Escape,
    ArrowUp,
    ArrowDown,
    ArrowLeft,
    ArrowRight,
    Tab,
    Delete,
    Home,
    End,
    PageUp,
    PageDown,
    /// A key that types text.
    Character(String),
    Other,
}

#[derive(Clone, Debug)]
pub enum KeyEvent {
    ModifiersChanged(Modifiers),
    KeyReleased(Modifiers),
    KeyPressed(Key, Modifiers),
}

#[derive(Clone, Copy, PartialEq, Eq, Structural, Debug)]
pub enum WindowEvent {
    Focused,
    Unfocused,
    CloseRequested,
    Other,
}

/// What the clipboard server's controller reports.
pub enum ControllerEvent<P> {
    /// The database could not be opened.
    FatalDbOpen(ClientError),
    Error(clipboard_history_client_sdk::ui_actor::CommandError),
    LoadedFirstPage { entries: Vec<Entry<P>>, default_focused_id: Option<u64> },
    /// The details of `id`, or `None` where reading them failed.
    EntryDetails { id: u64, result: Option<DetailedEntry> },
    SearchResults(Vec<Entry<P>>),
    FavoriteChange(u64),
    Deleted(u64),
    /// The image file of `id` arrived.
    LoadedImage { id: u64 },
    Pasted,
    Swapped,
    GarbageCollected { bytes_freed: u64 },
}

/// Everything the window reacts to.
pub enum Msg<P, W> {
    Controller(ControllerEvent<P>),
    KeyEvent(KeyEvent),
    WindowEvent(W, WindowEvent),
    WindowIdResolved(Option<W>),
    WakeRequested,
    SearchChanged(String),
    SearchKindToggled,
    TabSelected(Tab),
    TabNext,
    TabPrev,
    PinnedToggled,
    EntryClicked(u64),
    FavPaste(u64),
    FavoriteToggled(u64),
    DeleteEntry(u64),
    DetailRequested(u64),
    DetailClosed,
    SearchInputFocusRequested,
    MoveFavoriteUp(u64),
    MoveFavoriteDown(u64),
    Refresh,
    DismissError,
    EntryHovered(Option<u64>),
    SettingsLoaded(Result<(u32, u32), String>),
    SettingsMaxMainChanged(String),
    SettingsMaxFavoritesChanged(String),
    SettingsSaveRequested,
    SettingsSaved(Result<(), String>),
    SettingsGcBytesChanged(String),
    SettingsGcRequested,
}

/// The window's state as mathematical values. Whether a search is in flight
/// stands for the search token the window holds.
pub struct AppModel<P, H, W> {
    pub query: Seq<char>,
    pub search_kind: SearchKind,
    pub active_tab: Tab,
    pub highlighted_id: Option<u64>,
    pub search_highlighted_id: Option<u64>,
    pub hovered_id: Option<u64>,
    pub pinned_expanded: bool,
    pub input_active: bool,
    pub ctrl_held: bool,
    pub shortcuts_shown: bool,
    pub details_requested: Option<u64>,
    pub detailed_entry: Option<DetailedEntry>,
    pub last_error: Option<ErrorModel>,
    pub fatal_error: Option<ClientError>,
    pub searching: bool,
    pub loaded: Seq<Entry<P>>,
    pub results: Seq<Entry<P>>,
    pub max_main: Seq<char>,
    pub max_favorites: Seq<char>,
    pub gc_bytes: Seq<char>,
    pub status: Option<Result<Seq<char>, Seq<char>>>,
    pub settings_loaded: bool,
    pub saving: bool,
    pub running_gc: bool,
    pub thumbnails: PipelineModel<H>,
    pub detail_images: PipelineModel<H>,
    pub daemon: bool,
    pub window_id: Option<W>,
}

/// A handler's outcome: the state after it, and what it sent.
pub type Step<P, H, W> = (AppModel<P, H, W>, EffectsModel<W>);

/// The next search kind: plain, RegEx, MIME, and plain again.
pub open spec fn next_search_kind(kind: SearchKind) -> SearchKind {
    match kind {
        SearchKind::Plain => SearchKind::Regex,
        SearchKind::Regex => SearchKind::Mime,
        SearchKind::Mime => SearchKind::Plain,
    }
}

/// A row's height in tenths of a plain row: an expanded image is ten rows,
/// expanded text eight, a collapsed image one and six tenths.
pub open spec fn row_weight(details_requested: Option<u64>, kind: EntryKind, id: u64) -> nat {
    let expanded = details_requested == Some(id);
    if kind == EntryKind::Image && expanded {
        100
    } else if kind.text_spec() && expanded {
        80
    } else if kind == EntryKind::Image {
        16
    } else {
        10
    }
}

/// The summed row heights of `rows`, in tenths.
pub open spec fn rows_height<P>(details_requested: Option<u64>, rows: Seq<Entry<P>>) -> nat
    decreases rows.len(),
{
    if rows.len() == 0 {
        0
    } else {
        rows_height(details_requested, rows.drop_last()) + row_weight(
            details_requested,
            rows.last().kind,
            rows.last().id,
        )
    }
}

/// The thumbnails that `entries` need: a request for each image entry that
/// is not held and not asked for yet, in the order of `entries`.
pub open spec fn request_thumbnails<H, W, P>(pipeline: PipelineModel<H>, entries: Seq<Entry<P>>) -> (
    PipelineModel<H>,
    EffectsModel<W>,
)
    decreases entries.len(),
{
    if entries.len() == 0 {
        (pipeline, EffectsModel::none())
    } else {
        let (p, fx) = request_thumbnails::<H, W, P>(pipeline, entries.drop_last());
        let e = entries.last();
        if e.kind == EntryKind::Image {
            if p.needs_request(e.id) {
                (p.request(e.id), fx.followed_by(EffectsModel::send(RequestModel::LoadImage(e.id))))
            } else {
                (p, fx)
            }
        } else {
            (p, fx)
        }
    }
}

/// The message the Settings tab shows after a garbage collection.
pub open spec fn freed_message(bytes: u64) -> Seq<char> {
    "Freed "@ + decimal_chars(bytes as nat) + " bytes."@
}

impl<P, H, W> AppModel<P, H, W> {
    /// The list the search box's state selects: the first page while the
    /// query is empty, the search results otherwise.
    pub open spec fn active(self) -> Seq<Entry<P>> {
        if self.query.len() == 0 {
            self.loaded
        } else {
            self.results
        }
    }

    /// The active list, filtered by the tab.
    pub open spec fn filtered(self) -> Seq<Entry<P>> {
        shown(self.active_tab, self.active())
    }

    /// Whether the list is split into Favorites and Recent sections: only the
    /// All tab without a query is.
    pub open spec fn show_sections(self) -> bool {
        self.query.len() == 0 && self.active_tab == Tab::All
    }

    pub open spec fn pinned(self) -> Seq<Entry<P>> {
        pinned_of(self.filtered())
    }

    pub open spec fn unpinned(self) -> Seq<Entry<P>> {
        unpinned_of(self.filtered())
    }

    /// The order the keyboard walks: favorites first where there are
    /// sections, the rest after them; otherwise the filtered list.
    pub open spec fn nav(self) -> Seq<Entry<P>> {
        if self.show_sections() {
            self.pinned() + self.unpinned()
        } else {
            self.filtered()
        }
    }

    /// The rows on screen, top to bottom: the collapsed Favorites section
    /// shows no rows.
    pub open spec fn render_order(self) -> Seq<Entry<P>> {
        if self.show_sections() {
            if self.pinned_expanded {
                self.pinned() + self.unpinned()
            } else {
                self.unpinned()
            }
        } else {
            self.filtered()
        }
    }

    /// The highlighted entry of the list on screen.
    pub open spec fn highlight(self) -> Option<u64> {
        if self.query.len() == 0 {
            self.highlighted_id
        } else {
            self.search_highlighted_id
        }
    }

    /// Highlights `id` in the list on screen.
    pub open spec fn with_highlight(self, id: Option<u64>) -> Self {
        if self.query.len() == 0 {
            AppModel { highlighted_id: id, ..self }
        } else {
            AppModel { search_highlighted_id: id, ..self }
        }
    }

    /// The first entry with `id` among the first page, and after it the results.
    pub open spec fn find(self, id: u64) -> Option<Entry<P>> {
        let all = self.loaded + self.results;
        match position(ids_of(all), id) {
            Some(i) => Some(all[i]),
            None => None,
        }
    }

    /// Scrolling so that `id`'s row is in view, where it is on screen.
    #[verifier::opaque]
    pub open spec fn scroll_to_entry(self, id: u64) -> EffectsModel<W> {
        let rows = self.render_order();
        match position(ids_of(rows), id) {
            Some(i) => EffectsModel::task(
                UiTask::ScrollTo {
                    before: rows_height(self.details_requested, rows.take(i)) as u128,
                    total: rows_height(self.details_requested, rows) as u128,
                },
            ),
            None => EffectsModel::none(),
        }
    }

    /// Scrolling to the highlighted entry, if there is one.
    pub open spec fn scroll_to_highlighted(self) -> EffectsModel<W> {
        match self.highlight() {
            Some(id) => self.scroll_to_entry(id),
            None => EffectsModel::none(),
        }
    }

    /// The state after the window was hidden: no query, results, highlight,
    /// details, search or error, the search box focused, Favorites collapsed.
    pub open spec fn reset(self) -> Self {
        AppModel {
            query: Seq::empty(),
            results: Seq::empty(),
            highlighted_id: None,
            search_highlighted_id: None,
            hovered_id: None,
            pinned_expanded: false,
            input_active: true,
            details_requested: None,
            detailed_entry: None,
            last_error: None,
            searching: false,
            ..self
        }
    }

    pub open spec fn paste(self, id: u64) -> Step<P, H, W> {
        (AppModel { searching: false, ..self }, EffectsModel::send(RequestModel::Paste(id)))
    }

    pub open spec fn paste_text(self, id: u64) -> Step<P, H, W> {
        (AppModel { searching: false, ..self }, EffectsModel::send(RequestModel::PasteText(id)))
    }

    /// Sending a search for the query, which is in flight from now on.
    pub open spec fn send_search(self) -> Step<P, H, W> {
        (
            AppModel { searching: true, ..self },
            EffectsModel::send(RequestModel::Search { query: self.query, kind: self.search_kind }),
        )
    }

    /// Reloading the first page, and searching again where there is a query.
    pub open spec fn refresh_entries(self) -> Step<P, H, W> {
        let m = AppModel { last_error: None, ..self };
        let fx = EffectsModel::send(RequestModel::LoadFirstPage);
        if m.query.len() == 0 {
            (m, fx)
        } else {
            let (m2, fx2) = m.send_search();
            (m2, fx.followed_by(fx2))
        }
    }

    /// Swapping favorite `id` with the one before it, if there is one.
    pub open spec fn move_favorite_up(self, id: u64) -> Step<P, H, W> {
        let pinned = ids_of(self.pinned());
        match position(pinned, id) {
            Some(pos) => if pos > 0 {
                let m = AppModel { highlighted_id: Some(id), ..self };
                let (m2, fx2) = m.refresh_entries();
                (m2, EffectsModel::send(RequestModel::Swap(id, pinned[pos - 1])).followed_by(fx2))
            } else {
                (self, EffectsModel::none())
            },
            None => (self, EffectsModel::none()),
        }
    }

    /// Swapping favorite `id` with the one after it, if there is one.
    pub open spec fn move_favorite_down(self, id: u64) -> Step<P, H, W> {
        let pinned = ids_of(self.pinned());
        match position(pinned, id) {
            Some(pos) => if pos + 1 < pinned.len() {
                let m = AppModel { highlighted_id: Some(id), ..self };
                let (m2, fx2) = m.refresh_entries();
                (m2, EffectsModel::send(RequestModel::Swap(id, pinned[pos + 1])).followed_by(fx2))
            } else {
                (self, EffectsModel::none())
            },
            None => (self, EffectsModel::none()),
        }
    }

    /// Unfavoriting `id` where it is a favorite, favoriting it otherwise.
    pub open spec fn toggle_favorite(self, id: u64) -> Step<P, H, W> {
        let r = match self.find(id) {
            Some(e) => if e.ring == Ring::Favorites {
                RequestModel::Unfavorite(id)
            } else {
                RequestModel::Favorite(id)
            },
            None => RequestModel::Favorite(id),
        };
        let (m, fx) = self.refresh_entries();
        (m, EffectsModel::send(r).followed_by(fx))
    }

    /// Deleting `id`, which clears the highlight of the list on screen.
    pub open spec fn delete(self, id: u64) -> Step<P, H, W> {
        let m = self.with_highlight(None);
        let (m2, fx) = m.refresh_entries();
        (m2, EffectsModel::send(RequestModel::Delete(id)).followed_by(fx))
    }

    /// Opening the details of `id`, unless they are open already.
    pub open spec fn open_detail(self, id: u64) -> Step<P, H, W> {
        if self.details_requested != Some(id) {
            let (m2, fx2) = self.request_details(id);
            (m2, fx2.followed_by(m2.scroll_to_entry(id)))
        } else {
            (self, EffectsModel::none())
        }
    }

    /// Asking for the details of `id` (with its text where it is a text
    /// entry), and for its full-size image where it is an image.
    pub open spec fn request_details(self, id: u64) -> Step<P, H, W> {
        let m = AppModel { details_requested: Some(id), detailed_entry: None, ..self };
        let has_text = match self.find(id) {
            Some(e) => e.kind.text_spec(),
            None => false,
        };
        let is_image = match self.find(id) {
            Some(e) => e.kind == EntryKind::Image,
            None => false,
        };
        let fx = EffectsModel::send(RequestModel::GetDetails { id, with_text: has_text });
        if is_image && m.detail_images.needs_request(id) {
            (
                AppModel { detail_images: m.detail_images.request(id), ..m },
                fx.followed_by(EffectsModel::send(RequestModel::LoadImage(id))),
            )
        } else {
            (m, fx)
        }
    }

    /// Closing the details view, which drops its full-size image.
    pub open spec fn close_detail(self) -> Step<P, H, W> {
        let m = match self.details_requested {
            Some(id) => AppModel { detail_images: self.detail_images.remove(id), ..self },
            None => self,
        };
        (AppModel { details_requested: None, detailed_entry: None, ..m }, EffectsModel::none())
    }

    /// Hiding the window: its state is reset and the images dropped.
    pub open spec fn hide_window(self, id: W) -> Step<P, H, W> {
        let m = self.reset();
        (
            AppModel {
                thumbnails: PipelineModel::empty(),
                detail_images: PipelineModel::empty(),
                ..m
            },
            EffectsModel::task(UiTask::Minimize(id, true)),
        )
    }

    /// Hiding the window where it runs in the background and its id is
    /// known, ending the process otherwise.
    pub open spec fn close_or_hide(self) -> Step<P, H, W> {
        match self.window_id {
            Some(id) => if self.daemon {
                self.hide_window(id)
            } else {
                (self, EffectsModel::task(UiTask::Exit))
            },
            None => (self, EffectsModel::task(UiTask::Exit)),
        }
    }

    /// Keeps the first window id the window learns.
    pub open spec fn note_window(self, id: W) -> Self {
        match self.window_id {
            Some(_) => self,
            None => AppModel { window_id: Some(id), ..self },
        }
    }

    /// A window event: gaining the focus puts it in the search box, so that
    /// typing searches at once; a background window hides when it loses the
    /// focus or is closed.
    pub open spec fn window_event(self, id: W, event: WindowEvent) -> Step<P, H, W> {
        let m = self.note_window(id);
        match event {
            WindowEvent::Focused => (
                AppModel { input_active: true, ..m },
                EffectsModel::task(UiTask::FocusSearch),
            ),
            WindowEvent::Unfocused => if m.daemon {
                m.hide_window(id)
            } else {
                (m, EffectsModel::none())
            },
            WindowEvent::CloseRequested => if m.daemon {
                m.hide_window(id)
            } else {
                (m, EffectsModel::task(UiTask::Exit))
            },
            _ => (m, EffectsModel::none()),
        }
    }

    /// Another launch asked the window to show itself again.
    pub open spec fn wake(self) -> Step<P, H, W> {
        match self.window_id {
            Some(id) => {
                let (m, fx) = self.refresh_entries();
                (
                    m,
                    EffectsModel::task(UiTask::Minimize(id, false)).followed_by(
                        EffectsModel::task(UiTask::GainFocus(id)),
                    ).followed_by(fx),
                )
            },
            None => (self, EffectsModel::none()),
        }
    }

    /// Opens the details of the highlighted entry, or closes them where they
    /// are open.
    pub open spec fn toggle_detail(self) -> EffectsModel<W> {
        match self.highlight() {
            Some(id) => if self.details_requested == Some(id) {
                EffectsModel::task(UiTask::Follow(Followup::DetailClosed))
            } else {
                EffectsModel::task(UiTask::Follow(Followup::DetailRequested(id)))
            },
            None => EffectsModel::none(),
        }
    }

    /// Switching to `tab`, which clears both highlights; the Settings tab
    /// reads the server's limits the first time it opens.
    pub open spec fn select_tab(self, tab: Tab) -> Step<P, H, W> {
        let m = AppModel {
            active_tab: tab,
            highlighted_id: None,
            search_highlighted_id: None,
            ..self
        };
        if tab == Tab::Settings && !self.settings_loaded {
            (m, EffectsModel::task(UiTask::LoadSettings))
        } else {
            (m, EffectsModel::none())
        }
    }

    /// Moving `delta` tabs along [`tab_order`], wrapping at both ends.
    pub open spec fn cycle_tab(self, delta: int) -> Step<P, H, W> {
        let next = (tab_index(self.active_tab) + delta) % 5;
        self.select_tab(tab_order()[next])
    }

    /// Switching to the next search kind, and searching again where there is
    /// a query.
    pub open spec fn toggle_search_kind(self) -> Step<P, H, W> {
        let m = AppModel { search_kind: next_search_kind(self.search_kind), ..self };
        if m.query.len() == 0 {
            (m, EffectsModel::none())
        } else {
            m.send_search()
        }
    }

    /// Reloading everything: no error, highlight or image is kept.
    pub open spec fn refresh(self) -> Step<P, H, W> {
        let m = AppModel {
            last_error: None,
            highlighted_id: None,
            search_highlighted_id: None,
            thumbnails: PipelineModel::empty(),
            detail_images: PipelineModel::empty(),
            ..self
        };
        m.refresh_entries()
    }

    /// The search box's text changed to `query`: an empty query drops the
    /// search; another one is searched for.
    pub open spec fn search_changed(self, query: Seq<char>) -> Step<P, H, W> {
        let m = AppModel { last_error: None, ..self };
        if query.len() == 0 {
            (
                AppModel {
                    query: Seq::empty(),
                    results: Seq::empty(),
                    search_highlighted_id: None,
                    searching: false,
                    ..m
                },
                EffectsModel::none(),
            )
        } else {
            AppModel { query, ..m }.send_search()
        }
    }

    /// Saving the server's limits from the Settings fields, where both read
    /// as positive numbers.
    pub open spec fn save_settings(self) -> Step<P, H, W> {
        match parsed_positive_u32(trimmed(self.max_main)) {
            None => (
                AppModel {
                    status: Some(Err("Max main entries must be a positive number"@)),
                    ..self
                },
                EffectsModel::none(),
            ),
            Some(main) => match parsed_positive_u32(trimmed(self.max_favorites)) {
                None => (
                    AppModel {
                        status: Some(Err("Max favorite entries must be a positive number"@)),
                        ..self
                    },
                    EffectsModel::none(),
                ),
                Some(favorites) => (
                    AppModel { saving: true, status: None, ..self },
                    EffectsModel::task(
                        UiTask::SaveSettings { main: main as u32, favorites: favorites as u32 },
                    ),
                ),
            },
        }
    }

    /// Asking the server to collect garbage, where the field reads as a
    /// number.
    pub open spec fn run_gc(self) -> Step<P, H, W> {
        match parsed_unsigned(trimmed(self.gc_bytes), u64::MAX as nat) {
            None => (
                AppModel {
                    status: Some(Err("Max wasted bytes must be a non-negative number"@)),
                    ..self
                },
                EffectsModel::none(),
            ),
            Some(bytes) => (
                AppModel { running_gc: true, status: None, ..self },
                EffectsModel::send(RequestModel::GarbageCollect { max_wasted_bytes: bytes as u64 }),
            ),
        }
    }

    /// The server's limits were read (into the Settings fields), or reading
    /// them failed (into the status line).
    pub open spec fn settings_loaded(self, result: Result<(u32, u32), Seq<char>>) -> Self {
        let m = match result {
            Ok((main, favorites)) => AppModel {
                max_main: decimal_chars(main as nat),
                max_favorites: decimal_chars(favorites as nat),
                ..self
            },
            Err(e) => AppModel { status: Some(Err(e)), ..self },
        };
        AppModel { settings_loaded: true, ..m }
    }

    /// Writing the server's limits finished.
    pub open spec fn settings_saved(self, result: Result<(), Seq<char>>) -> Self {
        AppModel {
            saving: false,
            status: Some(
                match result {
                    Ok(()) => Ok("Saved. Restart the Ringboard server to apply."@),
                    Err(e) => Err(e),
                },
            ),
            ..self
        }
    }

    /// Keeps only the thumbnails of entries that are listed.
    pub open spec fn prune_image_caches(self) -> Self {
        AppModel {
            thumbnails: self.thumbnails.retain(ids_of(self.loaded + self.results).to_set()),
            ..self
        }
    }

    /// An image file arrived for `id`: the detail pipeline claims it first,
    /// and after it the thumbnail pipeline; one that nobody waits for is dropped.
    pub open spec fn loaded_image(self, id: u64) -> Step<P, H, W> {
        if self.detail_images.pending.contains(id) {
            (
                AppModel { detail_images: self.detail_images.claim(id), ..self },
                EffectsModel::task(UiTask::DecodeImage { id, kind: ImageKind::Detail }),
            )
        } else if self.thumbnails.pending.contains(id) {
            (
                AppModel { thumbnails: self.thumbnails.claim(id), ..self },
                EffectsModel::task(UiTask::DecodeImage { id, kind: ImageKind::Thumbnail }),
            )
        } else {
            (self, EffectsModel::none())
        }
    }

    /// A decoded image is held by its pipeline; a new detail image of the
    /// open entry scrolls it into view again.
    pub open spec fn store_image(self, id: u64, kind: ImageKind, handle: H) -> Step<P, H, W> {
        match kind {
            ImageKind::Thumbnail => (
                AppModel { thumbnails: self.thumbnails.insert(id, handle), ..self },
                EffectsModel::none(),
            ),
            ImageKind::Detail => {
                let m = AppModel { detail_images: self.detail_images.insert(id, handle), ..self };
                if m.details_requested == Some(id) {
                    (m, m.scroll_to_entry(id))
                } else {
                    (m, EffectsModel::none())
                }
            },
        }
    }

    /// A new first page arrived.
    pub open spec fn loaded_first_page(
        self,
        entries: Seq<Entry<P>>,
        default_focused_id: Option<u64>,
    ) -> Step<P, H, W> {
        let m = if self.highlighted_id is None {
            AppModel {
                highlighted_id: match default_focused_id {
                    Some(id) => Some(id),
                    None => first_id(ids_of(entries)),
                },
                ..self
            }
        } else {
            self
        };
        let (thumbs, fx) = request_thumbnails::<H, W, P>(m.thumbnails, entries);
        (AppModel { thumbnails: thumbs, loaded: entries, ..m }.prune_image_caches(), fx)
    }

    /// Search results arrived; `done` is whether the search had finished
    /// when they were handled. Results that arrive with no search in flight
    /// were cancelled and are dropped.
    pub open spec fn search_results(self, entries: Seq<Entry<P>>, done: bool) -> Step<P, H, W> {
        if !self.searching {
            (self, EffectsModel::none())
        } else {
            let m = AppModel {
                searching: !done,
                search_highlighted_id: first_id(ids_of(entries)),
                ..self
            };
            let (thumbs, fx) = request_thumbnails::<H, W, P>(m.thumbnails, entries);
            (AppModel { thumbnails: thumbs, results: entries, ..m }.prune_image_caches(), fx)
        }
    }

    /// What a controller event does; `done` is whether the search in flight
    /// had finished when it was handled.
    pub open spec fn controller(self, event: ControllerEventModel<P>, done: bool) -> Step<P, H, W> {
        match event {
            ControllerEventModel::FatalDbOpen(e) => (
                AppModel { fatal_error: Some(e), ..self },
                EffectsModel::none(),
            ),
            ControllerEventModel::Error(e) => (
                AppModel {
                    running_gc: false,
                    searching: self.searching && !done,
                    last_error: Some(ErrorModel::Command(e)),
                    ..self
                },
                EffectsModel::none(),
            ),
            ControllerEventModel::LoadedFirstPage { entries, default_focused_id } => self.loaded_first_page(
                entries,
                default_focused_id,
            ),
            ControllerEventModel::EntryDetails { id, result } => if self.details_requested == Some(
                id,
            ) {
                let m = AppModel { detailed_entry: result, ..self };
                (m, m.scroll_to_entry(id))
            } else {
                (self, EffectsModel::none())
            },
            ControllerEventModel::SearchResults(entries) => self.search_results(entries, done),
            ControllerEventModel::FavoriteChange(id) => {
                let m = AppModel { thumbnails: self.thumbnails.remove(id), ..self.with_highlight(Some(id)) };
                m.refresh_entries()
            },
            ControllerEventModel::Deleted(id) => {
                let m = AppModel {
                    thumbnails: self.thumbnails.remove(id),
                    detail_images: self.detail_images.remove(id),
                    ..self
                };
                m.refresh_entries()
            },
            ControllerEventModel::LoadedImage { id } => self.loaded_image(id),
            ControllerEventModel::Pasted => self.close_or_hide(),
            ControllerEventModel::Swapped => self.refresh_entries(),
            ControllerEventModel::GarbageCollected { bytes_freed } => {
                let m = AppModel {
                    running_gc: false,
                    status: Some(Ok(freed_message(bytes_freed))),
                    ..self
                };
                m.refresh_entries()
            },
        }
    }
}

impl<P, H, W> AppModel<P, H, W> {
    /// An image failed to decode; the error line shows the decoder's message.
    pub open spec fn decode_failed(self, message: Seq<char>) -> Self {
        AppModel { last_error: Some(ErrorModel::ImageDecode(message)), ..self }
    }

    /// Whether the details view of `id` has more to show than its row.
    pub open spec fn has_extra_detail(self, id: u64) -> bool {
        match self.find(id) {
            Some(e) => e.kind.has_extra_detail(),
            None => false,
        }
    }

    /// Applies a keyboard move of the highlight from `current` to `new_id`,
    /// and expands or collapses the Favorites section as `set_pinned` says.
    /// Landing on another entry leaves the search box and scrolls to it.
    pub open spec fn finish_nav(self, current: Option<u64>, new_id: Option<u64>, set_pinned: Option<bool>) -> Step<P, H, W> {
        let moved = new_id is Some && new_id != current;
        let m1 = if moved {
            AppModel { input_active: false, ..self }
        } else {
            self
        };
        let m2 = m1.with_highlight(new_id);
        let m3 = match set_pinned {
            Some(e) => AppModel { pinned_expanded: e, ..m2 },
            None => m2,
        };
        if moved {
            (m3, m3.scroll_to_highlighted())
        } else {
            (m3, EffectsModel::none())
        }
    }

    /// Whether moving to `new_id` reaches into the collapsed Favorites
    /// section, which then expands.
    pub open spec fn expand_for(self, new_id: Option<u64>) -> Option<bool> {
        if self.show_sections() && !self.pinned_expanded && (new_id matches Some(id) && ids_of(
            self.pinned(),
        ).contains(id)) {
            Some(true)
        } else {
            None
        }
    }

    /// `Esc`: leaves the search box (clearing the search), else closes the
    /// details, else clears the search, else closes the window.
    pub open spec fn escape(self) -> Step<P, H, W> {
        if self.input_active {
            let m = AppModel {
                input_active: false,
                query: Seq::empty(),
                results: Seq::empty(),
                ..self
            };
            (
                AppModel {
                    highlighted_id: first_id(ids_of(m.nav())),
                    search_highlighted_id: None,
                    last_error: None,
                    searching: false,
                    ..m
                },
                EffectsModel::none(),
            )
        } else if self.details_requested is Some {
            (self, EffectsModel::task(UiTask::Follow(Followup::DetailClosed)))
        } else if self.query.len() > 0 {
            (
                AppModel {
                    query: Seq::empty(),
                    results: Seq::empty(),
                    highlighted_id: None,
                    search_highlighted_id: None,
                    last_error: None,
                    searching: false,
                    ..self
                },
                EffectsModel::none(),
            )
        } else {
            self.close_or_hide()
        }
    }

    /// `Down`: the next entry of the navigation order; wrapping from the last
    /// entry to the first goes to the search box instead.
    pub open spec fn arrow_down(self) -> Step<P, H, W> {
        let current = self.highlight();
        let m = AppModel { input_active: false, ..self };
        let nav = ids_of(m.nav());
        let new_id = next_of(nav, current);
        if m.query.len() == 0 && current is Some && new_id is Some && new_id == first_id(nav)
            && current != first_id(nav) {
            (AppModel { input_active: true, ..m }, EffectsModel::task(UiTask::FocusSearch))
        } else {
            m.finish_nav(current, new_id, m.expand_for(new_id))
        }
    }

    /// `Up`: the previous entry of the navigation order; from the first
    /// entry it goes to the search box instead.
    pub open spec fn arrow_up(self) -> Step<P, H, W> {
        let current = self.highlight();
        let nav = ids_of(self.nav());
        let new_id = prev_of(nav, current);
        if self.query.len() == 0 && current is Some && first_id(nav) == current {
            (AppModel { input_active: true, ..self }, EffectsModel::task(UiTask::FocusSearch))
        } else {
            self.finish_nav(current, new_id, self.expand_for(new_id))
        }
    }

    /// The ids of the pinned favorites where the list has sections.
    pub open spec fn section_pinned_ids(self) -> Seq<u64> {
        if self.show_sections() {
            ids_of(self.pinned())
        } else {
            Seq::empty()
        }
    }

    /// `Left`: from a favorite, collapses Favorites and goes to the first
    /// recent entry; otherwise closes the highlighted entry's details.
    pub open spec fn arrow_left(self) -> Step<P, H, W> {
        let current = self.highlight();
        let pinned = self.section_pinned_ids();
        let unpinned = if self.show_sections() {
            ids_of(self.unpinned())
        } else {
            Seq::empty()
        };
        let on_pinned = current matches Some(id) && pinned.contains(id);
        if self.show_sections() && pinned.len() > 0 && on_pinned {
            self.finish_nav(current, first_id(unpinned), Some(false))
        } else if self.query.len() == 0 && (current matches Some(id) && self.details_requested
            == Some(id)) {
            (self, EffectsModel::task(UiTask::Follow(Followup::DetailClosed)))
        } else {
            self.finish_nav(current, current, None)
        }
    }

    /// `Right`: on a favorite of the collapsed section, expands it;
    /// otherwise opens the highlighted entry's details where they show more.
    pub open spec fn arrow_right(self) -> Step<P, H, W> {
        let current = self.highlight();
        let pinned = self.section_pinned_ids();
        let on_collapsed = !self.pinned_expanded && (current matches Some(id) && pinned.contains(
            id,
        ));
        if self.show_sections() && pinned.len() > 0 && on_collapsed {
            self.finish_nav(current, current, Some(true))
        } else if self.query.len() == 0 && (current matches Some(id) && self.details_requested
            != Some(id) && self.has_extra_detail(id)) {
            (self, EffectsModel::task(UiTask::Follow(Followup::DetailRequested(current->0))))
        } else {
            self.finish_nav(current, current, None)
        }
    }

    /// Moving the highlight to `new_id` with `Home`, `End`, `PgUp` or `PgDn`.
    pub open spec fn jump(self, new_id: Option<u64>) -> Step<P, H, W> {
        self.finish_nav(self.highlight(), new_id, self.expand_for(new_id))
    }

    /// Pasting the entry at place `index` of `ids`, where there is one.
    pub open spec fn paste_nth(self, ids: Seq<u64>, index: nat) -> Step<P, H, W> {
        if index < ids.len() {
            self.paste(ids[index as int])
        } else {
            (self, EffectsModel::none())
        }
    }

    /// A key that types `text`, with `mods` held. Outside the search box, `?`
    /// shows or hides the shortcut list and any other text starts a search.
    pub open spec fn character(self, text: Seq<char>, mods: Modifiers) -> Step<P, H, W> {
        let current = self.highlight();
        if mods.control && !mods.shift && is_letter(text, 'v') && !self.input_active
            && current is Some {
            self.paste(current->0)
        } else if mods.control && mods.shift && is_letter(text, 'v') && !self.input_active
            && current is Some {
            self.paste_text(current->0)
        } else if mods.control {
            if is_letter(text, 'r') {
                (self, EffectsModel::task(UiTask::Follow(Followup::Refresh)))
            } else if is_letter(text, 'd') {
                (self, self.toggle_detail())
            } else {
                match leading_digit(text) {
                    Some(d) => if mods.shift {
                        self.paste_nth(ids_of(self.pinned()), d)
                    } else {
                        self.paste_nth(ids_of(self.nav()), d)
                    },
                    None => (self, EffectsModel::none()),
                }
            }
        } else if mods.alt {
            if is_letter(text, 'x') || is_letter(text, 'm') {
                self.toggle_search_kind()
            } else {
                match leading_digit(text) {
                    Some(d) => if 1 <= d <= 5 {
                        (
                            self,
                            EffectsModel::task(
                                UiTask::Follow(Followup::TabSelected(tab_order()[d - 1])),
                            ),
                        )
                    } else {
                        (self, EffectsModel::none())
                    },
                    None => (self, EffectsModel::none()),
                }
            }
        } else if !self.input_active && text == seq!['?'] {
            (AppModel { shortcuts_shown: !self.shortcuts_shown, ..self }, EffectsModel::none())
        } else if !self.input_active {
            let m = AppModel { input_active: true, query: self.query + text, ..self };
            let (m2, fx) = m.send_search();
            (m2, fx.followed_by(EffectsModel::task(UiTask::FocusSearch)))
        } else {
            (self, EffectsModel::none())
        }
    }

    /// A key press.
    pub open spec fn key_pressed(self, key: Key, mods: Modifiers) -> Step<P, H, W> {
        let current = self.highlight();
        match key {
            Key::Enter => if self.input_active {
                (self, EffectsModel::none())
            } else {
                match current {
                    Some(id) => self.paste(id),
                    None => (self, EffectsModel::none()),
                }
            },
            Key::Escape => self.escape(),
            Key::ArrowDown => if mods.control && mods.shift {
                match current {
                    Some(id) => self.move_favorite_down(id),
                    None => (self, EffectsModel::none()),
                }
            } else if !mods.control {
                self.arrow_down()
            } else {
                (self, EffectsModel::none())
            },
            Key::ArrowUp => if mods.control && mods.shift {
                match current {
                    Some(id) => self.move_favorite_up(id),
                    None => (self, EffectsModel::none()),
                }
            } else if !mods.control {
                self.arrow_up()
            } else {
                (self, EffectsModel::none())
            },
            Key::ArrowLeft => self.arrow_left(),
            Key::ArrowRight => self.arrow_right(),
            Key::Tab => if mods.control {
                if mods.shift {
                    (self, EffectsModel::task(UiTask::Follow(Followup::TabPrev)))
                } else {
                    (self, EffectsModel::task(UiTask::Follow(Followup::TabNext)))
                }
            } else {
                (self, EffectsModel::none())
            },
            Key::Character(text) => self.character(text@, mods),
            Key::Delete => match current {
                Some(id) => self.delete(id),
                None => (self, EffectsModel::none()),
            },
            Key::Home => self.jump(first_id(ids_of(self.nav()))),
            Key::End => self.jump(last_id(ids_of(self.nav()))),
            Key::PageUp => self.jump(page_up_of(ids_of(self.nav()), current)),
            Key::PageDown => self.jump(page_down_of(ids_of(self.nav()), current)),
            Key::Other => (self, EffectsModel::none()),
        }
    }

    /// A keyboard event: modifier changes record whether `Ctrl` is held.
    pub open spec fn key_event(self, event: KeyEvent) -> Step<P, H, W> {
        match event {
            KeyEvent::ModifiersChanged(mods) => (
                AppModel { ctrl_held: mods.control, ..self },
                EffectsModel::none(),
            ),
            KeyEvent::KeyReleased(mods) => (
                AppModel { ctrl_held: mods.control, ..self },
                EffectsModel::none(),
            ),
            KeyEvent::KeyPressed(key, mods) => self.key_pressed(key, mods),
        }
    }
}

impl<P, H, W> AppModel<P, H, W> {
    /// What a message does; `done` is whether the search in flight had
    /// finished where a server event asked.
    pub open spec fn step(self, msg: Msg<P, W>, done: bool) -> Step<P, H, W> {
        match msg {
            Msg::Controller(event) => self.controller(event.model(), done),
            Msg::KeyEvent(event) => self.key_event(event),
            Msg::WindowEvent(id, event) => self.window_event(id, event),
            Msg::WindowIdResolved(id) => match id {
                Some(id) => (self.note_window(id), EffectsModel::none()),
                None => (self, EffectsModel::none()),
            },
            Msg::WakeRequested => self.wake(),
            Msg::SearchChanged(query) => self.search_changed(query@),
            Msg::SearchKindToggled => self.toggle_search_kind(),
            Msg::TabSelected(tab) => self.select_tab(tab),
            Msg::TabNext => self.cycle_tab(1),
            Msg::TabPrev => self.cycle_tab(-1),
            Msg::PinnedToggled => (
                AppModel { pinned_expanded: !self.pinned_expanded, ..self },
                EffectsModel::none(),
            ),
            Msg::EntryClicked(id) => AppModel { input_active: false, ..self }.paste(id),
            Msg::FavPaste(id) => AppModel { input_active: false, ..self }.paste(id),
            Msg::FavoriteToggled(id) => self.toggle_favorite(id),
            Msg::DeleteEntry(id) => self.delete(id),
            Msg::DetailRequested(id) => self.open_detail(id),
            Msg::DetailClosed => self.close_detail(),
            Msg::SearchInputFocusRequested => (
                AppModel { input_active: true, ..self },
                EffectsModel::task(UiTask::FocusSearch),
            ),
            Msg::MoveFavoriteUp(id) => self.move_favorite_up(id),
            Msg::MoveFavoriteDown(id) => self.move_favorite_down(id),
            Msg::Refresh => self.refresh(),
            Msg::DismissError => (AppModel { last_error: None, ..self }, EffectsModel::none()),
            Msg::EntryHovered(id) => (AppModel { hovered_id: id, ..self }, EffectsModel::none()),
            Msg::SettingsLoaded(result) => (
                self.settings_loaded(
                    match result {
                        Ok(v) => Ok(v),
                        Err(e) => Err(e@),
                    },
                ),
                EffectsModel::none(),
            ),
            Msg::SettingsMaxMainChanged(value) => (
                AppModel { max_main: value@, ..self },
                EffectsModel::none(),
            ),
            Msg::SettingsMaxFavoritesChanged(value) => (
                AppModel { max_favorites: value@, ..self },
                EffectsModel::none(),
            ),
            Msg::SettingsSaveRequested => self.save_settings(),
            Msg::SettingsSaved(result) => (
                self.settings_saved(
                    match result {
                        Ok(v) => Ok(v),
                        Err(e) => Err(e@),
                    },
                ),
                EffectsModel::none(),
            ),
            Msg::SettingsGcBytesChanged(value) => (
                AppModel { gc_bytes: value@, ..self },
                EffectsModel::none(),
            ),
            Msg::SettingsGcRequested => self.run_gc(),
        }
    }
}

/// The model of a [`ControllerEvent`].
pub enum ControllerEventModel<P> {
    FatalDbOpen(ClientError),
    Error(clipboard_history_client_sdk::ui_actor::CommandError),
    LoadedFirstPage { entries: Seq<Entry<P>>, default_focused_id: Option<u64> },
    EntryDetails { id: u64, result: Option<DetailedEntry> },
    SearchResults(Seq<Entry<P>>),
    FavoriteChange(u64),
    Deleted(u64),
    LoadedImage { id: u64 },
    Pasted,
    Swapped,
    GarbageCollected { bytes_freed: u64 },
}

impl<P> ControllerEvent<P> {
    pub open spec fn model(&self) -> ControllerEventModel<P> {
        match self {
            ControllerEvent::FatalDbOpen(e) => ControllerEventModel::FatalDbOpen(*e),
            ControllerEvent::Error(e) => ControllerEventModel::Error(*e),
            ControllerEvent::LoadedFirstPage { entries, default_focused_id } =>
                ControllerEventModel::LoadedFirstPage {
                entries: entries@,
                default_focused_id: *default_focused_id,
            },
            ControllerEvent::EntryDetails { id, result } => ControllerEventModel::EntryDetails {
                id: *id,
                result: *result,
            },
            ControllerEvent::SearchResults(entries) => ControllerEventModel::SearchResults(
                entries@,
            ),
            ControllerEvent::FavoriteChange(id) => ControllerEventModel::FavoriteChange(*id),
            ControllerEvent::Deleted(id) => ControllerEventModel::Deleted(*id),
            ControllerEvent::LoadedImage { id } => ControllerEventModel::LoadedImage { id: *id },
            ControllerEvent::Pasted => ControllerEventModel::Pasted,
            ControllerEvent::Swapped => ControllerEventModel::Swapped,
            ControllerEvent::GarbageCollected { bytes_freed } =>
                ControllerEventModel::GarbageCollected { bytes_freed: *bytes_freed },
        }
    }
}

} // verus!
