//! The window's state: what the search box, the highlight, the details
//! view and the Settings tab hold, and the entry lists.

use vstd::prelude::*;

use clipboard_history_client_sdk::search::CancellationTokenSink;
use clipboard_history_client_sdk::ui_actor::{CommandError, DetailedEntry};
use clipboard_history_client_sdk::ClientError;

use crate::entries::{Entry, Tab};

verus! {

/// How the search box's text is matched against the entries.
#[derive(Clone, Copy, PartialEq, Eq, Structural, Debug)]
pub enum SearchKind {
    Plain,
    Regex,
    Mime,
}

/// The error line of the window: an error a request came back with, or an
/// image that failed to decode, with the decoder's message.
pub enum UiError {
    Command(CommandError),
    ImageDecode(String),
}

/// The model of a [`UiError`].
pub enum ErrorModel {
    Command(CommandError),
    ImageDecode(Seq<char>),
}

impl UiError {
    pub open spec fn model(&self) -> ErrorModel {
        match self {
            UiError::Command(e) => ErrorModel::Command(*e),
            UiError::ImageDecode(m) => ErrorModel::ImageDecode(m@),
        }
    }
}

/// The state of the search box, the highlight and the details view.
pub struct UiState {
    pub query: String,
    pub search_kind: SearchKind,
    pub active_tab: Tab,
    /// The highlighted entry of the unfiltered list.
    pub highlighted_id: Option<u64>,
    /// The highlighted entry of the search results.
    pub search_highlighted_id: Option<u64>,
    pub hovered_id: Option<u64>,
    /// Whether the Favorites section of the All tab is expanded.
    pub pinned_expanded: bool,
    /// Whether keystrokes go to the search box.
    pub input_active: bool,
    pub ctrl_held: bool,
    /// Whether the keyboard shortcut list is shown.
    pub shortcuts_shown: bool,
    /// The entry whose details were asked for.
    pub details_requested: Option<u64>,
    /// The details that arrived for it.
    pub detailed_entry: Option<DetailedEntry>,
    pub last_error: Option<UiError>,
    pub fatal_error: Option<ClientError>,
    /// The window's half of the token of the search in flight.
    pub pending_search_token: Option<CancellationTokenSink>,
}

/// The entries of the database's first page and of the last search.
pub struct EntriesState<P> {
    pub loaded_entries: Vec<Entry<P>>,
    pub search_results: Vec<Entry<P>>,
}

/// What the Settings tab's fields hold and how its last action went.
pub struct SettingsState {
    pub max_main_entries: String,
    pub max_favorite_entries: String,
    pub gc_max_wasted_bytes: String,
    pub status: Option<Result<String, String>>,
    /// Whether the server's limits have been read into the fields.
    pub loaded: bool,
    pub saving: bool,
    pub running_gc: bool,
}

/// The whole state that the window renders.
pub struct State<P> {
    pub ui: UiState,
    pub entries: EntriesState<P>,
    pub settings: SettingsState,
}

} // verus!
