use ringboard_iced::app::RingboardApp;
use ringboard_iced::entries::{Entry, EntryKind, Ring, Tab};
use ringboard_iced::keys::{captured_arrow_key, EventStatus, UiEvent};
use ringboard_iced::model::{
    ControllerEvent, Effects, Followup, ImageKind, Key, KeyEvent, Modifiers, Msg, Request,
    UiTask, WindowEvent,
};
use ringboard_iced::state::{SearchKind, UiError};

type App = RingboardApp<(), u32, u64>;

fn entry(id: u64, ring: Ring, kind: EntryKind) -> Entry<()> {
    Entry { id, ring, kind, payload: () }
}

fn plain() -> Modifiers {
    Modifiers { control: false, shift: false, alt: false }
}

fn ctrl() -> Modifiers {
    Modifiers { control: true, shift: false, alt: false }
}

fn ctrl_shift() -> Modifiers {
    Modifiers { control: true, shift: true, alt: false }
}

fn alt() -> Modifiers {
    Modifiers { control: false, shift: false, alt: true }
}

/// A window listing two recent entries and two favorites, in the order the
/// server returned them: 1 (recent text), 2 (favorite text), 3 (recent
/// image), 4 (favorite text).
fn listed_app() -> App {
    let mut app = App::new(true);
    app.state.entries.loaded_entries = vec![
        entry(1, Ring::Main, EntryKind::Text),
        entry(2, Ring::Favorites, EntryKind::Text),
        entry(3, Ring::Main, EntryKind::Image),
        entry(4, Ring::Favorites, EntryKind::HighlightedText),
    ];
    app
}

fn send(app: &mut App, msg: Msg<(), u64>) -> Effects<u64> {
    let mut fx = Effects::new();
    app.update(msg, &mut fx);
    fx
}

fn press(app: &mut App, key: Key, mods: Modifiers) -> Effects<u64> {
    send(app, Msg::KeyEvent(KeyEvent::KeyPressed(key, mods)))
}

fn typed(app: &mut App, text: &str, mods: Modifiers) -> Effects<u64> {
    press(app, Key::Character(text.to_string()), mods)
}

fn ids(list: &[&Entry<()>]) -> Vec<u64> {
    list.iter().map(|e| e.id).collect()
}

#[test]
fn favorites_come_first_in_navigation_order() {
    let app = listed_app();
    assert!(app.show_sections());
    let (pinned, unpinned) = app.partitioned_entries();
    assert_eq!(ids(&pinned), vec![2, 4]);
    assert_eq!(ids(&unpinned), vec![1, 3]);
    assert_eq!(ids(&app.nav_entries()), vec![2, 4, 1, 3]);
    assert_eq!(ids(&app.filtered_entries()), vec![1, 2, 3, 4]);
    assert!(app.has_visible_entries());
}

#[test]
fn tabs_filter_the_list() {
    let mut app = listed_app();
    app.state.ui.active_tab = Tab::Text;
    assert!(!app.show_sections());
    assert_eq!(ids(&app.filtered_entries()), vec![1, 2, 4]);
    assert_eq!(ids(&app.nav_entries()), vec![1, 2, 4]);
    app.state.ui.active_tab = Tab::Images;
    assert_eq!(ids(&app.filtered_entries()), vec![3]);
    app.state.ui.active_tab = Tab::Favorites;
    assert_eq!(ids(&app.filtered_entries()), vec![2, 4]);
    app.state.ui.active_tab = Tab::Settings;
    assert!(app.filtered_entries().is_empty());
    assert!(!app.has_visible_entries());
}

#[test]
fn down_walks_the_list_and_wraps_to_the_search_box() {
    let mut app = listed_app();
    let fx = press(&mut app, Key::ArrowDown, plain());
    assert_eq!(app.state.ui.highlighted_id, Some(2));
    assert!(!app.state.ui.input_active);
    // Landing on a favorite expands the collapsed Favorites section.
    assert!(app.state.ui.pinned_expanded);
    assert!(matches!(fx.tasks[0], UiTask::ScrollTo { .. }));
    press(&mut app, Key::ArrowDown, plain());
    assert_eq!(app.state.ui.highlighted_id, Some(4));
    press(&mut app, Key::ArrowDown, plain());
    assert_eq!(app.state.ui.highlighted_id, Some(1));
    press(&mut app, Key::ArrowDown, plain());
    assert_eq!(app.state.ui.highlighted_id, Some(3));
    let fx = press(&mut app, Key::ArrowDown, plain());
    assert_eq!(fx.tasks, vec![UiTask::FocusSearch]);
    assert!(app.state.ui.input_active);
    assert_eq!(app.state.ui.highlighted_id, Some(3));
}

#[test]
fn up_from_the_first_entry_focuses_the_search_box() {
    let mut app = listed_app();
    app.state.ui.highlighted_id = Some(2);
    app.state.ui.input_active = false;
    let fx = press(&mut app, Key::ArrowUp, plain());
    assert_eq!(fx.tasks, vec![UiTask::FocusSearch]);
    assert!(app.state.ui.input_active);
    app.state.ui.highlighted_id = Some(1);
    press(&mut app, Key::ArrowUp, plain());
    assert_eq!(app.state.ui.highlighted_id, Some(4));
}

#[test]
fn down_then_up_in_search_results_comes_back() {
    let mut app = App::new(true);
    app.state.ui.query = "x".to_string();
    app.state.entries.search_results = vec![
        entry(7, Ring::Main, EntryKind::Text),
        entry(8, Ring::Main, EntryKind::Text),
        entry(9, Ring::Main, EntryKind::Text),
    ];
    app.state.ui.search_highlighted_id = Some(9);
    press(&mut app, Key::ArrowDown, plain());
    assert_eq!(app.state.ui.search_highlighted_id, Some(7));
    press(&mut app, Key::ArrowUp, plain());
    assert_eq!(app.state.ui.search_highlighted_id, Some(9));
    assert_eq!(app.state.ui.highlighted_id, None);
}

#[test]
fn enter_pastes_the_highlighted_entry_unless_typing() {
    let mut app = listed_app();
    app.state.ui.highlighted_id = Some(3);
    let fx = press(&mut app, Key::Enter, plain());
    assert!(fx.requests.is_empty());
    app.state.ui.input_active = false;
    let fx = press(&mut app, Key::Enter, plain());
    assert!(matches!(fx.requests[..], [Request::Paste(3)]));
}

#[test]
fn ctrl_v_pastes_and_ctrl_shift_v_pastes_text() {
    let mut app = listed_app();
    app.state.ui.highlighted_id = Some(1);
    app.state.ui.input_active = false;
    let fx = typed(&mut app, "V", ctrl());
    assert!(matches!(fx.requests[..], [Request::Paste(1)]));
    let fx = typed(&mut app, "v", ctrl_shift());
    assert!(matches!(fx.requests[..], [Request::PasteText(1)]));
}

#[test]
fn ctrl_digit_pastes_the_nth_entry_of_navigation_order() {
    let mut app = listed_app();
    let fx = typed(&mut app, "2", ctrl());
    assert!(matches!(fx.requests[..], [Request::Paste(1)]));
    let fx = typed(&mut app, "1", ctrl_shift());
    assert!(matches!(fx.requests[..], [Request::Paste(4)]));
    let fx = typed(&mut app, "9", ctrl());
    assert!(fx.requests.is_empty());
    let fx = typed(&mut app, "2", ctrl_shift());
    assert!(fx.requests.is_empty());
}

#[test]
fn ctrl_r_and_ctrl_d_ask_for_follow_ups() {
    let mut app = listed_app();
    let fx = typed(&mut app, "r", ctrl());
    assert_eq!(fx.tasks, vec![UiTask::Follow(Followup::Refresh)]);
    app.state.ui.highlighted_id = Some(1);
    let fx = typed(&mut app, "d", ctrl());
    assert_eq!(fx.tasks, vec![UiTask::Follow(Followup::DetailRequested(1))]);
    app.state.ui.details_requested = Some(1);
    let fx = typed(&mut app, "D", ctrl());
    assert_eq!(fx.tasks, vec![UiTask::Follow(Followup::DetailClosed)]);
}

#[test]
fn alt_digit_jumps_to_a_tab() {
    let mut app = listed_app();
    let fx = typed(&mut app, "3", alt());
    assert_eq!(fx.tasks, vec![UiTask::Follow(Followup::TabSelected(Tab::Images))]);
    let fx = typed(&mut app, "5", alt());
    assert_eq!(fx.tasks, vec![UiTask::Follow(Followup::TabSelected(Tab::Settings))]);
    let fx = typed(&mut app, "6", alt());
    assert!(fx.tasks.is_empty());
    let fx = typed(&mut app, "0", alt());
    assert!(fx.tasks.is_empty());
}

#[test]
fn alt_x_cycles_the_search_kind() {
    let mut app = listed_app();
    typed(&mut app, "x", alt());
    assert_eq!(app.state.ui.search_kind, SearchKind::Regex);
    typed(&mut app, "M", alt());
    assert_eq!(app.state.ui.search_kind, SearchKind::Mime);
    let fx = send(&mut app, Msg::SearchKindToggled);
    assert_eq!(app.state.ui.search_kind, SearchKind::Plain);
    assert!(fx.requests.is_empty());
}

#[test]
fn typing_outside_the_search_box_starts_a_search() {
    let mut app = listed_app();
    app.state.ui.input_active = false;
    let fx = typed(&mut app, "ab", plain());
    assert!(app.state.ui.input_active);
    assert_eq!(app.state.ui.query, "ab");
    assert!(app.state.ui.pending_search_token.is_some());
    assert_eq!(fx.tasks, vec![UiTask::FocusSearch]);
    match &fx.requests[..] {
        [Request::Search { query, kind, .. }] => {
            assert_eq!(query, "ab");
            assert_eq!(*kind, SearchKind::Plain);
        },
        _ => panic!("expected one search request"),
    }
    // Typing inside the search box is the text input's business.
    let fx = typed(&mut app, "c", plain());
    assert!(fx.requests.is_empty());
    assert_eq!(app.state.ui.query, "ab");
}

#[test]
fn escape_clears_the_search_then_details_then_closes() {
    let mut app = listed_app();
    app.window_id = Some(9);
    app.state.ui.query = "abc".to_string();
    app.state.entries.search_results = vec![entry(5, Ring::Main, EntryKind::Text)];
    let fx = press(&mut app, Key::Escape, plain());
    assert!(fx.tasks.is_empty());
    assert!(!app.state.ui.input_active);
    assert_eq!(app.state.ui.query, "");
    assert!(app.state.entries.search_results.is_empty());
    assert_eq!(app.state.ui.highlighted_id, Some(2));
    app.state.ui.details_requested = Some(2);
    let fx = press(&mut app, Key::Escape, plain());
    assert_eq!(fx.tasks, vec![UiTask::Follow(Followup::DetailClosed)]);
    send(&mut app, Msg::DetailClosed);
    assert_eq!(app.state.ui.details_requested, None);
    let fx = press(&mut app, Key::Escape, plain());
    assert_eq!(fx.tasks, vec![UiTask::Minimize(9, true)]);
    assert!(app.state.ui.input_active);
}

#[test]
fn escape_without_a_window_id_exits() {
    let mut app = listed_app();
    app.state.ui.input_active = false;
    let fx = press(&mut app, Key::Escape, plain());
    assert_eq!(fx.tasks, vec![UiTask::Exit]);
}

#[test]
fn left_and_right_fold_favorites_and_open_details() {
    let mut app = listed_app();
    app.state.ui.highlighted_id = Some(4);
    press(&mut app, Key::ArrowRight, plain());
    assert!(app.state.ui.pinned_expanded);
    press(&mut app, Key::ArrowLeft, plain());
    assert!(!app.state.ui.pinned_expanded);
    assert_eq!(app.state.ui.highlighted_id, Some(1));
    let fx = press(&mut app, Key::ArrowRight, plain());
    assert_eq!(fx.tasks, vec![UiTask::Follow(Followup::DetailRequested(1))]);
    app.state.ui.details_requested = Some(1);
    let fx = press(&mut app, Key::ArrowLeft, plain());
    assert_eq!(fx.tasks, vec![UiTask::Follow(Followup::DetailClosed)]);
}

#[test]
fn ctrl_shift_arrows_swap_favorites() {
    let mut app = listed_app();
    app.state.ui.highlighted_id = Some(4);
    let fx = press(&mut app, Key::ArrowUp, ctrl_shift());
    assert!(matches!(fx.requests[..], [Request::Swap(4, 2), Request::LoadFirstPage]));
    let fx = press(&mut app, Key::ArrowDown, ctrl_shift());
    assert!(fx.requests.is_empty());
    let fx = send(&mut app, Msg::MoveFavoriteDown(2));
    assert!(matches!(fx.requests[..], [Request::Swap(2, 4), Request::LoadFirstPage]));
    assert_eq!(app.state.ui.highlighted_id, Some(2));
}

#[test]
fn ctrl_tab_cycles_tabs_both_ways() {
    let mut app = listed_app();
    let fx = press(&mut app, Key::Tab, ctrl());
    assert_eq!(fx.tasks, vec![UiTask::Follow(Followup::TabNext)]);
    let fx = press(&mut app, Key::Tab, ctrl_shift());
    assert_eq!(fx.tasks, vec![UiTask::Follow(Followup::TabPrev)]);
    send(&mut app, Msg::TabNext);
    assert_eq!(app.state.ui.active_tab, Tab::Text);
    send(&mut app, Msg::TabPrev);
    assert_eq!(app.state.ui.active_tab, Tab::All);
    let fx = send(&mut app, Msg::TabPrev);
    assert_eq!(app.state.ui.active_tab, Tab::Settings);
    assert_eq!(fx.tasks, vec![UiTask::LoadSettings]);
    for _ in 0..5 {
        send(&mut app, Msg::TabNext);
    }
    assert_eq!(app.state.ui.active_tab, Tab::Settings);
}

#[test]
fn modifier_changes_record_ctrl() {
    let mut app = listed_app();
    send(&mut app, Msg::KeyEvent(KeyEvent::ModifiersChanged(ctrl())));
    assert!(app.state.ui.ctrl_held);
    send(&mut app, Msg::KeyEvent(KeyEvent::KeyReleased(plain())));
    assert!(!app.state.ui.ctrl_held);
}

#[test]
fn settings_save_reads_positive_limits() {
    let mut app = listed_app();
    app.state.settings.max_main_entries = " 42\t".to_string();
    app.state.settings.max_favorite_entries = "+1022".to_string();
    let fx = send(&mut app, Msg::SettingsSaveRequested);
    assert_eq!(fx.tasks, vec![UiTask::SaveSettings { main: 42, favorites: 1022 }]);
    assert!(app.state.settings.saving);
    assert!(app.state.settings.status.is_none());
}

#[test]
fn settings_save_rejects_zero_and_garbage() {
    let mut app = listed_app();
    app.state.settings.max_main_entries = "0".to_string();
    app.state.settings.max_favorite_entries = "5".to_string();
    let fx = send(&mut app, Msg::SettingsSaveRequested);
    assert!(fx.tasks.is_empty());
    assert_eq!(
        app.state.settings.status,
        Some(Err("Max main entries must be a positive number".to_string()))
    );
    app.state.settings.max_main_entries = "4294967295".to_string();
    app.state.settings.max_favorite_entries = "4294967296".to_string();
    send(&mut app, Msg::SettingsSaveRequested);
    assert_eq!(
        app.state.settings.status,
        Some(Err("Max favorite entries must be a positive number".to_string()))
    );
    app.state.settings.max_favorite_entries = "1 2".to_string();
    send(&mut app, Msg::SettingsSaveRequested);
    assert_eq!(
        app.state.settings.status,
        Some(Err("Max favorite entries must be a positive number".to_string()))
    );
    assert!(!app.state.settings.saving);
}

#[test]
fn garbage_collection_reads_a_byte_count() {
    let mut app = listed_app();
    app.state.settings.gc_max_wasted_bytes = "\u{3000}18446744073709551615 ".to_string();
    let fx = send(&mut app, Msg::SettingsGcRequested);
    assert!(matches!(
        fx.requests[..],
        [Request::GarbageCollect { max_wasted_bytes: 18446744073709551615 }]
    ));
    assert!(app.state.settings.running_gc);
    app.state.settings.running_gc = false;
    for bad in ["-1", "", "+", "18446744073709551616", "1e3"] {
        app.state.settings.gc_max_wasted_bytes = bad.to_string();
        let fx = send(&mut app, Msg::SettingsGcRequested);
        assert!(fx.requests.is_empty());
        assert_eq!(
            app.state.settings.status,
            Some(Err("Max wasted bytes must be a non-negative number".to_string()))
        );
    }
    app.state.settings.gc_max_wasted_bytes = "0".to_string();
    let fx = send(&mut app, Msg::SettingsGcRequested);
    assert!(matches!(fx.requests[..], [Request::GarbageCollect { max_wasted_bytes: 0 }]));
}

#[test]
fn loaded_limits_save_back_unchanged() {
    let mut app = listed_app();
    send(&mut app, Msg::SettingsLoaded(Ok((131070, 1022))));
    assert!(app.state.settings.loaded);
    assert_eq!(app.state.settings.max_main_entries, "131070");
    assert_eq!(app.state.settings.max_favorite_entries, "1022");
    let fx = send(&mut app, Msg::SettingsSaveRequested);
    assert_eq!(fx.tasks, vec![UiTask::SaveSettings { main: 131070, favorites: 1022 }]);
    send(&mut app, Msg::SettingsSaved(Ok(())));
    assert!(!app.state.settings.saving);
    assert_eq!(
        app.state.settings.status,
        Some(Ok("Saved. Restart the Ringboard server to apply.".to_string()))
    );
    send(&mut app, Msg::SettingsLoaded(Err("no config".to_string())));
    assert_eq!(app.state.settings.status, Some(Err("no config".to_string())));
    // The Settings tab reads the limits only the first time.
    let fx = send(&mut app, Msg::TabSelected(Tab::Settings));
    assert!(fx.tasks.is_empty());
}

#[test]
fn garbage_collected_reports_freed_bytes() {
    let mut app = listed_app();
    app.state.settings.running_gc = true;
    let fx = send(&mut app, Msg::Controller(ControllerEvent::GarbageCollected { bytes_freed: 1234 }));
    assert!(!app.state.settings.running_gc);
    assert_eq!(app.state.settings.status, Some(Ok("Freed 1234 bytes.".to_string())));
    assert!(matches!(fx.requests[..], [Request::LoadFirstPage]));
    send(&mut app, Msg::Controller(ControllerEvent::GarbageCollected { bytes_freed: 0 }));
    assert_eq!(app.state.settings.status, Some(Ok("Freed 0 bytes.".to_string())));
}

#[test]
fn first_page_sets_highlight_and_asks_for_thumbnails_once() {
    let mut app = App::new(true);
    let page = || {
        vec![
            entry(1, Ring::Main, EntryKind::Image),
            entry(2, Ring::Main, EntryKind::Text),
            entry(3, Ring::Favorites, EntryKind::Image),
        ]
    };
    let fx = send(
        &mut app,
        Msg::Controller(ControllerEvent::LoadedFirstPage { entries: page(), default_focused_id: None }),
    );
    assert_eq!(app.state.ui.highlighted_id, Some(1));
    assert!(matches!(fx.requests[..], [Request::LoadImage(1), Request::LoadImage(3)]));
    let fx = send(
        &mut app,
        Msg::Controller(ControllerEvent::LoadedFirstPage { entries: page(), default_focused_id: Some(3) }),
    );
    assert!(fx.requests.is_empty());
    assert_eq!(app.state.ui.highlighted_id, Some(1));
}

#[test]
fn a_default_focus_wins_over_the_first_entry() {
    let mut app = App::new(true);
    send(
        &mut app,
        Msg::Controller(ControllerEvent::LoadedFirstPage {
            entries: vec![entry(1, Ring::Main, EntryKind::Text)],
            default_focused_id: Some(5),
        }),
    );
    assert_eq!(app.state.ui.highlighted_id, Some(5));
}

#[test]
fn image_files_go_to_the_waiting_pipeline() {
    let mut app = App::new(true);
    send(
        &mut app,
        Msg::Controller(ControllerEvent::LoadedFirstPage {
            entries: vec![entry(1, Ring::Main, EntryKind::Image)],
            default_focused_id: None,
        }),
    );
    let fx = send(&mut app, Msg::DetailRequested(1));
    assert!(matches!(
        fx.requests[..],
        [Request::GetDetails { id: 1, with_text: false }, Request::LoadImage(1)]
    ));
    let fx = send(&mut app, Msg::Controller(ControllerEvent::LoadedImage { id: 1 }));
    assert_eq!(fx.tasks, vec![UiTask::DecodeImage { id: 1, kind: ImageKind::Detail }]);
    let fx = send(&mut app, Msg::Controller(ControllerEvent::LoadedImage { id: 1 }));
    assert_eq!(fx.tasks, vec![UiTask::DecodeImage { id: 1, kind: ImageKind::Thumbnail }]);
    let fx = send(&mut app, Msg::Controller(ControllerEvent::LoadedImage { id: 1 }));
    assert!(fx.tasks.is_empty());
}

#[test]
fn deleted_entries_leave_no_images() {
    let mut app = listed_app();
    let mut fx = Effects::new();
    app.store_image(3, ImageKind::Thumbnail, 30, &mut fx);
    app.store_image(3, ImageKind::Detail, 31, &mut fx);
    assert_eq!(app.thumbnails.get(3), Some(&30));
    assert_eq!(app.detail_images.get(3), Some(&31));
    let fx = send(&mut app, Msg::Controller(ControllerEvent::Deleted(3)));
    assert!(matches!(fx.requests[..], [Request::LoadFirstPage]));
    assert_eq!(app.thumbnails.get(3), None);
    assert_eq!(app.detail_images.get(3), None);
}

#[test]
fn stale_thumbnails_are_pruned() {
    let mut app = listed_app();
    let mut fx = Effects::new();
    app.store_image(3, ImageKind::Thumbnail, 30, &mut fx);
    app.store_image(8, ImageKind::Thumbnail, 80, &mut fx);
    send(
        &mut app,
        Msg::Controller(ControllerEvent::LoadedFirstPage {
            entries: app_entries(),
            default_focused_id: None,
        }),
    );
    assert_eq!(app.thumbnails.get(3), Some(&30));
    assert_eq!(app.thumbnails.get(8), None);
}

fn app_entries() -> Vec<Entry<()>> {
    listed_app().state.entries.loaded_entries
}

#[test]
fn search_results_apply_only_while_a_search_is_in_flight() {
    let mut app = listed_app();
    let results = || vec![entry(9, Ring::Main, EntryKind::Text), entry(10, Ring::Main, EntryKind::Image)];
    let fx = send(&mut app, Msg::Controller(ControllerEvent::SearchResults(results())));
    assert!(fx.requests.is_empty());
    assert!(app.state.entries.search_results.is_empty());
    let fx = send(&mut app, Msg::SearchChanged("q".to_string()));
    assert!(matches!(fx.requests[..], [Request::Search { kind: SearchKind::Plain, .. }]));
    let fx = send(&mut app, Msg::Controller(ControllerEvent::SearchResults(results())));
    assert!(matches!(fx.requests[..], [Request::LoadImage(10)]));
    assert_eq!(ids(&app.filtered_entries()), vec![9, 10]);
    assert_eq!(app.state.ui.search_highlighted_id, Some(9));
    // The token was never marked done, so the search stays in flight.
    assert!(app.state.ui.pending_search_token.is_some());
    send(&mut app, Msg::SearchChanged(String::new()));
    assert!(app.state.ui.pending_search_token.is_none());
    assert!(app.state.entries.search_results.is_empty());
    assert_eq!(app.state.ui.query, "");
}

#[test]
fn errors_stop_garbage_collection_and_show() {
    let mut app = listed_app();
    app.state.settings.running_gc = true;
    send(
        &mut app,
        Msg::Controller(ControllerEvent::Error(
            clipboard_history_client_sdk::ui_actor::CommandError::Search,
        )),
    );
    assert!(!app.state.settings.running_gc);
    assert!(matches!(app.state.ui.last_error, Some(UiError::Command(_))));
    send(&mut app, Msg::DismissError);
    assert!(app.state.ui.last_error.is_none());
}

#[test]
fn toggling_a_favorite_unfavorites_it() {
    let mut app = listed_app();
    let fx = send(&mut app, Msg::FavoriteToggled(2));
    assert!(matches!(fx.requests[..], [Request::Unfavorite(2), Request::LoadFirstPage]));
    let fx = send(&mut app, Msg::FavoriteToggled(1));
    assert!(matches!(fx.requests[..], [Request::Favorite(1), Request::LoadFirstPage]));
    let fx = send(&mut app, Msg::FavoriteToggled(77));
    assert!(matches!(fx.requests[..], [Request::Favorite(77), Request::LoadFirstPage]));
}

#[test]
fn deleting_clears_the_highlight() {
    let mut app = listed_app();
    app.state.ui.highlighted_id = Some(1);
    let fx = send(&mut app, Msg::DeleteEntry(1));
    assert!(matches!(fx.requests[..], [Request::Delete(1), Request::LoadFirstPage]));
    assert_eq!(app.state.ui.highlighted_id, None);
}

#[test]
fn favorite_change_highlights_the_entry() {
    let mut app = listed_app();
    let fx = send(&mut app, Msg::Controller(ControllerEvent::FavoriteChange(4)));
    assert_eq!(app.state.ui.highlighted_id, Some(4));
    assert!(matches!(fx.requests[..], [Request::LoadFirstPage]));
}

#[test]
fn details_of_an_image_scroll_by_row_heights() {
    let mut app = listed_app();
    app.state.ui.pinned_expanded = true;
    // Rows on screen: 2, 4 (favorites), 1, 3; the open image row 3 is ten
    // rows high, the others one.
    let fx = send(&mut app, Msg::DetailRequested(3));
    assert!(matches!(
        fx.requests[..],
        [Request::GetDetails { id: 3, with_text: false }, Request::LoadImage(3)]
    ));
    assert_eq!(fx.tasks, vec![UiTask::ScrollTo { before: 30, total: 130 }]);
    let fx = send(&mut app, Msg::DetailRequested(3));
    assert!(fx.requests.is_empty());
    let fx = send(&mut app, Msg::DetailRequested(1));
    assert!(matches!(fx.requests[..], [Request::GetDetails { id: 1, with_text: true }]));
    assert_eq!(fx.tasks, vec![UiTask::ScrollTo { before: 20, total: 116 }]);
}

#[test]
fn detail_images_are_dropped_when_details_close() {
    let mut app = listed_app();
    send(&mut app, Msg::DetailRequested(3));
    let mut fx = Effects::new();
    app.store_image(3, ImageKind::Detail, 5, &mut fx);
    assert_eq!(app.detail_images.get(3), Some(&5));
    assert_eq!(fx.tasks, vec![UiTask::ScrollTo { before: 10, total: 110 }]);
    send(&mut app, Msg::DetailClosed);
    assert_eq!(app.detail_images.get(3), None);
    assert_eq!(app.state.ui.details_requested, None);
}

#[test]
fn window_events_hide_a_background_window() {
    let mut app = listed_app();
    app.state.ui.query = "x".to_string();
    let fx = send(&mut app, Msg::WindowEvent(5, WindowEvent::Unfocused));
    assert_eq!(app.window_id, Some(5));
    assert_eq!(fx.tasks, vec![UiTask::Minimize(5, true)]);
    assert_eq!(app.state.ui.query, "");
    app.state.ui.input_active = false;
    let fx = send(&mut app, Msg::WindowEvent(6, WindowEvent::Focused));
    assert_eq!(fx.tasks, vec![UiTask::FocusSearch]);
    assert!(app.state.ui.input_active);
    assert_eq!(app.window_id, Some(5));

    let mut app = App::new(false);
    let fx = send(&mut app, Msg::WindowEvent(5, WindowEvent::Unfocused));
    assert!(fx.tasks.is_empty());
    let fx = send(&mut app, Msg::WindowEvent(5, WindowEvent::CloseRequested));
    assert_eq!(fx.tasks, vec![UiTask::Exit]);
}

#[test]
fn waking_shows_the_window_and_reloads() {
    let mut app = listed_app();
    let fx = send(&mut app, Msg::WakeRequested);
    assert!(fx.tasks.is_empty());
    assert!(fx.requests.is_empty());
    send(&mut app, Msg::WindowIdResolved(Some(4)));
    let fx = send(&mut app, Msg::WakeRequested);
    assert_eq!(fx.tasks, vec![UiTask::Minimize(4, false), UiTask::GainFocus(4)]);
    assert!(matches!(fx.requests[..], [Request::LoadFirstPage]));
}

#[test]
fn pasted_entries_close_the_window() {
    let mut app = listed_app();
    send(&mut app, Msg::WindowIdResolved(Some(2)));
    let fx = send(&mut app, Msg::Controller(ControllerEvent::Pasted));
    assert_eq!(fx.tasks, vec![UiTask::Minimize(2, true)]);
    let fx = send(&mut app, Msg::EntryClicked(1));
    assert!(matches!(fx.requests[..], [Request::Paste(1)]));
    assert!(!app.state.ui.input_active);
}

#[test]
fn small_messages_set_their_fields() {
    let mut app = listed_app();
    send(&mut app, Msg::PinnedToggled);
    assert!(app.state.ui.pinned_expanded);
    send(&mut app, Msg::EntryHovered(Some(3)));
    assert_eq!(app.state.ui.hovered_id, Some(3));
    send(&mut app, Msg::SettingsMaxMainChanged("7".to_string()));
    send(&mut app, Msg::SettingsMaxFavoritesChanged("8".to_string()));
    send(&mut app, Msg::SettingsGcBytesChanged("9".to_string()));
    assert_eq!(app.state.settings.max_main_entries, "7");
    assert_eq!(app.state.settings.max_favorite_entries, "8");
    assert_eq!(app.state.settings.gc_max_wasted_bytes, "9");
    app.state.ui.input_active = false;
    let fx = send(&mut app, Msg::SearchInputFocusRequested);
    assert_eq!(fx.tasks, vec![UiTask::FocusSearch]);
    assert!(app.state.ui.input_active);
    let fx = send(&mut app, Msg::Refresh);
    assert!(matches!(fx.requests[..], [Request::LoadFirstPage]));
}

#[test]
fn decoded_thumbnails_are_scaled() {
    let mut app = listed_app();
    let pixels = vec![200u8; 640 * 480 * 4];
    let (w, h, scaled) =
        app.handle_image_decoded(ImageKind::Thumbnail, Ok((640, 480, pixels))).unwrap();
    assert_eq!((w, h), (320, 240));
    assert_eq!(scaled.len(), 320 * 240 * 4);
    assert!(scaled.iter().all(|b| *b == 200));
    let pixels = vec![7u8; 64 * 48 * 4];
    let kept = app.handle_image_decoded(ImageKind::Detail, Ok((64, 48, pixels.clone())));
    assert_eq!(kept, Some((64, 48, pixels)));
    assert!(app.state.ui.last_error.is_none());
    assert!(app.handle_image_decoded(ImageKind::Detail, Err("bad png".to_string())).is_none());
    match &app.state.ui.last_error {
        Some(UiError::ImageDecode(message)) => assert_eq!(message, "bad png"),
        _ => panic!("expected a decode error"),
    }
}

#[test]
fn delete_key_deletes_the_highlighted_entry() {
    let mut app = listed_app();
    let fx = press(&mut app, Key::Delete, plain());
    assert!(fx.requests.is_empty());
    app.state.ui.highlighted_id = Some(3);
    let fx = press(&mut app, Key::Delete, plain());
    assert!(matches!(fx.requests[..], [Request::Delete(3), Request::LoadFirstPage]));
    assert_eq!(app.state.ui.highlighted_id, None);
}

#[test]
fn home_and_end_jump_to_the_ends() {
    let mut app = listed_app();
    app.state.ui.highlighted_id = Some(1);
    press(&mut app, Key::Home, plain());
    assert_eq!(app.state.ui.highlighted_id, Some(2));
    assert!(app.state.ui.pinned_expanded);
    press(&mut app, Key::End, plain());
    assert_eq!(app.state.ui.highlighted_id, Some(3));
    let mut empty = App::new(true);
    press(&mut empty, Key::End, plain());
    assert_eq!(empty.state.ui.highlighted_id, None);
}

#[test]
fn page_keys_move_by_ten_entries() {
    let mut app = App::new(true);
    app.state.entries.loaded_entries =
        (1..=25).map(|id| entry(id, Ring::Main, EntryKind::Text)).collect();
    press(&mut app, Key::PageDown, plain());
    assert_eq!(app.state.ui.highlighted_id, Some(1));
    press(&mut app, Key::PageDown, plain());
    assert_eq!(app.state.ui.highlighted_id, Some(11));
    press(&mut app, Key::PageDown, plain());
    assert_eq!(app.state.ui.highlighted_id, Some(21));
    press(&mut app, Key::PageDown, plain());
    assert_eq!(app.state.ui.highlighted_id, Some(25));
    press(&mut app, Key::PageUp, plain());
    assert_eq!(app.state.ui.highlighted_id, Some(15));
    press(&mut app, Key::PageUp, plain());
    assert_eq!(app.state.ui.highlighted_id, Some(5));
    press(&mut app, Key::PageUp, plain());
    assert_eq!(app.state.ui.highlighted_id, Some(1));
}

#[test]
fn question_mark_toggles_the_shortcut_list() {
    let mut app = listed_app();
    app.state.ui.input_active = false;
    let fx = typed(&mut app, "?", plain());
    assert!(app.state.ui.shortcuts_shown);
    assert!(fx.requests.is_empty());
    assert_eq!(app.state.ui.query, "");
    typed(&mut app, "?", plain());
    assert!(!app.state.ui.shortcuts_shown);
}

#[test]
fn only_captured_arrows_are_forwarded() {
    let left = || UiEvent::Keyboard(KeyEvent::KeyPressed(Key::ArrowLeft, plain()));
    let r: Option<Msg<(), u64>> = captured_arrow_key(left(), EventStatus::Captured, 1);
    assert!(matches!(r, Some(Msg::KeyEvent(KeyEvent::KeyPressed(Key::ArrowLeft, _)))));
    let r: Option<Msg<(), u64>> = captured_arrow_key(left(), EventStatus::Ignored, 1);
    assert!(r.is_none());
    let right = UiEvent::Keyboard(KeyEvent::KeyPressed(Key::ArrowRight, ctrl()));
    let r: Option<Msg<(), u64>> = captured_arrow_key(right, EventStatus::Captured, 1);
    assert!(r.is_some());
    let enter = UiEvent::Keyboard(KeyEvent::KeyPressed(Key::Enter, plain()));
    let r: Option<Msg<(), u64>> = captured_arrow_key(enter, EventStatus::Captured, 1);
    assert!(r.is_none());
    let r: Option<Msg<(), u64>> = captured_arrow_key(UiEvent::Other, EventStatus::Captured, 1);
    assert!(r.is_none());
}

#[test]
fn title_names_the_version() {
    let app = listed_app();
    assert_eq!(app.title("0.3.1"), "Ringboard v0.3.1");
}

#[test]
fn tab_matches_follows_the_active_tab() {
    let mut app = listed_app();
    let image = entry(3, Ring::Main, EntryKind::Image);
    let favorite = entry(2, Ring::Favorites, EntryKind::Binary);
    assert!(app.tab_matches(&image));
    app.state.ui.active_tab = Tab::Images;
    assert!(app.tab_matches(&image));
    assert!(!app.tab_matches(&favorite));
    app.state.ui.active_tab = Tab::Favorites;
    assert!(app.tab_matches(&favorite));
    app.state.ui.active_tab = Tab::Text;
    assert!(!app.tab_matches(&favorite));
}

#[test]
fn right_opens_details_only_of_entries_with_more_to_show() {
    assert!(EntryKind::Text.has_extra_detail());
    assert!(EntryKind::HighlightedText.has_extra_detail());
    assert!(EntryKind::Image.has_extra_detail());
    assert!(EntryKind::Binary.has_extra_detail());
    assert!(!EntryKind::Error.has_extra_detail());

    let mut app = App::new(true);
    app.state.entries.loaded_entries = vec![
        entry(1, Ring::Main, EntryKind::Error),
        entry(2, Ring::Main, EntryKind::Binary),
    ];
    app.state.ui.highlighted_id = Some(1);
    let fx = press(&mut app, Key::ArrowRight, plain());
    assert!(fx.tasks.is_empty());
    assert_eq!(app.state.ui.highlighted_id, Some(1));
    app.state.ui.highlighted_id = Some(2);
    let fx = press(&mut app, Key::ArrowRight, plain());
    assert_eq!(fx.tasks, vec![UiTask::Follow(Followup::DetailRequested(2))]);
}
