//! What holds of the window across events: the round trips of the keyboard,
//! the tabs, the search kinds and the Settings tab, what the image pipelines
//! keep, and what a cancelled search or a deleted entry leaves behind.

use vstd::prelude::*;

use crate::entries::{
    first_id, last_id, page_down_of, page_up_of, position, PAGE_ROWS,
    ids_of, law_split_is_a_partition, law_up_undoes_down, tab_index, tab_order,
};
use crate::entries::EntryKind;
use crate::model::{
    next_search_kind, AppModel, Key, Modifiers, Msg, RequestModel, ControllerEventModel, EffectsModel,
    Followup, UiTask,
};
use crate::state::SearchKind;
use crate::pipeline::PipelineModel;
use crate::text::law_decimal_round_trip;

verus! {

proof fn lemma_tab_order()
    ensures
        forall|k: int| 0 <= k < 5 ==> tab_index(#[trigger] tab_order()[k]) == k,
{
    assert(tab_index(tab_order()[0]) == 0);
    assert(tab_index(tab_order()[1]) == 1);
    assert(tab_index(tab_order()[2]) == 2);
    assert(tab_index(tab_order()[3]) == 3);
    assert(tab_index(tab_order()[4]) == 4);
}

/// `Ctrl+Tab` then `Ctrl+Shift+Tab` (and the other way round) comes back to
/// the tab it started on.
pub proof fn law_tab_next_then_prev<P, H, W>(m: AppModel<P, H, W>)
    ensures
        m.cycle_tab(1).0.cycle_tab(-1).0.active_tab == m.active_tab,
        m.cycle_tab(-1).0.cycle_tab(1).0.active_tab == m.active_tab,
{
    lemma_tab_order();
    let t = tab_index(m.active_tab);
    assert(0 <= t < 5);
    assert(((t + 1) % 5 - 1) % 5 == t);
    assert(((t - 1) % 5 + 1) % 5 == t);
}

proof fn lemma_cycle_index<P, H, W>(m: AppModel<P, H, W>, delta: int)
    ensures
        tab_index(m.cycle_tab(delta).0.active_tab) == (tab_index(m.active_tab) + delta) % 5,
{
    lemma_tab_order();
}

/// Five `Ctrl+Tab` presses go round all the tabs back to the first one.
pub proof fn law_five_tabs_make_a_round<P, H, W>(m: AppModel<P, H, W>)
    ensures
        m.cycle_tab(1).0.cycle_tab(1).0.cycle_tab(1).0.cycle_tab(1).0.cycle_tab(1).0.active_tab
            == m.active_tab,
{
    let m1 = m.cycle_tab(1).0;
    let m2 = m1.cycle_tab(1).0;
    let m3 = m2.cycle_tab(1).0;
    let m4 = m3.cycle_tab(1).0;
    let m5 = m4.cycle_tab(1).0;
    lemma_cycle_index(m, 1);
    lemma_cycle_index(m1, 1);
    lemma_cycle_index(m2, 1);
    lemma_cycle_index(m3, 1);
    lemma_cycle_index(m4, 1);
    let t = tab_index(m.active_tab);
    assert(0 <= t < 5);
    assert(tab_index(m5.active_tab) == t);
    assert(m5.active_tab == m.active_tab);
}

/// The search kind cycles plain, RegEx, MIME: three switches come back to
/// the kind it started on, and with an empty search box nothing else changes
/// and nothing is sent.
pub proof fn law_search_kind_cycle<P, H, W>(m: AppModel<P, H, W>)
    ensures
        next_search_kind(next_search_kind(next_search_kind(m.search_kind))) == m.search_kind,
        m.toggle_search_kind().0.toggle_search_kind().0.toggle_search_kind().0.search_kind
            == m.search_kind,
        m.query.len() == 0 ==> m.toggle_search_kind().0.toggle_search_kind().0.toggle_search_kind().0
            == m,
{
}

/// The sections and the keyboard see the same entries: the navigation order
/// holds exactly the entries that the tab lists, the rows on screen are that
/// order wherever Favorites is expanded or there are no sections, and
/// without sections it is the tab's list itself.
pub proof fn law_sections_agree<P, H, W>(m: AppModel<P, H, W>)
    ensures
        m.nav().to_multiset() =~= m.filtered().to_multiset(),
        m.pinned_expanded || !m.show_sections() ==> m.render_order() == m.nav(),
        !m.show_sections() ==> m.nav() == m.filtered(),
{
    law_split_is_a_partition(m.filtered());
}

/// Loading the server's limits into the Settings tab and saving them without
/// an edit writes back the same limits.
pub proof fn law_settings_round_trip<P, H, W>(m: AppModel<P, H, W>, main: u32, favorites: u32)
    requires
        main > 0,
        favorites > 0,
    ensures
        ({
            let loaded = m.settings_loaded(Ok((main, favorites)));
            loaded.save_settings() == (
                AppModel { saving: true, status: None, ..loaded },
                EffectsModel::<W>::task(UiTask::SaveSettings { main, favorites }),
            )
        }),
{
    law_decimal_round_trip(main as nat, u32::MAX as nat);
    law_decimal_round_trip(favorites as nat, u32::MAX as nat);
}

/// Asking twice for an image sends one request: once asked for, an image is
/// in flight and a second request changes nothing.
pub proof fn law_request_once<H>(p: PipelineModel<H>, id: u64)
    ensures
        !p.request(id).needs_request(id),
        p.request(id).request(id) == p.request(id),
        p.request(id).pending.contains(id) || p.cache.contains_key(id),
{
}

/// Claiming the image that was just asked for leaves the pipeline as it was
/// before the request.
pub proof fn law_claim_undoes_request<H>(p: PipelineModel<H>, id: u64)
    requires
        p.needs_request(id),
    ensures
        p.request(id).pending.contains(id),
        p.request(id).claim(id) == p,
{
    assert(p.request(id).claim(id).pending =~= p.pending);
}

/// A pipeline holds an image or a request in flight only for the ids it
/// was told to keep, and keeps all of those it had.
pub proof fn law_retain_keeps_only_live<H>(p: PipelineModel<H>, live: Set<u64>, id: u64)
    ensures
        p.retain(live).cache.contains_key(id) <==> p.cache.contains_key(id) && live.contains(id),
        p.retain(live).pending.contains(id) <==> p.pending.contains(id) && live.contains(id),
        p.retain(live).cache.contains_key(id) ==> p.retain(live).cache[id] == p.cache[id],
{
}

/// After pruning, the window holds a thumbnail only for an entry that is
/// listed on the first page or among the search results.
pub proof fn law_pruned_thumbnails_are_listed<P, H, W>(m: AppModel<P, H, W>, id: u64)
    ensures
        m.prune_image_caches().thumbnails.cache.contains_key(id) ==> ids_of(
            m.loaded + m.results,
        ).contains(id),
{
    let live = ids_of(m.loaded + m.results);
    if m.prune_image_caches().thumbnails.cache.contains_key(id) {
        assert(live.to_set().contains(id));
    }
}

/// A deleted entry's id may be reused by the next entry in its slot, so no
/// image of it is kept, nor asked for, after the server reports the deletion.
pub proof fn law_deleted_entry_leaves_no_image<P, H, W>(m: AppModel<P, H, W>, id: u64, done: bool)
    ensures
        ({
            let after = m.controller(ControllerEventModel::Deleted(id), done).0;
            &&& !after.thumbnails.cache.contains_key(id)
            &&& !after.thumbnails.pending.contains(id)
            &&& !after.detail_images.cache.contains_key(id)
            &&& !after.detail_images.pending.contains(id)
        }),
{
}

/// Closing the details view drops the full-size image of the entry that was
/// open.
pub proof fn law_closed_details_leave_no_image<P, H, W>(m: AppModel<P, H, W>, id: u64)
    requires
        m.details_requested == Some(id),
    ensures
        !m.close_detail().0.detail_images.cache.contains_key(id),
        m.close_detail().0.details_requested is None,
{
}

/// Search results that arrive when no search is in flight were cancelled
/// (by `Esc` or a cleared query) and change nothing.
pub proof fn law_cancelled_results_are_dropped<P, H, W>(
    m: AppModel<P, H, W>,
    entries: Seq<crate::entries::Entry<P>>,
    done: bool,
)
    requires
        !m.searching,
    ensures
        m.controller(ControllerEventModel::SearchResults(entries), done) == (
            m,
            EffectsModel::<W>::none(),
        ),
{
}

/// `Esc` in the search box clears the search and cancels any search in
/// flight; with nothing typed, no details open and the search box left, it
/// closes (or hides) the window.
pub proof fn law_escape_order<P, H, W>(m: AppModel<P, H, W>)
    ensures
        m.input_active ==> ({
            let after = m.escape().0;
            &&& after.query.len() == 0
            &&& after.results.len() == 0
            &&& !after.searching
            &&& !after.input_active
        }),
        !m.input_active && m.details_requested is None && m.query.len() == 0 ==> m.escape()
            == m.close_or_hide(),
{
}

/// Hiding the window resets it for the next time it is shown: no query,
/// results, highlight, details or image stay, and it keeps its tab, its
/// first page and its window id.
pub proof fn law_hidden_window_starts_fresh<P, H, W>(m: AppModel<P, H, W>, id: W)
    ensures
        ({
            let after = m.hide_window(id).0;
            &&& after.query.len() == 0
            &&& after.results.len() == 0
            &&& after.highlight() is None
            &&& after.details_requested is None
            &&& after.thumbnails == PipelineModel::<H>::empty()
            &&& after.detail_images == PipelineModel::<H>::empty()
            &&& after.active_tab == m.active_tab
            &&& after.loaded == m.loaded
            &&& after.window_id == m.window_id
        }),
{
}

proof fn lemma_finish_nav<P, H, W>(
    m: AppModel<P, H, W>,
    current: Option<u64>,
    new_id: Option<u64>,
    set_pinned: Option<bool>,
)
    ensures
        ({
            let after = m.finish_nav(current, new_id, set_pinned).0;
            &&& after.highlight() == new_id
            &&& after.query == m.query
            &&& after.active_tab == m.active_tab
            &&& after.loaded == m.loaded
            &&& after.results == m.results
        }),
{
}

proof fn lemma_nav_depends_on_lists<P, H, W>(a: AppModel<P, H, W>, b: AppModel<P, H, W>)
    requires
        a.query == b.query,
        a.active_tab == b.active_tab,
        a.loaded == b.loaded,
        a.results == b.results,
    ensures
        a.nav() == b.nav(),
{
}

/// In the search results (where `Up` and `Down` never jump to the search
/// box), `Down` then `Up` comes back to the highlighted entry, provided the
/// list has no repeated ids and lists that entry.
pub proof fn law_down_then_up<P, H, W>(m: AppModel<P, H, W>)
    requires
        m.query.len() > 0,
        ids_of(m.nav()).no_duplicates(),
        m.highlight() matches Some(x) && ids_of(m.nav()).contains(x),
    ensures
        m.arrow_down().0.arrow_up().0.highlight() == m.highlight(),
{
    let x = m.highlight()->0;
    let nav = ids_of(m.nav());
    law_up_undoes_down(nav, x);
    let m1 = AppModel { input_active: false, ..m };
    lemma_nav_depends_on_lists(m1, m);
    let new_id = crate::entries::next_of(nav, m.highlight());
    let down = m1.finish_nav(m.highlight(), new_id, m1.expand_for(new_id)).0;
    assert(m.arrow_down().0 == down);
    lemma_finish_nav(m1, m.highlight(), new_id, m1.expand_for(new_id));
    lemma_nav_depends_on_lists(down, m);
    let back = crate::entries::prev_of(nav, new_id);
    assert(back == Some(x));
    let up = down.finish_nav(new_id, back, down.expand_for(back)).0;
    assert(down.arrow_up().0 == up);
    lemma_finish_nav(down, new_id, back, down.expand_for(back));
}

/// Without a query, `Down` from the last entry does not wrap to the first
/// one: it goes to the search box and leaves the highlight where it was.
pub proof fn law_down_from_last_entry_focuses_search<P, H, W>(m: AppModel<P, H, W>)
    requires
        m.query.len() == 0,
        ids_of(m.nav()).no_duplicates(),
        ids_of(m.nav()).len() >= 2,
        m.highlight() == Some(ids_of(m.nav()).last()),
    ensures
        m.arrow_down() == (
            AppModel { input_active: true, ..m },
            EffectsModel::<W>::task(UiTask::FocusSearch),
        ),
{
    let nav = ids_of(m.nav());
    let m1 = AppModel { input_active: false, ..m };
    lemma_nav_depends_on_lists(m1, m);
    crate::entries::lemma_distinct_first_index(nav, nav.len() - 1);
    assert(nav[0] != nav[nav.len() - 1]);
}

/// Without a query, `Up` from the first entry goes to the search box and
/// leaves the highlight where it was.
pub proof fn law_up_from_first_entry_focuses_search<P, H, W>(m: AppModel<P, H, W>)
    requires
        m.query.len() == 0,
        ids_of(m.nav()).len() >= 1,
        m.highlight() == Some(ids_of(m.nav())[0]),
    ensures
        m.arrow_up() == (
            AppModel { input_active: true, ..m },
            EffectsModel::<W>::task(UiTask::FocusSearch),
        ),
{
}

/// A window that runs in the background hides when it is closed or loses
/// the focus, and a window that does not ends the process when it is closed.
pub proof fn law_close_hides_background_window<P, H, W>(m: AppModel<P, H, W>, id: W)
    ensures
        m.daemon ==> m.window_event(id, crate::model::WindowEvent::CloseRequested)
            == m.note_window(id).hide_window(id),
        m.daemon ==> m.window_event(id, crate::model::WindowEvent::Unfocused) == m.note_window(
            id,
        ).hide_window(id),
        !m.daemon ==> m.window_event(id, crate::model::WindowEvent::CloseRequested) == (
            m.note_window(id),
            EffectsModel::<W>::task(UiTask::Exit),
        ),
{
}

/// `Up` and `Down` never highlight an entry that is not listed: on a list
/// that is not empty, the highlight afterwards is an entry of the navigation
/// order, or it stays where it was (when the keys go to the search box).
pub proof fn law_arrows_keep_the_highlight_listed<P, H, W>(m: AppModel<P, H, W>)
    requires
        ids_of(m.nav()).len() > 0,
    ensures
        m.arrow_down().0.highlight() == m.highlight() || (m.arrow_down().0.highlight() matches Some(
            y,
        ) && ids_of(m.nav()).contains(y)),
        m.arrow_up().0.highlight() == m.highlight() || (m.arrow_up().0.highlight() matches Some(y)
            && ids_of(m.nav()).contains(y)),
{
    let nav = ids_of(m.nav());
    let current = m.highlight();
    crate::entries::law_moves_land_on_listed_entries(nav, current);
    let m1 = AppModel { input_active: false, ..m };
    lemma_nav_depends_on_lists(m1, m);
    let down_id = crate::entries::next_of(nav, current);
    lemma_finish_nav(m1, current, down_id, m1.expand_for(down_id));
    let up_id = crate::entries::prev_of(nav, current);
    lemma_finish_nav(m, current, up_id, m.expand_for(up_id));
}

/// `Home` and `End` highlight the first and the last entry of the
/// navigation order.
pub proof fn law_home_and_end_jump_to_the_ends<P, H, W>(m: AppModel<P, H, W>, mods: Modifiers)
    ensures
        m.key_pressed(Key::Home, mods).0.highlight() == first_id(ids_of(m.nav())),
        m.key_pressed(Key::End, mods).0.highlight() == last_id(ids_of(m.nav())),
{
    let nav = ids_of(m.nav());
    lemma_finish_nav(m, m.highlight(), first_id(nav), m.expand_for(first_id(nav)));
    lemma_finish_nav(m, m.highlight(), last_id(nav), m.expand_for(last_id(nav)));
}

/// On a list that is not empty, `PgUp` and `PgDn` always land on a listed
/// entry.
pub proof fn law_pages_land_on_listed_entries<P, H, W>(m: AppModel<P, H, W>, mods: Modifiers)
    requires
        ids_of(m.nav()).len() > 0,
    ensures
        m.key_pressed(Key::PageDown, mods).0.highlight() matches Some(y) && ids_of(m.nav()).contains(y),
        m.key_pressed(Key::PageUp, mods).0.highlight() matches Some(y) && ids_of(m.nav()).contains(y),
{
    let nav = ids_of(m.nav());
    let down = page_down_of(nav, m.highlight());
    let up = page_up_of(nav, m.highlight());
    lemma_finish_nav(m, m.highlight(), down, m.expand_for(down));
    lemma_finish_nav(m, m.highlight(), up, m.expand_for(up));
    assert(nav.contains(nav[0]));
    assert(nav.contains(nav.last()));
    if let Some(id) = m.highlight() {
        if nav.contains(id) {
            crate::entries::lemma_position_of_listed(nav, id);
            let i = position(nav, id)->0;
            if i + PAGE_ROWS < nav.len() {
                assert(nav.contains(nav[i + PAGE_ROWS]));
            }
            if i >= PAGE_ROWS {
                assert(nav.contains(nav[i - PAGE_ROWS]));
            }
        }
    }
}

/// `Delete` deletes the highlighted entry, as its delete button does.
pub proof fn law_delete_key_deletes_the_highlight<P, H, W>(m: AppModel<P, H, W>, mods: Modifiers, id: u64)
    requires
        m.highlight() == Some(id),
    ensures
        m.key_pressed(Key::Delete, mods) == m.delete(id),
        m.key_pressed(Key::Delete, mods).1.requests[0] == RequestModel::Delete(id),
{
}

/// Outside the search box, `?` shows or hides the shortcut list and sends
/// nothing; pressing it twice leaves the window as it was.
pub proof fn law_question_mark_toggles_the_shortcut_list<P, H, W>(m: AppModel<P, H, W>, mods: Modifiers)
    requires
        !m.input_active,
        !mods.control,
        !mods.alt,
    ensures
        m.character(seq!['?'], mods) == (
            AppModel { shortcuts_shown: !m.shortcuts_shown, ..m },
            EffectsModel::<W>::none(),
        ),
        m.character(seq!['?'], mods).0.character(seq!['?'], mods).0 == m,
{
    assert(!crate::text::is_letter(seq!['?'], 'v'));
    assert(!crate::text::is_letter(seq!['?'], 'x'));
    assert(!crate::text::is_letter(seq!['?'], 'm'));
}

/// Outside the search box and with no details open, `Esc` on a search
/// clears it: no query, results, highlight or error line stay and no search
/// is in flight, the window keeps its tab and its first page, and nothing is sent,
/// so the window stays open.
pub proof fn law_escape_clears_the_search_before_closing<P, H, W>(m: AppModel<P, H, W>, mods: Modifiers)
    requires
        !m.input_active,
        m.details_requested is None,
        m.query.len() > 0,
    ensures
        ({
            let (after, fx) = m.key_pressed(Key::Escape, mods);
            &&& after.query.len() == 0
            &&& after.results.len() == 0
            &&& after.highlighted_id is None
            &&& after.search_highlighted_id is None
            &&& !after.searching
            &&& after.last_error is None
            &&& after.active_tab == m.active_tab
            &&& after.loaded == m.loaded
            &&& after.window_id == m.window_id
            &&& fx.requests.len() == 0
            &&& fx.tasks.len() == 0
        }),
{
}

/// Outside the search box, `Esc` with details open closes them and does
/// nothing else.
pub proof fn law_escape_closes_details_first<P, H, W>(m: AppModel<P, H, W>, mods: Modifiers)
    requires
        !m.input_active,
        m.details_requested is Some,
    ensures
        m.key_pressed(Key::Escape, mods) == (
            m,
            EffectsModel::<W>::task(UiTask::Follow(Followup::DetailClosed)),
        ),
{
}

/// Without a query, `Right` on a highlighted entry that has more to show and
/// whose details are not open asks for its details and does nothing else,
/// unless the entry is a favorite hidden in the collapsed Favorites section.
pub proof fn law_right_opens_details<P, H, W>(m: AppModel<P, H, W>, mods: Modifiers, id: u64)
    requires
        m.query.len() == 0,
        m.highlight() == Some(id),
        m.details_requested != Some(id),
        m.find(id) matches Some(e) && e.kind != EntryKind::Error,
        !(m.show_sections() && !m.pinned_expanded && ids_of(m.pinned()).contains(id)),
    ensures
        m.key_pressed(Key::ArrowRight, mods) == (
            m,
            EffectsModel::<W>::task(UiTask::Follow(Followup::DetailRequested(id))),
        ),
{
}

/// `Right` on a favorite of the collapsed Favorites section expands it,
/// keeps the highlight there and sends no request.
pub proof fn law_right_expands_collapsed_favorites<P, H, W>(m: AppModel<P, H, W>, mods: Modifiers, id: u64)
    requires
        m.show_sections(),
        !m.pinned_expanded,
        m.highlight() == Some(id),
        ids_of(m.pinned()).contains(id),
    ensures
        ({
            let (after, fx) = m.key_pressed(Key::ArrowRight, mods);
            &&& after.pinned_expanded
            &&& after.highlight() == Some(id)
            &&& fx.requests.len() == 0
        }),
{
    assert(ids_of(m.pinned()).len() > 0);
}

/// Switching the search kind with a query searches again: exactly one
/// request goes out, a search for the same query with the new kind, which
/// differs from the old one, and that search is in flight afterwards.
/// Plain goes to RegEx, RegEx to MIME and MIME back to plain.
pub proof fn law_search_kind_switch_searches_again<P, H, W>(m: AppModel<P, H, W>, done: bool)
    requires
        m.query.len() > 0,
    ensures
        ({
            let (after, fx) = m.step(Msg::SearchKindToggled, done);
            &&& after.search_kind != m.search_kind
            &&& (m.search_kind == SearchKind::Plain ==> after.search_kind == SearchKind::Regex)
            &&& (m.search_kind == SearchKind::Regex ==> after.search_kind == SearchKind::Mime)
            &&& (m.search_kind == SearchKind::Mime ==> after.search_kind == SearchKind::Plain)
            &&& fx.requests == seq![RequestModel::Search { query: m.query, kind: after.search_kind }]
            &&& fx.tasks.len() == 0
            &&& after.searching
            &&& after.query == m.query
        }),
{
}

/// The details the server sends for the entry whose details were asked for
/// are the ones the details view shows; details of any other entry change
/// nothing.
pub proof fn law_requested_details_are_shown<P, H, W>(
    m: AppModel<P, H, W>,
    id: u64,
    result: Option<clipboard_history_client_sdk::ui_actor::DetailedEntry>,
    done: bool,
)
    ensures
        m.details_requested == Some(id) ==> m.controller(
            ControllerEventModel::EntryDetails { id, result },
            done,
        ).0.detailed_entry == result,
        m.details_requested == Some(id) ==> m.controller(
            ControllerEventModel::EntryDetails { id, result },
            done,
        ).0.details_requested == Some(id),
        m.details_requested != Some(id) ==> m.controller(
            ControllerEventModel::EntryDetails { id, result },
            done,
        ) == (m, EffectsModel::<W>::none()),
{
}

/// A keyboard move (`Up`, `Down`, `Home`, `End`, `PgUp`, `PgDn`) that lands
/// on another entry, and that entry is a favorite of the Favorites section,
/// leaves that section expanded, so the highlighted row is on screen.
pub proof fn law_moves_onto_a_favorite_expand_favorites<P, H, W>(
    m: AppModel<P, H, W>,
    key: Key,
    mods: Modifiers,
    id: u64,
)
    requires
        key is ArrowUp || key is ArrowDown || key is Home || key is End || key is PageUp
            || key is PageDown,
        !mods.control,
        m.show_sections(),
        m.key_pressed(key, mods).0.highlight() == Some(id),
        m.highlight() != Some(id),
        ids_of(m.pinned()).contains(id),
    ensures
        m.key_pressed(key, mods).0.pinned_expanded,
{
    let nav = ids_of(m.nav());
    let current = m.highlight();
    let new_id = match key {
        Key::ArrowUp => crate::entries::prev_of(nav, current),
        Key::ArrowDown => crate::entries::next_of(nav, current),
        Key::Home => first_id(nav),
        Key::End => last_id(nav),
        Key::PageUp => page_up_of(nav, current),
        _ => page_down_of(nav, current),
    };
    if key is ArrowDown {
        let m1 = AppModel { input_active: false, ..m };
        lemma_nav_depends_on_lists(m1, m);
        lemma_finish_nav(m1, current, new_id, m1.expand_for(new_id));
    } else {
        lemma_finish_nav(m, current, new_id, m.expand_for(new_id));
    }
}

} // verus!
