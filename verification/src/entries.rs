//! The list of clipboard entries as the window shows it: which entries a tab
//! lists, how the list splits into pinned favorites and recent entries, the
//! order the keyboard walks through, and where the highlight moves.

use vstd::prelude::*;

verus! {

/// Which ring of the clipboard database an entry lives in.
#[derive(Clone, Copy, PartialEq, Eq, Structural, Debug)]
pub enum Ring {
    Main,
    Favorites,
}

/// What an entry's list row shows, which decides the tabs it is listed on.
#[derive(Clone, Copy, PartialEq, Eq, Structural, Debug)]
pub enum EntryKind {
    Text,
    HighlightedText,
    Image,
    Binary,
    Error,
}

/// The tabs of the window, in their order on screen.
#[derive(Clone, Copy, PartialEq, Eq, Structural, Debug)]
pub enum Tab {
    All,
    Text,
    Images,
    Favorites,
    Settings,
}

/// One clipboard entry as the window's logic sees it: its id, its ring, the
/// kind of its row, and the payload that the window renders, which the logic
/// never reads.
pub struct Entry<P> {
    pub id: u64,
    pub ring: Ring,
    pub kind: EntryKind,
    pub payload: P,
}

impl EntryKind {
    pub open spec fn text_spec(&self) -> bool {
        *self == EntryKind::Text || *self == EntryKind::HighlightedText
    }

    /// Whether the row shows text (plain or with a search match highlighted).
    #[verifier::when_used_as_spec(text_spec)]
    pub fn is_text(&self) -> (r: bool)
        ensures
            r == self.text_spec(),
    {
        match self {
            EntryKind::Text | EntryKind::HighlightedText => true,
            _ => false,
        }
    }

    pub open spec fn extra_detail_spec(&self) -> bool {
        *self != EntryKind::Error
    }

    /// Whether the details view has more to show than the row: the full
    /// text, the full-size image or the MIME type. An entry that failed to
    /// load has nothing more.
    #[verifier::when_used_as_spec(extra_detail_spec)]
    pub fn has_extra_detail(&self) -> (r: bool)
        ensures
            r == self.extra_detail_spec(),
    {
        match self {
            EntryKind::Error => false,
            _ => true,
        }
    }
}

/// The tabs in the order that cycling and `Alt`+digit go through.
pub open spec fn tab_order() -> Seq<Tab> {
    seq![Tab::All, Tab::Text, Tab::Images, Tab::Favorites, Tab::Settings]
}

/// A tab's place in [`tab_order`].
pub open spec fn tab_index(tab: Tab) -> int {
    match tab {
        Tab::All => 0,
        Tab::Text => 1,
        Tab::Images => 2,
        Tab::Favorites => 3,
        Tab::Settings => 4,
    }
}

/// The number of tabs.
pub const TAB_COUNT: usize = 5;

/// The tab at `index` of [`tab_order`].
pub fn tab_at(index: usize) -> (tab: Tab)
    requires
        index < TAB_COUNT,
    ensures
        tab == tab_order()[index as int],
        tab_index(tab) == index,
{
    if index == 0 {
        Tab::All
    } else if index == 1 {
        Tab::Text
    } else if index == 2 {
        Tab::Images
    } else if index == 3 {
        Tab::Favorites
    } else {
        Tab::Settings
    }
}

/// The place of `tab` in [`tab_order`].
pub fn position_of_tab(tab: Tab) -> (index: usize)
    ensures
        index == tab_index(tab),
        index < TAB_COUNT,
        tab_order()[index as int] == tab,
{
    match tab {
        Tab::All => 0,
        Tab::Text => 1,
        Tab::Images => 2,
        Tab::Favorites => 3,
        Tab::Settings => 4,
    }
}

/// Whether `tab` lists `e`.
pub open spec fn tab_shows<P>(tab: Tab, e: Entry<P>) -> bool {
    match tab {
        Tab::All => true,
        Tab::Text => e.kind.text_spec(),
        Tab::Images => e.kind == EntryKind::Image,
        Tab::Favorites => e.ring == Ring::Favorites,
        Tab::Settings => false,
    }
}

pub open spec fn shows_pred<P>(tab: Tab) -> spec_fn(Entry<P>) -> bool {
    |e: Entry<P>| tab_shows(tab, e)
}

pub open spec fn is_pinned<P>(e: Entry<P>) -> bool {
    e.ring == Ring::Favorites
}

pub open spec fn pinned_pred<P>() -> spec_fn(Entry<P>) -> bool {
    |e: Entry<P>| is_pinned(e)
}

pub open spec fn unpinned_pred<P>() -> spec_fn(Entry<P>) -> bool {
    |e: Entry<P>| !is_pinned(e)
}

/// The entries of `list` that `tab` lists, in their order.
pub open spec fn shown<P>(tab: Tab, list: Seq<Entry<P>>) -> Seq<Entry<P>> {
    list.filter(shows_pred(tab))
}

/// The favorites among `list`, in their order.
pub open spec fn pinned_of<P>(list: Seq<Entry<P>>) -> Seq<Entry<P>> {
    list.filter(pinned_pred())
}

/// The entries of `list` that are not favorites, in their order.
pub open spec fn unpinned_of<P>(list: Seq<Entry<P>>) -> Seq<Entry<P>> {
    list.filter(unpinned_pred())
}

/// The ids of `list`, in its order.
pub open spec fn ids_of<P>(list: Seq<Entry<P>>) -> Seq<u64> {
    list.map_values(|e: Entry<P>| e.id)
}

/// The first id of `ids`, if there is one.
pub open spec fn first_id(ids: Seq<u64>) -> Option<u64> {
    if ids.len() > 0 {
        Some(ids[0])
    } else {
        None
    }
}

/// The last id of `ids`, if there is one.
pub open spec fn last_id(ids: Seq<u64>) -> Option<u64> {
    if ids.len() > 0 {
        Some(ids.last())
    } else {
        None
    }
}

/// `i` is the first place of `id` in `ids`.
pub open spec fn first_index(ids: Seq<u64>, id: u64, i: int) -> bool {
    &&& 0 <= i < ids.len()
    &&& ids[i] == id
    &&& forall|j: int| 0 <= j < i ==> ids[j] != id
}

/// The first place of `id` in `ids`, or `None` where it does not occur.
pub open spec fn position(ids: Seq<u64>, id: u64) -> Option<int> {
    if ids.contains(id) {
        Some(choose|i: int| first_index(ids, id, i))
    } else {
        None
    }
}

/// Where the highlight goes on `Down`: from nothing to the first entry; from
/// an entry to the one after it; from the last entry, or from an id that is
/// not listed, back to the first.
pub open spec fn next_of(ids: Seq<u64>, current: Option<u64>) -> Option<u64> {
    match current {
        None => first_id(ids),
        Some(id) => match position(ids, id) {
            Some(i) => if i + 1 < ids.len() {
                Some(ids[i + 1])
            } else {
                first_id(ids)
            },
            None => first_id(ids),
        },
    }
}

/// Where the highlight goes on `Up`: from nothing to the last entry; from an
/// entry to the one before it; from the first entry, or from an id that is
/// not listed, to the last.
pub open spec fn prev_of(ids: Seq<u64>, current: Option<u64>) -> Option<u64> {
    match current {
        None => last_id(ids),
        Some(id) => match position(ids, id) {
            Some(i) => if i > 0 {
                Some(ids[i - 1])
            } else {
                last_id(ids)
            },
            None => last_id(ids),
        },
    }
}

/// The number of entries that `PgUp` and `PgDn` move the highlight by.
pub const PAGE_ROWS: usize = 10;

/// Where the highlight goes on `PgDn`: a page further down, but no further
/// than the last entry; from nothing, or from an id that is not listed, to
/// the first entry.
pub open spec fn page_down_of(ids: Seq<u64>, current: Option<u64>) -> Option<u64> {
    if ids.len() == 0 {
        None
    } else {
        match current {
            Some(id) => match position(ids, id) {
                Some(i) => if i + PAGE_ROWS < ids.len() {
                    Some(ids[i + PAGE_ROWS])
                } else {
                    Some(ids.last())
                },
                None => Some(ids[0]),
            },
            None => Some(ids[0]),
        }
    }
}

/// Where the highlight goes on `PgUp`: a page further up, but no further
/// than the first entry; from nothing, or from an id that is not listed, to
/// the first entry.
pub open spec fn page_up_of(ids: Seq<u64>, current: Option<u64>) -> Option<u64> {
    if ids.len() == 0 {
        None
    } else {
        match current {
            Some(id) => match position(ids, id) {
                Some(i) => if i >= PAGE_ROWS {
                    Some(ids[i - PAGE_ROWS])
                } else {
                    Some(ids[0])
                },
                None => Some(ids[0]),
            },
            None => Some(ids[0]),
        }
    }
}

proof fn lemma_first_index_unique(ids: Seq<u64>, id: u64, i: int, k: int)
    requires
        first_index(ids, id, i),
        first_index(ids, id, k),
    ensures
        i == k,
{
    if i < k {
        assert(ids[i] != id);
    } else if k < i {
        assert(ids[k] != id);
    }
}

/// The first place of `id` in `ids` is the place that [`position`] names.
pub proof fn lemma_position(ids: Seq<u64>, id: u64, i: int)
    requires
        first_index(ids, id, i),
    ensures
        position(ids, id) == Some(i),
{
    assert(ids.contains(id)) by {
        assert(ids[i] == id);
    }
    let k = choose|k: int| first_index(ids, id, k);
    assert(first_index(ids, id, k));
    lemma_first_index_unique(ids, id, i, k);
}

proof fn lemma_first_index_below(ids: Seq<u64>, id: u64, j: int)
    requires
        0 <= j < ids.len(),
        ids[j] == id,
    ensures
        exists|i: int| first_index(ids, id, i),
    decreases j,
{
    if exists|k: int| 0 <= k < j && ids[k] == id {
        let k = choose|k: int| 0 <= k < j && ids[k] == id;
        lemma_first_index_below(ids, id, k);
    } else {
        assert(first_index(ids, id, j));
    }
}

/// An id that occurs in `ids` has a first place, and [`position`] names it.
pub proof fn lemma_position_of_listed(ids: Seq<u64>, id: u64)
    requires
        ids.contains(id),
    ensures
        position(ids, id) matches Some(i) && first_index(ids, id, i),
{
    let j = choose|j: int| 0 <= j < ids.len() && ids[j] == id;
    lemma_first_index_below(ids, id, j);
    let i = choose|i: int| first_index(ids, id, i);
    lemma_position(ids, id, i);
}

/// In a list without repeated ids, `i` is the first place of the id it holds.
pub proof fn lemma_distinct_first_index(ids: Seq<u64>, i: int)
    requires
        ids.no_duplicates(),
        0 <= i < ids.len(),
    ensures
        first_index(ids, ids[i], i),
        position(ids, ids[i]) == Some(i),
{
    lemma_position(ids, ids[i], i);
}

proof fn lemma_filter_step<A>(s: Seq<A>, p: spec_fn(A) -> bool, i: int)
    requires
        0 <= i < s.len(),
    ensures
        s.take(i + 1).filter(p) == (if p(s[i]) {
            s.take(i).filter(p).push(s[i])
        } else {
            s.take(i).filter(p)
        }),
{
    reveal(Seq::filter);
    assert(s.take(i + 1).drop_last() =~= s.take(i));
}

proof fn lemma_unref_push<A>(s: Seq<&A>, x: &A)
    ensures
        s.push(x).unref() == s.unref().push(*x),
{
    assert(s.push(x).unref() =~= s.unref().push(*x));
}

/// Whether `tab` lists `e`.
pub fn tab_lists<P>(tab: Tab, e: &Entry<P>) -> (r: bool)
    ensures
        r == tab_shows(tab, *e),
{
    match tab {
        Tab::All => true,
        Tab::Text => e.kind.is_text(),
        Tab::Images => e.kind == EntryKind::Image,
        Tab::Favorites => e.ring == Ring::Favorites,
        Tab::Settings => false,
    }
}

/// The entries of `list` that `tab` lists, in their order.
pub fn shown_entries<'a, P>(tab: Tab, list: &'a [Entry<P>]) -> (r: Vec<&'a Entry<P>>)
    ensures
        r@.unref() == shown(tab, list@),
{
    let mut out: Vec<&'a Entry<P>> = Vec::new();
    let mut i: usize = 0;
    while i < list.len()
        invariant
            i <= list@.len(),
            out@.unref() == list@.take(i as int).filter(shows_pred(tab)),
        decreases list@.len() - i,
    {
        proof {
            lemma_filter_step(list@, shows_pred(tab), i as int);
        }
        let e = &list[i];
        if tab_lists(tab, e) {
            proof {
                lemma_unref_push(out@, e);
            }
            out.push(e);
        }
        i += 1;
    }
    proof {
        assert(list@.take(list@.len() as int) =~= list@);
    }
    out
}

/// Whether `tab` lists any entry of `list`.
pub fn any_shown<P>(tab: Tab, list: &[Entry<P>]) -> (r: bool)
    ensures
        r == (shown(tab, list@).len() > 0),
{
    let mut i: usize = 0;
    while i < list.len()
        invariant
            i <= list@.len(),
            list@.take(i as int).filter(shows_pred(tab)).len() == 0,
        decreases list@.len() - i,
    {
        proof {
            lemma_filter_step(list@, shows_pred(tab), i as int);
        }
        if tab_lists(tab, &list[i]) {
            proof {
                lemma_filter_monotone(list@, shows_pred(tab), i + 1);
            }
            return true;
        }
        i += 1;
    }
    proof {
        assert(list@.take(list@.len() as int) =~= list@);
    }
    false
}

/// Filtering a prefix gives no more than filtering the whole sequence.
proof fn lemma_filter_monotone<A>(s: Seq<A>, p: spec_fn(A) -> bool, i: int)
    requires
        0 <= i <= s.len(),
    ensures
        s.take(i).filter(p).len() <= s.filter(p).len(),
    decreases s.len() - i,
{
    if i < s.len() {
        lemma_filter_step(s, p, i);
        lemma_filter_monotone(s, p, i + 1);
    } else {
        assert(s.take(i) =~= s);
    }
}

/// Splits `list` into its favorites and the rest, each in the order of `list`.
pub fn split_pinned<'a, P>(list: Vec<&'a Entry<P>>) -> (r: (Vec<&'a Entry<P>>, Vec<&'a Entry<P>>))
    ensures
        r.0@.unref() == pinned_of(list@.unref()),
        r.1@.unref() == unpinned_of(list@.unref()),
{
    let ghost s = list@.unref();
    let mut pinned: Vec<&'a Entry<P>> = Vec::new();
    let mut unpinned: Vec<&'a Entry<P>> = Vec::new();
    let mut i: usize = 0;
    while i < list.len()
        invariant
            i <= list@.len(),
            s == list@.unref(),
            pinned@.unref() == s.take(i as int).filter(pinned_pred()),
            unpinned@.unref() == s.take(i as int).filter(unpinned_pred()),
        decreases list@.len() - i,
    {
        proof {
            lemma_filter_step(s, pinned_pred::<P>(), i as int);
            lemma_filter_step(s, unpinned_pred::<P>(), i as int);
        }
        let e = list[i];
        if e.ring == Ring::Favorites {
            proof {
                lemma_unref_push(pinned@, e);
            }
            pinned.push(e);
        } else {
            proof {
                lemma_unref_push(unpinned@, e);
            }
            unpinned.push(e);
        }
        i += 1;
    }
    proof {
        assert(s.take(list@.len() as int) =~= s);
    }
    (pinned, unpinned)
}

/// The first place of `id` among the ids of `list`, or `None` where no entry
/// of `list` has it.
pub fn index_of_id<P>(list: &[&Entry<P>], id: u64) -> (r: Option<usize>)
    ensures
        r matches Some(i) ==> i < list@.len() && first_index(ids_of(list@.unref()), id, i as int)
            && position(ids_of(list@.unref()), id) == Some(i as int),
        r is None ==> position(ids_of(list@.unref()), id) is None,
{
    let ghost ids = ids_of(list@.unref());
    let mut i: usize = 0;
    while i < list.len()
        invariant
            i <= list@.len(),
            ids == ids_of(list@.unref()),
            ids.len() == list@.len(),
            forall|j: int| 0 <= j < i ==> ids[j] != id,
        decreases list@.len() - i,
    {
        if list[i].id == id {
            proof {
                assert(first_index(ids, id, i as int));
                lemma_position(ids, id, i as int);
            }
            return Some(i);
        }
        i += 1;
    }
    proof {
        assert(!ids.contains(id));
    }
    None
}

/// Where the highlight goes on `Down` through `nav` (see [`next_of`]).
pub fn next_id<P>(nav: &[&Entry<P>], current_id: Option<u64>) -> (r: Option<u64>)
    ensures
        r == next_of(ids_of(nav@.unref()), current_id),
{
    let ghost ids = ids_of(nav@.unref());
    match current_id {
        None => {
            if nav.len() > 0 {
                Some(nav[0].id)
            } else {
                None
            }
        },
        Some(id) => {
            let idx = index_of_id(nav, id);
            match idx {
                Some(i) => {
                    if i < nav.len() - 1 {
                        Some(nav[i + 1].id)
                    } else {
                        Some(nav[0].id)
                    }
                },
                None => {
                    if nav.len() > 0 {
                        Some(nav[0].id)
                    } else {
                        None
                    }
                },
            }
        },
    }
}

/// Where the highlight goes on `Up` through `nav` (see [`prev_of`]).
pub fn prev_id<P>(nav: &[&Entry<P>], current_id: Option<u64>) -> (r: Option<u64>)
    ensures
        r == prev_of(ids_of(nav@.unref()), current_id),
{
    let ghost ids = ids_of(nav@.unref());
    match current_id {
        None => {
            if nav.len() > 0 {
                Some(nav[nav.len() - 1].id)
            } else {
                None
            }
        },
        Some(id) => {
            let idx = index_of_id(nav, id);
            match idx {
                Some(i) => {
                    if i > 0 {
                        Some(nav[i - 1].id)
                    } else {
                        Some(nav[nav.len() - 1].id)
                    }
                },
                None => {
                    if nav.len() > 0 {
                        Some(nav[nav.len() - 1].id)
                    } else {
                        None
                    }
                },
            }
        },
    }
}

/// The id of the first entry of `nav`, if there is one.
pub fn first_entry_id<P>(nav: &[&Entry<P>]) -> (r: Option<u64>)
    ensures
        r == first_id(ids_of(nav@.unref())),
{
    if nav.len() > 0 {
        Some(nav[0].id)
    } else {
        None
    }
}

/// The id of the last entry of `nav`, if there is one.
pub fn last_entry_id<P>(nav: &[&Entry<P>]) -> (r: Option<u64>)
    ensures
        r == last_id(ids_of(nav@.unref())),
{
    if nav.len() > 0 {
        Some(nav[nav.len() - 1].id)
    } else {
        None
    }
}

/// Where the highlight goes on `PgDn` through `nav` (see [`page_down_of`]).
pub fn page_down_id<P>(nav: &[&Entry<P>], current_id: Option<u64>) -> (r: Option<u64>)
    ensures
        r == page_down_of(ids_of(nav@.unref()), current_id),
{
    if nav.len() == 0 {
        return None;
    }
    match current_id {
        Some(id) => match index_of_id(nav, id) {
            Some(i) => {
                if nav.len() - i > PAGE_ROWS {
                    Some(nav[i + PAGE_ROWS].id)
                } else {
                    Some(nav[nav.len() - 1].id)
                }
            },
            None => Some(nav[0].id),
        },
        None => Some(nav[0].id),
    }
}

/// Where the highlight goes on `PgUp` through `nav` (see [`page_up_of`]).
pub fn page_up_id<P>(nav: &[&Entry<P>], current_id: Option<u64>) -> (r: Option<u64>)
    ensures
        r == page_up_of(ids_of(nav@.unref()), current_id),
{
    if nav.len() == 0 {
        return None;
    }
    match current_id {
        Some(id) => match index_of_id(nav, id) {
            Some(i) => {
                if i >= PAGE_ROWS {
                    Some(nav[i - PAGE_ROWS].id)
                } else {
                    Some(nav[0].id)
                }
            },
            None => Some(nav[0].id),
        },
        None => Some(nav[0].id),
    }
}

/// Moving the highlight down and then up comes back to where it was: in a
/// list without repeated ids, `Up` from the entry that `Down` reached from
/// `x` is `x` again, the wrap from the last entry to the first included.
pub proof fn law_up_undoes_down(ids: Seq<u64>, x: u64)
    requires
        ids.no_duplicates(),
        ids.contains(x),
    ensures
        prev_of(ids, next_of(ids, Some(x))) == Some(x),
{
    let i = choose|i: int| 0 <= i < ids.len() && ids[i] == x;
    lemma_distinct_first_index(ids, i);
    if i + 1 < ids.len() {
        lemma_distinct_first_index(ids, i + 1);
    } else {
        lemma_distinct_first_index(ids, 0);
    }
}

/// Moving the highlight up and then down comes back to where it was: in a
/// list without repeated ids, `Down` from the entry that `Up` reached from
/// `x` is `x` again, the wrap from the first entry to the last included.
pub proof fn law_down_undoes_up(ids: Seq<u64>, x: u64)
    requires
        ids.no_duplicates(),
        ids.contains(x),
    ensures
        next_of(ids, prev_of(ids, Some(x))) == Some(x),
{
    let i = choose|i: int| 0 <= i < ids.len() && ids[i] == x;
    lemma_distinct_first_index(ids, i);
    if i > 0 {
        lemma_distinct_first_index(ids, i - 1);
    } else {
        lemma_distinct_first_index(ids, ids.len() - 1);
    }
}

/// On a list that is not empty, `Up` and `Down` always land on a listed
/// entry, whatever was highlighted before; on an empty list they clear the
/// highlight.
pub proof fn law_moves_land_on_listed_entries(ids: Seq<u64>, current: Option<u64>)
    ensures
        ids.len() > 0 ==> (next_of(ids, current) matches Some(y) && ids.contains(y)),
        ids.len() > 0 ==> (prev_of(ids, current) matches Some(y) && ids.contains(y)),
        ids.len() == 0 ==> next_of(ids, current) is None && prev_of(ids, current) is None,
{
    if ids.len() > 0 {
        assert(ids.contains(ids[0]));
        assert(ids.contains(ids[ids.len() - 1]));
        if let Some(id) = current {
            if ids.contains(id) {
                lemma_position_of_listed(ids, id);
                let i = position(ids, id).unwrap();
                if i + 1 < ids.len() {
                    assert(ids.contains(ids[i + 1]));
                }
                if i > 0 {
                    assert(ids.contains(ids[i - 1]));
                }
            }
        }
    } else {
        if let Some(id) = current {
            assert(!ids.contains(id));
        }
    }
}

proof fn lemma_split_counts<A>(s: Seq<A>, p: spec_fn(A) -> bool, q: spec_fn(A) -> bool)
    requires
        forall|a: A| #[trigger] q(a) == !p(a),
    ensures
        s.filter(p).to_multiset().add(s.filter(q).to_multiset()) =~= s.to_multiset(),
    decreases s.len(),
{
    broadcast use vstd::seq_lib::group_to_multiset_ensures;
    broadcast use vstd::multiset::group_multiset_axioms;

    reveal(Seq::filter);
    if s.len() > 0 {
        lemma_split_counts(s.drop_last(), p, q);
        assert(s.drop_last().push(s.last()) =~= s);
    } else {
        assert(s.filter(p) =~= Seq::<A>::empty());
        assert(s.filter(q) =~= Seq::<A>::empty());
    }
}

/// Splitting a list into pinned favorites and the rest loses and adds
/// nothing: the two parts, one after the other, hold exactly the entries of
/// the list, and each part keeps only its own kind.
pub proof fn law_split_is_a_partition<P>(list: Seq<Entry<P>>)
    ensures
        (pinned_of(list) + unpinned_of(list)).to_multiset() =~= list.to_multiset(),
        forall|i: int| 0 <= i < pinned_of(list).len() ==> is_pinned(#[trigger] pinned_of(list)[i]),
        forall|i: int| 0 <= i < unpinned_of(list).len() ==> !is_pinned(#[trigger] unpinned_of(list)[i]),
{
    broadcast use vstd::seq_lib::group_filter_ensures;

    lemma_split_counts(list, pinned_pred::<P>(), unpinned_pred::<P>());
    vstd::seq_lib::lemma_multiset_commutative(pinned_of(list), unpinned_of(list));
    assert forall|i: int| 0 <= i < pinned_of(list).len() implies is_pinned(
        #[trigger] pinned_of(list)[i],
    ) by {
        list.lemma_filter_pred(pinned_pred::<P>(), i);
    }
    assert forall|i: int| 0 <= i < unpinned_of(list).len() implies !is_pinned(
        #[trigger] unpinned_of(list)[i],
    ) by {
        list.lemma_filter_pred(unpinned_pred::<P>(), i);
    }
}

} // verus!
