//! The child web views that show external pages: which URLs may be opened,
//! the origin each tab belongs to, and the registry that maps origins to tabs.

use vstd::prelude::*;

use super::error::BackendError;
use crate::text::{decimal, lemma_parse_decimal, push_decimal, push_str, string_of};
use crate::url_parts::{
    opt_parsed_view, parse_url, percent_decode_lossy, percent_decoded_lossy, url_parse, ParsedUrl,
    ParsedUrlView,
};

verus! {

/// The scheme, host and port a child web view is bound to.
pub struct WebviewOrigin {
    pub scheme: String,
    pub host: String,
    pub port: u16,
}

pub type OriginView = (Seq<char>, Seq<char>, u16);

impl View for WebviewOrigin {
    type V = OriginView;

    open spec fn view(&self) -> OriginView {
        (self.scheme@, self.host@, self.port)
    }
}

/// A registered child web view: its label and the URL it was opened with.
pub struct ChildTab {
    pub label: String,
    pub url: String,
}

pub type TabView = (Seq<char>, Seq<char>);

impl View for ChildTab {
    type V = TabView;

    open spec fn view(&self) -> TabView {
        (self.label@, self.url@)
    }
}

/// What the front end learns of a tab.
pub struct WebviewTab {
    pub label: String,
    pub url: String,
    pub display_name: String,
}

/// The registry of child web views: the next label number, the tabs by origin,
/// and the origins whose web view is being created.
pub struct WebviewState {
    pub next_id: u64,
    pub tabs: Vec<(WebviewOrigin, ChildTab)>,
    pub creating: Vec<WebviewOrigin>,
}

pub type EntryView = (OriginView, TabView);

pub open spec fn entry_view(e: (WebviewOrigin, ChildTab)) -> EntryView {
    (e.0@, e.1@)
}

/// The tabs of the registry, as values.
pub open spec fn tabs_view(s: WebviewState) -> Seq<EntryView> {
    s.tabs@.map_values(|e: (WebviewOrigin, ChildTab)| entry_view(e))
}

/// The origins being created, as values.
pub open spec fn creating_view(s: WebviewState) -> Seq<OriginView> {
    s.creating@.map_values(|o: WebviewOrigin| o@)
}

pub open spec fn has_origin(tabs: Seq<EntryView>, o: OriginView) -> bool {
    exists|i: int| 0 <= i < tabs.len() && (#[trigger] tabs[i]).0 == o
}

pub open spec fn keys_unique(tabs: Seq<EntryView>) -> bool {
    forall|i: int, j: int| 0 <= i < j < tabs.len() ==> (#[trigger] tabs[i]).0 != (#[trigger] tabs[j]).0
}

pub open spec fn no_duplicates(s: Seq<OriginView>) -> bool {
    forall|i: int, j: int| 0 <= i < j < s.len() ==> s[i] != s[j]
}

impl WebviewState {
    /// Each origin has at most one tab, and is created at most once at a time.
    pub open spec fn wf(self) -> bool {
        &&& keys_unique(tabs_view(self))
        &&& no_duplicates(creating_view(self))
    }
}

/// An empty registry.
pub fn create_webview_state() -> (r: WebviewState)
    ensures
        r.wf(),
        r.next_id == 0,
        tabs_view(r).len() == 0,
        creating_view(r).len() == 0,
{
    let r = WebviewState { next_id: 0, tabs: Vec::new(), creating: Vec::new() };
    assert(tabs_view(r) =~= Seq::<EntryView>::empty());
    assert(creating_view(r) =~= Seq::<OriginView>::empty());
    r
}

fn same_origin(a: &WebviewOrigin, b: &WebviewOrigin) -> (r: bool)
    ensures
        r == (a@ == b@),
{
    a.scheme == b.scheme && a.host == b.host && a.port == b.port
}

fn copy_origin(o: &WebviewOrigin) -> (r: WebviewOrigin)
    ensures
        r@ == o@,
{
    WebviewOrigin { scheme: o.scheme.clone(), host: o.host.clone(), port: o.port }
}

fn copy_tab(t: &ChildTab) -> (r: ChildTab)
    ensures
        r@ == t@,
{
    ChildTab { label: t.label.clone(), url: t.url.clone() }
}

/// The index of the tab of an origin, if there is one.
fn index_of_origin(state: &WebviewState, origin: &WebviewOrigin) -> (r: Option<usize>)
    ensures
        r is None <==> !has_origin(tabs_view(*state), origin@),
        r matches Some(i) ==> i < tabs_view(*state).len() && tabs_view(*state)[i as int].0
            == origin@,
{
    let mut i: usize = 0;
    while i < state.tabs.len()
        invariant
            i <= state.tabs@.len(),
            forall|k: int| 0 <= k < i ==> (#[trigger] tabs_view(*state)[k]).0 != origin@,
        decreases state.tabs@.len() - i,
    {
        assert(tabs_view(*state)[i as int] == entry_view(state.tabs@[i as int]));
        if same_origin(&state.tabs[i].0, origin) {
            return Some(i);
        }
        i = i + 1;
    }
    None
}

/// The tab registered for an origin.
pub fn find_tab(state: &WebviewState, origin: &WebviewOrigin) -> (r: Option<ChildTab>)
    requires
        state.wf(),
    ensures
        r is None <==> !has_origin(tabs_view(*state), origin@),
        r matches Some(t) ==> exists|i: int|
            0 <= i < tabs_view(*state).len() && (#[trigger] tabs_view(*state)[i]) == (origin@, t@),
{
    match index_of_origin(state, origin) {
        None => None,
        Some(i) => {
            let t = copy_tab(&state.tabs[i].1);
            assert(tabs_view(*state)[i as int] == entry_view(state.tabs@[i as int]));
            Some(t)
        },
    }
}

/// The origin of a tab with this label; `ChildWebviewNotFound` when no tab has it.
pub fn find_tab_key(state: &WebviewState, label: &str) -> (r: Result<WebviewOrigin, BackendError>)
    ensures
        r is Err <==> !exists|i: int|
            0 <= i < tabs_view(*state).len() && (#[trigger] tabs_view(*state)[i]).1.0 == label@,
        r is Err ==> r == Err::<WebviewOrigin, BackendError>(BackendError::ChildWebviewNotFound),
        r matches Ok(o) ==> exists|i: int|
            0 <= i < tabs_view(*state).len() && (#[trigger] tabs_view(*state)[i]).1.0 == label@
                && tabs_view(*state)[i].0 == o@,
{
    let mut i: usize = 0;
    while i < state.tabs.len()
        invariant
            i <= state.tabs@.len(),
            forall|k: int| 0 <= k < i ==> (#[trigger] tabs_view(*state)[k]).1.0 != label@,
        decreases state.tabs@.len() - i,
    {
        assert(tabs_view(*state)[i as int] == entry_view(state.tabs@[i as int]));
        if crate::text::str_eq(state.tabs[i].1.label.as_str(), label) {
            return Ok(copy_origin(&state.tabs[i].0));
        }
        i = i + 1;
    }
    Err(BackendError::ChildWebviewNotFound)
}

/// The labels of all tabs, in registry order.
pub fn tab_labels(state: &WebviewState) -> (r: Vec<String>)
    ensures
        r@.len() == tabs_view(*state).len(),
        forall|i: int| 0 <= i < r@.len() ==> (#[trigger] r@[i])@ == tabs_view(*state)[i].1.0,
{
    let mut r: Vec<String> = Vec::new();
    let mut i: usize = 0;
    while i < state.tabs.len()
        invariant
            i <= state.tabs@.len(),
            r@.len() == i,
            forall|k: int| 0 <= k < i ==> (#[trigger] r@[k])@ == tabs_view(*state)[k].1.0,
        decreases state.tabs@.len() - i,
    {
        assert(tabs_view(*state)[i as int] == entry_view(state.tabs@[i as int]));
        r.push(state.tabs[i].1.label.clone());
        i = i + 1;
    }
    r
}

/// The label of a child web view of a number.
pub open spec fn window_label(id: u64) -> Seq<char> {
    "url-window-"@ + decimal(id as nat)
}

/// `wrapping_add(1)` on the label counter.
pub open spec fn next_label_id(id: u64) -> u64 {
    if id == u64::MAX {
        0
    } else {
        (id + 1) as u64
    }
}

/// Takes the next label: `url-window-N`, and advances the counter.
pub fn next_window_label(state: &mut WebviewState) -> (r: String)
    ensures
        r@ == window_label(old(state).next_id),
        final(state).next_id == next_label_id(old(state).next_id),
        final(state).tabs == old(state).tabs,
        final(state).creating == old(state).creating,
{
    let id = state.next_id;
    state.next_id = state.next_id.wrapping_add(1);
    let mut s = string_of("url-window-");
    push_decimal(&mut s, id);
    s
}

/// Distinct counters give distinct labels.
pub proof fn law_window_labels_distinct(a: u64, b: u64)
    requires
        window_label(a) == window_label(b),
    ensures
        a == b,
{
    let p = "url-window-"@;
    let da = decimal(a as nat);
    let db = decimal(b as nat);
    assert(window_label(a).subrange(p.len() as int, window_label(a).len() as int) =~= da);
    assert(window_label(b).subrange(p.len() as int, window_label(b).len() as int) =~= db);
    lemma_parse_decimal(a);
    lemma_parse_decimal(b);
}

fn contains_creating(state: &WebviewState, origin: &WebviewOrigin) -> (r: bool)
    ensures
        r == creating_view(*state).contains(origin@),
{
    let mut i: usize = 0;
    while i < state.creating.len()
        invariant
            i <= state.creating@.len(),
            forall|k: int| 0 <= k < i ==> creating_view(*state)[k] != origin@,
        decreases state.creating@.len() - i,
    {
        if same_origin(&state.creating[i], origin) {
            assert(creating_view(*state)[i as int] == origin@);
            return true;
        }
        i = i + 1;
    }
    false
}

/// Reserves an origin for a web view about to be created, and takes its label.
/// An origin that has a tab, or is already being created, is refused.
pub fn reserve_tab(state: &mut WebviewState, origin: WebviewOrigin) -> (r: Result<String, BackendError>)
    requires
        old(state).wf(),
    ensures
        final(state).wf(),
        (has_origin(tabs_view(*old(state)), origin@) || creating_view(*old(state)).contains(
            origin@,
        )) ==> r == Err::<String, BackendError>(BackendError::OperationInProgress) && *final(state)
            == *old(state),
        !(has_origin(tabs_view(*old(state)), origin@) || creating_view(*old(state)).contains(
            origin@,
        )) ==> (r matches Ok(label) && label@ == window_label(old(state).next_id)) && final(state).next_id == next_label_id(old(state).next_id) && tabs_view(*final(state)) == tabs_view(
            *old(state),
        ) && creating_view(*final(state)) == creating_view(*old(state)).push(origin@),
{
    if index_of_origin(state, &origin).is_some() || contains_creating(state, &origin) {
        return Err(BackendError::OperationInProgress);
    }
    let ghost o = origin@;
    state.creating.push(origin);
    assert(creating_view(*state) =~= creating_view(*old(state)).push(o));
    assert(tabs_view(*state) =~= tabs_view(*old(state)));
    Ok(next_window_label(state))
}

/// The sequence without the occurrences of an origin.
pub open spec fn without(s: Seq<OriginView>, o: OriginView) -> Seq<OriginView> {
    s.filter(not_origin(o))
}

pub open spec fn not_origin(o: OriginView) -> spec_fn(OriginView) -> bool {
    |x: OriginView| x != o
}

/// Removes an origin from the ones being created.
fn remove_creating(state: &mut WebviewState, origin: &WebviewOrigin)
    requires
        old(state).wf(),
    ensures
        final(state).wf(),
        creating_view(*final(state)) == without(creating_view(*old(state)), origin@),
        final(state).tabs == old(state).tabs,
        final(state).next_id == old(state).next_id,
{
    let ghost before = creating_view(*old(state));
    let mut kept: Vec<WebviewOrigin> = Vec::new();
    let mut rest: Vec<WebviewOrigin> = Vec::new();
    std::mem::swap(&mut rest, &mut state.creating);
    assert(rest@.map_values(|o: WebviewOrigin| o@) == before);
    let n = rest.len();
    let mut i: usize = 0;
    while i < n
        invariant
            i <= n,
            n == rest@.len(),
            rest@.map_values(|o: WebviewOrigin| o@) == before,
            kept@.map_values(|o: WebviewOrigin| o@) == without(before.take(i as int), origin@),
            no_duplicates(before),
        decreases n - i,
    {
        assert(before.take(i + 1).drop_last() =~= before.take(i as int));
        reveal_with_fuel(Seq::filter, 1);
        let o = copy_origin(&rest[i]);
        assert(before[i as int] == rest@[i as int]@);
        if !same_origin(&o, origin) {
            let ghost k0 = kept@;
            kept.push(o);
            assert(kept@.map_values(|o: WebviewOrigin| o@) =~= k0.map_values(
                |o: WebviewOrigin| o@,
            ).push(before[i as int]));
        }
        i = i + 1;
    }
    assert(before.take(n as int) =~= before);
    state.creating = kept;
    proof {
        broadcast use vstd::seq_lib::group_filter_ensures;
        let after = creating_view(*state);
        assert(after == without(before, origin@));
        lemma_filter_no_duplicates(before, origin@);
    }
}

proof fn lemma_filter_in_source<A>(s: Seq<A>, p: spec_fn(A) -> bool, i: int)
    requires
        0 <= i < s.filter(p).len(),
    ensures
        s.contains(s.filter(p)[i]),
    decreases s.len(),
{
    reveal_with_fuel(Seq::filter, 1);
    broadcast use vstd::seq_lib::group_filter_ensures;
    if s.len() > 0 {
        let t = s.drop_last();
        let ft = t.filter(p);
        if p(s.last()) && i == ft.len() {
            assert(s.filter(p)[i] == s.last());
            assert(s[s.len() - 1] == s.last());
        } else {
            assert(s.filter(p)[i] == ft[i]);
            lemma_filter_in_source(t, p, i);
            let k = choose|k: int| 0 <= k < t.len() && t[k] == ft[i];
            assert(s[k] == t[k]);
        }
    }
}

proof fn lemma_filter_no_duplicates(s: Seq<OriginView>, o: OriginView)
    requires
        no_duplicates(s),
    ensures
        no_duplicates(without(s, o)),
    decreases s.len(),
{
    reveal_with_fuel(Seq::filter, 1);
    if s.len() > 0 {
        let t = s.drop_last();
        assert(no_duplicates(t)) by {
            assert forall|i: int, j: int| 0 <= i < j < t.len() implies t[i] != t[j] by {
                assert(t[i] == s[i] && t[j] == s[j]);
            }
        }
        lemma_filter_no_duplicates(t, o);
        broadcast use vstd::seq_lib::group_filter_ensures;
        let ft = without(t, o);
        if s.last() != o {
            assert(without(s, o) == ft.push(s.last()));
            assert forall|i: int| 0 <= i < ft.len() implies ft[i] != s.last() by {
                lemma_filter_in_source(t, not_origin(o), i);
                assert(t.contains(ft[i]));
                let k = choose|k: int| 0 <= k < t.len() && t[k] == ft[i];
                assert(s[k] == t[k]);
                assert(s[s.len() - 1] == s.last());
            }
            assert forall|i: int, j: int| 0 <= i < j < without(s, o).len() implies without(
                s,
                o,
            )[i] != without(s, o)[j] by {
                if j < ft.len() {
                    assert(without(s, o)[i] == ft[i] && without(s, o)[j] == ft[j]);
                } else {
                    assert(without(s, o)[i] == ft[i]);
                }
            }
        } else {
            assert(without(s, o) == ft);
        }
    } else {
        assert(without(s, o) =~= s);
    }
}

/// Gives up a reservation (the web view could not be created).
pub fn release_reserved_tab(state: &mut WebviewState, origin: &WebviewOrigin)
    requires
        old(state).wf(),
    ensures
        final(state).wf(),
        creating_view(*final(state)) == without(creating_view(*old(state)), origin@),
        tabs_view(*final(state)) == tabs_view(*old(state)),
        final(state).next_id == old(state).next_id,
{
    remove_creating(state, origin);
}

/// Completes a reservation: the origin is no longer being created, and its
/// tab is registered (replacing any tab it had).
pub fn finish_reserved_tab(state: &mut WebviewState, origin: WebviewOrigin, tab: ChildTab)
    requires
        old(state).wf(),
    ensures
        final(state).wf(),
        creating_view(*final(state)) == without(creating_view(*old(state)), origin@),
        final(state).next_id == old(state).next_id,
        has_origin(tabs_view(*old(state)), origin@) ==> exists|i: int|
            0 <= i < tabs_view(*old(state)).len() && tabs_view(*old(state))[i].0 == origin@
                && tabs_view(*final(state)) == tabs_view(*old(state)).update(i, (origin@, tab@)),
        !has_origin(tabs_view(*old(state)), origin@) ==> tabs_view(*final(state)) == tabs_view(
            *old(state),
        ).push((origin@, tab@)),
{
    remove_creating(state, &origin);
    let ghost before = tabs_view(*state);
    let ghost ov = origin@;
    let ghost tv = tab@;
    match index_of_origin(state, &origin) {
        Some(i) => {
            state.tabs.set(i, (origin, tab));
            assert(tabs_view(*state) =~= before.update(i as int, (ov, tv)));
            assert forall|a: int, b: int| 0 <= a < b < tabs_view(*state).len() implies (
            #[trigger] tabs_view(*state)[a]).0 != (#[trigger] tabs_view(*state)[b]).0 by {
                assert(before[a].0 == tabs_view(*state)[a].0);
                assert(before[b].0 == tabs_view(*state)[b].0);
            }
        },
        None => {
            state.tabs.push((origin, tab));
            assert(tabs_view(*state) =~= before.push((ov, tv)));
            assert forall|a: int, b: int| 0 <= a < b < tabs_view(*state).len() implies (
            #[trigger] tabs_view(*state)[a]).0 != (#[trigger] tabs_view(*state)[b]).0 by {
                if b == before.len() {
                    assert(tabs_view(*state)[a] == before[a]);
                } else {
                    assert(tabs_view(*state)[a] == before[a]);
                    assert(tabs_view(*state)[b] == before[b]);
                }
            }
        },
    }
}

/// The tabs without the tab of an origin.
pub open spec fn without_origin(tabs: Seq<EntryView>, o: OriginView) -> Seq<EntryView> {
    tabs.filter(|e: EntryView| e.0 != o)
}

/// The tabs without those whose label is stale.
pub open spec fn without_labels(tabs: Seq<EntryView>, stale: Seq<Seq<char>>) -> Seq<EntryView> {
    tabs.filter(|e: EntryView| !stale.contains(e.1.0))
}

proof fn lemma_filter_keys_unique(tabs: Seq<EntryView>, keep: spec_fn(EntryView) -> bool)
    requires
        keys_unique(tabs),
    ensures
        keys_unique(tabs.filter(keep)),
    decreases tabs.len(),
{
    reveal_with_fuel(Seq::filter, 1);
    broadcast use vstd::seq_lib::group_filter_ensures;
    if tabs.len() > 0 {
        let t = tabs.drop_last();
        assert(keys_unique(t)) by {
            assert forall|i: int, j: int| 0 <= i < j < t.len() implies (#[trigger] t[i]).0 != (
            #[trigger] t[j]).0 by {
                assert(t[i] == tabs[i] && t[j] == tabs[j]);
            }
        }
        lemma_filter_keys_unique(t, keep);
        let ft = t.filter(keep);
        if keep(tabs.last()) {
            let f = tabs.filter(keep);
            assert(f == ft.push(tabs.last()));
            assert forall|i: int, j: int| 0 <= i < j < f.len() implies (#[trigger] f[i]).0 != (
            #[trigger] f[j]).0 by {
                assert(f[i] == ft[i]);
                if j < ft.len() {
                    assert(f[j] == ft[j]);
                } else {
                    lemma_filter_in_source(t, keep, i);
                    assert(t.contains(ft[i]));
                    let k = choose|k: int| 0 <= k < t.len() && t[k] == ft[i];
                    assert(tabs[k] == t[k]);
                    assert(tabs[tabs.len() - 1] == tabs.last());
                }
            }
        }
    } else {
        assert(tabs.filter(keep) =~= tabs);
    }
}

/// The tabs a retain keeps: not of the origin (if one is given), and not
/// with a stale label.
pub open spec fn retain_pred(origin: Option<OriginView>, stale: Seq<Seq<char>>) -> spec_fn(
    EntryView,
) -> bool {
    |e: EntryView|
        (match origin {
            Some(o) => e.0 != o,
            None => true,
        }) && !stale.contains(e.1.0)
}

pub open spec fn opt_origin_view(o: Option<&WebviewOrigin>) -> Option<OriginView> {
    match o {
        Some(x) => Some(x@),
        None => None,
    }
}

/// Removes the tabs that `retain_pred` rejects.
fn retain_tabs(state: &mut WebviewState, origin: Option<&WebviewOrigin>, stale: &Vec<String>)
    requires
        old(state).wf(),
    ensures
        final(state).wf(),
        final(state).creating == old(state).creating,
        final(state).next_id == old(state).next_id,
        tabs_view(*final(state)) == tabs_view(*old(state)).filter(
            retain_pred(opt_origin_view(origin), stale@.map_values(|s: String| s@)),
        ),
{
    let ghost keep = retain_pred(opt_origin_view(origin), stale@.map_values(|s: String| s@));
    let ghost before = tabs_view(*old(state));
    let ghost sv = stale@.map_values(|s: String| s@);
    let mut kept: Vec<(WebviewOrigin, ChildTab)> = Vec::new();
    let mut rest: Vec<(WebviewOrigin, ChildTab)> = Vec::new();
    std::mem::swap(&mut rest, &mut state.tabs);
    assert(rest@.map_values(|e: (WebviewOrigin, ChildTab)| entry_view(e)) == before);
    let n = rest.len();
    let mut i: usize = 0;
    while i < n
        invariant
            i <= n,
            n == rest@.len(),
            rest@.map_values(|e: (WebviewOrigin, ChildTab)| entry_view(e)) == before,
            kept@.map_values(|e: (WebviewOrigin, ChildTab)| entry_view(e)) == before.take(
                i as int,
            ).filter(keep),
            sv == stale@.map_values(|s: String| s@),
            keep == retain_pred(opt_origin_view(origin), sv),
        decreases n - i,
    {
        assert(before.take(i + 1).drop_last() =~= before.take(i as int));
        reveal_with_fuel(Seq::filter, 1);
        assert(before[i as int] == entry_view(rest@[i as int]));
        let keep_origin = match origin {
            Some(o) => !same_origin(&rest[i].0, o),
            None => true,
        };
        let mut is_stale = false;
        let mut k: usize = 0;
        while k < stale.len()
            invariant
                k <= stale@.len(),
                i < n,
                n == rest@.len(),
                sv == stale@.map_values(|s: String| s@),
                is_stale == exists|j: int| 0 <= j < k && sv[j] == rest@[i as int].1.label@,
            decreases stale@.len() - k,
        {
            if stale[k] == rest[i].1.label {
                assert(sv[k as int] == stale@[k as int]@);
                is_stale = true;
            }
            k = k + 1;
        }
        assert(is_stale == sv.contains(before[i as int].1.0));
        assert(keep(before[i as int]) == (keep_origin && !is_stale));
        if keep_origin && !is_stale {
            let e = (copy_origin(&rest[i].0), copy_tab(&rest[i].1));
            let ghost k0 = kept@;
            kept.push(e);
            assert(kept@.map_values(|e: (WebviewOrigin, ChildTab)| entry_view(e)) =~= k0.map_values(
                |e: (WebviewOrigin, ChildTab)| entry_view(e),
            ).push(before[i as int]));
        }
        i = i + 1;
    }
    assert(before.take(n as int) =~= before);
    state.tabs = kept;
    proof {
        lemma_filter_keys_unique(before, keep);
    }
}

/// Removes the tab of an origin.
pub fn remove_tab(state: &mut WebviewState, origin: &WebviewOrigin)
    requires
        old(state).wf(),
    ensures
        final(state).wf(),
        tabs_view(*final(state)) == without_origin(tabs_view(*old(state)), origin@),
        final(state).creating == old(state).creating,
        final(state).next_id == old(state).next_id,
{
    let none: Vec<String> = Vec::new();
    retain_tabs(state, Some(origin), &none);
    proof {
        assert(none@.map_values(|s: String| s@) =~= Seq::<Seq<char>>::empty());
        assert(retain_pred(Some(origin@), Seq::<Seq<char>>::empty()) =~= (|e: EntryView|
            e.0 != origin@));
        assert(tabs_view(*state) =~= without_origin(tabs_view(*old(state)), origin@));
    }
}

/// Drops the tabs whose web view no longer exists (their labels are `stale`).
pub fn prune_stale_tabs(state: &mut WebviewState, stale: &Vec<String>)
    requires
        old(state).wf(),
    ensures
        final(state).wf(),
        tabs_view(*final(state)) == without_labels(
            tabs_view(*old(state)),
            stale@.map_values(|s: String| s@),
        ),
        final(state).creating == old(state).creating,
        final(state).next_id == old(state).next_id,
{
    retain_tabs(state, None, stale);
    assert(retain_pred(None, stale@.map_values(|s: String| s@)) =~= (|e: EntryView|
        !stale@.map_values(|s: String| s@).contains(e.1.0)));
    assert(tabs_view(*state) =~= without_labels(
        tabs_view(*old(state)),
        stale@.map_values(|s: String| s@),
    ));
}

// ---------------------------------------------------------------------------
// URLs
// ---------------------------------------------------------------------------

/// A URL a child web view may load: it parses, its scheme is `http` or
/// `https`, it carries no credentials, and it names a host.
pub open spec fn is_loadable(u: ParsedUrlView) -> bool {
    &&& (u.scheme == "http"@ || u.scheme == "https"@)
    &&& u.username.len() == 0
    &&& u.password is None
    &&& u.host is Some
}

/// Parses the URL of a child web view and checks it against the loading policy.
pub fn parse_webview_url(input: &str) -> (r: Result<ParsedUrl, BackendError>)
    ensures
        loadable_of_parse(url_parse(input@), r),
{
    loadable_url(parse_url(input))
}

/// The loading policy applied to the parse of a URL: a URL that parsed and is
/// loadable is kept; everything else is `InvalidWindowUrl`.
pub open spec fn loadable_of_parse(parsed: Option<ParsedUrlView>, r: Result<ParsedUrl, BackendError>) -> bool {
    match parsed {
        Some(u) => if is_loadable(u) {
            r matches Ok(p) && p@ == u
        } else {
            r == Err::<ParsedUrl, BackendError>(BackendError::InvalidWindowUrl)
        },
        None => r == Err::<ParsedUrl, BackendError>(BackendError::InvalidWindowUrl),
    }
}

/// Checks the parse of a URL against the loading policy.
pub fn loadable_url(parsed: Option<ParsedUrl>) -> (r: Result<ParsedUrl, BackendError>)
    ensures
        loadable_of_parse(opt_parsed_view(parsed), r),
{
    let parsed = match parsed {
        Some(p) => p,
        None => return Err(BackendError::InvalidWindowUrl),
    };
    if parsed.scheme != string_of("http") && parsed.scheme != string_of("https") {
        return Err(BackendError::InvalidWindowUrl);
    }
    if parsed.username.as_str().unicode_len() != 0 || parsed.password.is_some() {
        return Err(BackendError::InvalidWindowUrl);
    }
    if parsed.host.is_none() {
        return Err(BackendError::InvalidWindowUrl);
    }
    proof {
        reveal_strlit("http");
        reveal_strlit("https");
    }
    Ok(parsed)
}

impl WebviewOrigin {
    /// The origin of a URL: its scheme, host and port (the scheme's default
    /// port when none is written). A URL without host or port has none.
    pub fn from_url(url: &ParsedUrl) -> (r: Result<WebviewOrigin, BackendError>)
        ensures
            (url@.host is Some && url@.port is Some) ==> (r matches Ok(o) && o@ == (
                url@.scheme,
                url@.host.unwrap(),
                url@.port.unwrap(),
            )),
            !(url@.host is Some && url@.port is Some) ==> r == Err::<WebviewOrigin, BackendError>(
                BackendError::InvalidWindowUrl,
            ),
    {
        let host = match &url.host {
            Some(h) => h.clone(),
            None => return Err(BackendError::InvalidWindowUrl),
        };
        let port = match url.port {
            Some(p) => p,
            None => return Err(BackendError::InvalidWindowUrl),
        };
        Ok(WebviewOrigin { scheme: url.scheme.clone(), host, port })
    }

    /// Whether a navigation target stays on this origin (a missing host or
    /// port counts as empty or zero); other targets open in the system browser.
    pub fn matches(&self, url: &ParsedUrl) -> (r: bool)
        ensures
            r == (self.scheme@ == url@.scheme && self.host@ == (match url@.host {
                Some(h) => h,
                None => Seq::<char>::empty(),
            }) && self.port == (match url@.port {
                Some(p) => p,
                None => 0u16,
            })),
    {
        let host_matches = match &url.host {
            Some(h) => self.host == *h,
            None => self.host.as_str().unicode_len() == 0,
        };
        let port = match url.port {
            Some(p) => p,
            None => 0,
        };
        proof {
            if url@.host is None {
                if self.host@.len() == 0 {
                    assert(self.host@ =~= Seq::<char>::empty());
                }
            }
        }
        self.scheme == url.scheme && host_matches && self.port == port
    }
}

/// The name a tab shows: `HOST:PORT` of its URL, or the URL itself when it
/// has no host or port.
pub open spec fn display_name(url: Seq<char>) -> Seq<char> {
    display_name_of(url, url_parse(url))
}

/// The name a tab shows, given the parse of its URL.
pub open spec fn display_name_of(url: Seq<char>, parsed: Option<ParsedUrlView>) -> Seq<char> {
    match parsed {
        Some(u) => if u.host is Some && u.port is Some {
            u.host.unwrap() + ":"@ + decimal(u.port.unwrap() as nat)
        } else {
            url
        },
        None => url,
    }
}

/// What the front end learns of a tab: its label, its URL and the name it shows.
pub fn tab_info(tab: &ChildTab) -> (r: WebviewTab)
    ensures
        r.label@ == tab.label@,
        r.url@ == tab.url@,
        r.display_name@ == display_name(tab.url@),
{
    let name = display_name_from(tab.url.as_str(), parse_url(tab.url.as_str()));
    WebviewTab { label: tab.label.clone(), url: tab.url.clone(), display_name: name }
}

/// The name a tab shows, from its URL and the parse of that URL.
pub fn display_name_from(url: &str, parsed: Option<ParsedUrl>) -> (r: String)
    ensures
        r@ == display_name_of(url@, opt_parsed_view(parsed)),
{
    match parsed {
        Some(u) => match (&u.host, u.port) {
            (Some(h), Some(p)) => {
                let mut s = h.clone();
                push_str(&mut s, ":");
                push_decimal(&mut s, p as u64);
                s
            },
            _ => string_of(url),
        },
        None => string_of(url),
    }
}

/// The file name a download proposes: the last path segment of its URL,
/// percent-decoded, or `download` when there is none.
pub open spec fn default_file_name_spec(u: ParsedUrlView) -> Seq<char> {
    match u.last_segment {
        Some(s) => if s.len() > 0 {
            percent_decoded_lossy(s)
        } else {
            "download"@
        },
        None => "download"@,
    }
}

/// The default file name of a download.
pub fn default_file_name(url: &ParsedUrl) -> (r: String)
    ensures
        r@ == default_file_name_spec(url@),
{
    match &url.last_segment {
        Some(s) => {
            if s.as_str().unicode_len() > 0 {
                percent_decode_lossy(s.as_str())
            } else {
                string_of("download")
            }
        },
        None => string_of("download"),
    }
}

/// A download event of a web view, with what the host learned: for a
/// request, the path the save dialog returned (`None` when it was cancelled).
pub enum DownloadStep {
    Requested { chosen: Option<String> },
    Finished { success: bool },
    Other,
}

/// What a download event does: a request proceeds only when the user chose a
/// path, which becomes the destination; a cancelled dialog stops the download
/// and leaves the destination as it was; every other event lets it go on.
pub fn handle_download_step(step: DownloadStep, destination: &mut String) -> (r: bool)
    ensures
        match step {
            DownloadStep::Requested { chosen: Some(p) } => r && final(destination)@ == p@,
            DownloadStep::Requested { chosen: None } => !r && final(destination)@ == old(destination)@,
            _ => r && final(destination)@ == old(destination)@,
        },
{
    match step {
        DownloadStep::Requested { chosen: Some(p) } => {
            *destination = p;
            true
        },
        DownloadStep::Requested { chosen: None } => false,
        _ => true,
    }
}

/// The target of a new child web view: its checked URL and its origin.
pub fn webview_target(url: &str) -> (r: Result<(ParsedUrl, WebviewOrigin), BackendError>)
    ensures
        match url_parse(url@) {
            Some(u) => if is_loadable(u) && u.port is Some {
                r matches Ok((p, o)) && p@ == u && o@ == (u.scheme, u.host.unwrap(), u.port.unwrap())
            } else {
                r == Err::<(ParsedUrl, WebviewOrigin), BackendError>(BackendError::InvalidWindowUrl)
            },
            None => r == Err::<(ParsedUrl, WebviewOrigin), BackendError>(
                BackendError::InvalidWindowUrl,
            ),
        },
{
    let parsed = parse_webview_url(url)?;
    let origin = WebviewOrigin::from_url(&parsed)?;
    Ok((parsed, origin))
}

/// A tab being opened: releasing its reservation gives back exactly the
/// origins that were being created before it was reserved.
pub proof fn law_release_undoes_reserve(creating: Seq<OriginView>, o: OriginView)
    requires
        !creating.contains(o),
    ensures
        without(creating.push(o), o) == creating,
{
    reveal_with_fuel(Seq::filter, 1);
    broadcast use vstd::seq_lib::group_filter_ensures;
    assert(creating.push(o).drop_last() =~= creating);
    lemma_without_absent(creating, o);
}

proof fn lemma_without_absent(s: Seq<OriginView>, o: OriginView)
    requires
        !s.contains(o),
    ensures
        without(s, o) == s,
    decreases s.len(),
{
    reveal_with_fuel(Seq::filter, 1);
    if s.len() > 0 {
        let t = s.drop_last();
        assert(!t.contains(o)) by {
            if t.contains(o) {
                let k = choose|k: int| 0 <= k < t.len() && t[k] == o;
                assert(s[k] == t[k]);
            }
        }
        lemma_without_absent(t, o);
        assert(s.last() == s[s.len() - 1]);
        assert(s =~= t.push(s.last()));
    } else {
        assert(without(s, o) =~= s);
    }
}

// ---------------------------------------------------------------------------
// Opening, activating and closing tabs
// ---------------------------------------------------------------------------

/// The first decision of opening a URL whose origin may already have a tab:
/// a tab whose web view is alive is reused (the caller activates it); a tab
/// whose web view is gone is forgotten, and a new one must be created.
pub fn reuse_existing_tab(state: &mut WebviewState, origin: &WebviewOrigin, live: bool) -> (r: Option<
    WebviewTab,
>)
    requires
        old(state).wf(),
    ensures
        final(state).wf(),
        final(state).next_id == old(state).next_id,
        final(state).creating == old(state).creating,
        !has_origin(tabs_view(*old(state)), origin@) ==> r is None && *final(state) == *old(state),
        has_origin(tabs_view(*old(state)), origin@) && live ==> *final(state) == *old(state) && (r matches Some(t)
            && exists|i: int|
            0 <= i < tabs_view(*old(state)).len() && tabs_view(*old(state))[i].0 == origin@
                && t.label@ == tabs_view(*old(state))[i].1.0 && t.url@ == tabs_view(
                *old(state),
            )[i].1.1 && t.display_name@ == display_name(tabs_view(*old(state))[i].1.1)),
        has_origin(tabs_view(*old(state)), origin@) && !live ==> r is None && tabs_view(
            *final(state),
        ) == without_origin(tabs_view(*old(state)), origin@),
{
    match find_tab(state, origin) {
        None => None,
        Some(tab) => {
            if live {
                Some(tab_info(&tab))
            } else {
                remove_tab(state, origin);
                None
            }
        },
    }
}

/// The web view of a reserved origin could not be created: the reservation is
/// given up and the failure reported.
pub fn abandon_reservation(state: &mut WebviewState, origin: &WebviewOrigin, failure: BackendError) -> (r:
    BackendError)
    requires
        old(state).wf(),
    ensures
        final(state).wf(),
        r == failure,
        creating_view(*final(state)) == without(creating_view(*old(state)), origin@),
        tabs_view(*final(state)) == tabs_view(*old(state)),
        final(state).next_id == old(state).next_id,
{
    release_reserved_tab(state, origin);
    failure
}

/// The web view of a reserved origin was created: its tab is registered under
/// the label and the URL's serialization, and described for the front end.
pub fn complete_tab(state: &mut WebviewState, origin: WebviewOrigin, label: String, url: &ParsedUrl) -> (r:
    WebviewTab)
    requires
        old(state).wf(),
    ensures
        final(state).wf(),
        creating_view(*final(state)) == without(creating_view(*old(state)), origin@),
        has_origin(tabs_view(*final(state)), origin@),
        exists|i: int|
            0 <= i < tabs_view(*final(state)).len() && tabs_view(*final(state))[i] == (
                origin@,
                (label@, url@.serialized),
            ),
        final(state).next_id == old(state).next_id,
        has_origin(tabs_view(*old(state)), origin@) ==> exists|i: int|
            0 <= i < tabs_view(*old(state)).len() && tabs_view(*old(state))[i].0 == origin@
                && tabs_view(*final(state)) == tabs_view(*old(state)).update(
                i,
                (origin@, (label@, url@.serialized)),
            ),
        !has_origin(tabs_view(*old(state)), origin@) ==> tabs_view(*final(state)) == tabs_view(
            *old(state),
        ).push((origin@, (label@, url@.serialized))),
        r.label@ == label@,
        r.url@ == url@.serialized,
        r.display_name@ == display_name(url@.serialized),
{
    let ghost ov = origin@;
    let tab = ChildTab { label, url: url.serialized.clone() };
    let info = tab_info(&tab);
    let ghost tv = tab@;
    finish_reserved_tab(state, origin, tab);
    proof {
        if has_origin(tabs_view(*old(state)), ov) {
            let i = choose|i: int|
                0 <= i < tabs_view(*old(state)).len() && tabs_view(*old(state))[i].0 == ov
                    && tabs_view(*state) == tabs_view(*old(state)).update(i, (ov, tv));
            assert(tabs_view(*state)[i] == (ov, tv));
        } else {
            let n = tabs_view(*old(state)).len() as int;
            assert(tabs_view(*state)[n] == (ov, tv));
        }
    }
    info
}

/// A tab can be activated only if its label is registered.
pub fn require_tab_label(labels: &Vec<String>, label: &str) -> (r: Result<(), BackendError>)
    ensures
        (exists|i: int| 0 <= i < labels@.len() && (#[trigger] labels@[i])@ == label@) <==> r is Ok,
        r is Err ==> r == Err::<(), BackendError>(BackendError::ChildWebviewNotFound),
{
    let mut i: usize = 0;
    while i < labels.len()
        invariant
            i <= labels@.len(),
            forall|k: int| 0 <= k < i ==> (#[trigger] labels@[k])@ != label@,
        decreases labels@.len() - i,
    {
        if crate::text::str_eq(labels[i].as_str(), label) {
            return Ok(());
        }
        i = i + 1;
    }
    Err(BackendError::ChildWebviewNotFound)
}

/// Which web views an activation shows: the one with the label; all others
/// are hidden.
pub fn visibility_plan(labels: &Vec<String>, label: &str) -> (r: Vec<bool>)
    ensures
        r@.len() == labels@.len(),
        forall|i: int| 0 <= i < labels@.len() ==> r@[i] == ((#[trigger] labels@[i])@ == label@),
{
    let mut r: Vec<bool> = Vec::new();
    let mut i: usize = 0;
    while i < labels.len()
        invariant
            i <= labels@.len(),
            r@.len() == i,
            forall|k: int| 0 <= k < i ==> r@[k] == ((#[trigger] labels@[k])@ == label@),
        decreases labels@.len() - i,
    {
        r.push(crate::text::str_eq(labels[i].as_str(), label));
        i = i + 1;
    }
    r
}

/// Where a navigation of a child web view goes.
#[derive(Clone, Copy, PartialEq, Eq, Structural)]
pub enum NavigationDecision {
    /// The target stays on the tab's origin: load it in the tab.
    Load,
    /// Another origin: open it in the system browser, and keep the tab.
    OpenExternally,
}

/// Navigations stay on the tab's origin; everything else leaves for the
/// system browser.
pub fn navigation_decision(origin: &WebviewOrigin, target: &ParsedUrl) -> (r: NavigationDecision)
    ensures
        r == NavigationDecision::Load <==> (origin.scheme@ == target@.scheme && origin.host@ == (
        match target@.host {
            Some(h) => h,
            None => Seq::<char>::empty(),
        }) && origin.port == (match target@.port {
            Some(p) => p,
            None => 0u16,
        })),
{
    if origin.matches(target) {
        NavigationDecision::Load
    } else {
        NavigationDecision::OpenExternally
    }
}

// ---------------------------------------------------------------------------
// Opening a URL, step by step
// ---------------------------------------------------------------------------

/// Where an opening of a URL stands.
#[derive(Clone, Copy, PartialEq, Eq, Structural)]
pub enum OpenStage {
    /// The registry is being cleared of tabs whose web view is gone.
    Pruning,
    /// The origin has a tab; whether its web view exists is being checked.
    CheckingLive,
    /// The origin is reserved; its web view is being created.
    Creating,
    /// The tab is being shown, the others hidden.
    Activating,
    /// The opening is over.
    Done,
}

/// An opening of a URL under way: its stage, its checked URL and origin, the
/// label of its tab, and what the front end will learn of the tab.
pub struct OpenRun {
    pub stage: OpenStage,
    pub origin: WebviewOrigin,
    pub url: ParsedUrl,
    pub label: String,
    pub tab: Option<WebviewTab>,
}

/// What the host of an opening observed.
pub enum OpenEvent {
    /// The registered labels whose web view no longer exists.
    Stale(Vec<String>),
    /// Whether the web view of the origin's tab exists.
    Live(bool),
    /// The result of creating the web view.
    Created(Result<(), BackendError>),
    /// The result of showing the tab, hiding the others and focusing it.
    Activated(Result<(), BackendError>),
}

/// What the host of an opening must do next.
pub enum OpenAction {
    /// Report which of these labels have no web view any more.
    FindStale { labels: Vec<String> },
    /// Report whether a web view with this label exists.
    CheckLive { label: String },
    /// Create the web view with this label, loading this URL, in the main window.
    Create { label: String, url: String },
    /// Show the web view with this label, hide the others (`visibility_plan`
    /// over `tab_labels`) and focus it.
    Activate { label: String },
    /// The opening is over with this result.
    Finish(Result<WebviewTab, BackendError>),
    /// The event does not belong to the stage; nothing changes.
    Ignore,
}

/// Whether the next run keeps the origin and URL of the opening.
pub open spec fn keeps_target(next: OpenRun, o: OriginView, u: ParsedUrlView) -> bool {
    next.origin@ == o && next.url@ == u
}

/// The reservation that follows when the origin has no tab (any more): the
/// registry then holds `tabs`, `creating` and `next_id`. An origin already
/// being created is refused; else it is reserved under the next label, and its
/// web view must be created.
pub open spec fn reserve_post(
    tabs: Seq<EntryView>,
    creating: Seq<OriginView>,
    next_id: u64,
    new: WebviewState,
    o: OriginView,
    u: ParsedUrlView,
    r: (OpenRun, OpenAction),
) -> bool {
    &&& tabs_view(new) == tabs
    &&& keeps_target(r.0, o, u)
    &&& if creating.contains(o) {
        &&& creating_view(new) == creating
        &&& new.next_id == next_id
        &&& r.0.stage == OpenStage::Done
        &&& r.1 == OpenAction::Finish(Err(BackendError::OperationInProgress))
    } else {
        &&& creating_view(new) == creating.push(o)
        &&& new.next_id == next_label_id(next_id)
        &&& r.0.stage == OpenStage::Creating
        &&& r.0.label@ == window_label(next_id)
        &&& r.1 matches OpenAction::Create { label, url } && label@ == window_label(next_id)
            && url@ == u.serialized
    }
}

/// What one step of an opening does, from the registry before (`old`) to the
/// registry after (`new`), given the run, the event and the step's result.
pub open spec fn open_step_post(
    old: WebviewState,
    new: WebviewState,
    run: OpenRun,
    event: OpenEvent,
    r: (OpenRun, OpenAction),
) -> bool {
    let o = run.origin@;
    let u = run.url@;
    match (run.stage, event) {
        (OpenStage::Pruning, OpenEvent::Stale(stale)) => {
            let pruned = without_labels(tabs_view(old), stale@.map_values(|s: String| s@));
            if has_origin(pruned, o) {
                &&& tabs_view(new) == pruned
                &&& creating_view(new) == creating_view(old)
                &&& new.next_id == old.next_id
                &&& keeps_target(r.0, o, u)
                &&& r.0.stage == OpenStage::CheckingLive
                &&& exists|i: int|
                    0 <= i < pruned.len() && pruned[i].0 == o && r.0.label@ == pruned[i].1.0 && (
                    r.1 matches OpenAction::CheckLive { label } && label@ == pruned[i].1.0)
            } else {
                reserve_post(pruned, creating_view(old), old.next_id, new, o, u, r)
            }
        },
        (OpenStage::CheckingLive, OpenEvent::Live(live)) => if !has_origin(tabs_view(old), o) {
            reserve_post(tabs_view(old), creating_view(old), old.next_id, new, o, u, r)
        } else if live {
            &&& new == old
            &&& keeps_target(r.0, o, u)
            &&& r.0.stage == OpenStage::Activating
            &&& exists|i: int|
                0 <= i < tabs_view(old).len() && tabs_view(old)[i].0 == o && (r.0.tab matches Some(
                t,
            ) && t.label@ == tabs_view(old)[i].1.0 && t.url@ == tabs_view(old)[i].1.1
                && t.display_name@ == display_name(tabs_view(old)[i].1.1)) && (
            r.1 matches OpenAction::Activate { label } && label@ == tabs_view(old)[i].1.0)
        } else {
            reserve_post(
                without_origin(tabs_view(old), o),
                creating_view(old),
                old.next_id,
                new,
                o,
                u,
                r,
            )
        },
        (OpenStage::Creating, OpenEvent::Created(Err(e))) => {
            &&& tabs_view(new) == tabs_view(old)
            &&& creating_view(new) == without(creating_view(old), o)
            &&& new.next_id == old.next_id
            &&& keeps_target(r.0, o, u)
            &&& r.0.stage == OpenStage::Done
            &&& r.1 == OpenAction::Finish(Err(e))
        },
        (OpenStage::Creating, OpenEvent::Created(Ok(()))) => {
            let entry = (o, (run.label@, u.serialized));
            &&& creating_view(new) == without(creating_view(old), o)
            &&& new.next_id == old.next_id
            &&& (has_origin(tabs_view(old), o) ==> exists|i: int|
                0 <= i < tabs_view(old).len() && tabs_view(old)[i].0 == o && tabs_view(new)
                    == tabs_view(old).update(i, entry))
            &&& (!has_origin(tabs_view(old), o) ==> tabs_view(new) == tabs_view(old).push(entry))
            &&& keeps_target(r.0, o, u)
            &&& r.0.stage == OpenStage::Activating
            &&& (r.0.tab matches Some(t) && t.label@ == run.label@ && t.url@ == u.serialized
                && t.display_name@ == display_name(u.serialized))
            &&& (r.1 matches OpenAction::Activate { label } && label@ == run.label@)
        },
        (OpenStage::Activating, OpenEvent::Activated(Err(e))) => {
            &&& new == old
            &&& keeps_target(r.0, o, u)
            &&& r.0.stage == OpenStage::Done
            &&& r.1 == OpenAction::Finish(Err(e))
        },
        (OpenStage::Activating, OpenEvent::Activated(Ok(()))) => {
            &&& new == old
            &&& keeps_target(r.0, o, u)
            &&& r.0.stage == OpenStage::Done
            &&& match run.tab {
                Some(t) => r.1 == OpenAction::Finish(Ok(t)),
                None => r.1 is Ignore,
            }
        },
        _ => new == old && r.0 == run && r.1 is Ignore,
    }
}

/// Reserves an origin that has no tab, or reports that it is being created.
fn reserve_next(state: &mut WebviewState, origin: WebviewOrigin, url: ParsedUrl, tab: Option<
    WebviewTab,
>) -> (r: (OpenRun, OpenAction))
    requires
        old(state).wf(),
        !has_origin(tabs_view(*old(state)), origin@),
    ensures
        final(state).wf(),
        reserve_post(
            tabs_view(*old(state)),
            creating_view(*old(state)),
            old(state).next_id,
            *final(state),
            origin@,
            url@,
            r,
        ),
{
    let key = copy_origin(&origin);
    match reserve_tab(state, key) {
        Err(e) => (
            OpenRun { stage: OpenStage::Done, origin, url, label: String::new(), tab },
            OpenAction::Finish(Err(e)),
        ),
        Ok(label) => {
            let target = url.serialized.clone();
            let shown = label.clone();
            (
                OpenRun { stage: OpenStage::Creating, origin, url, label, tab },
                OpenAction::Create { label: shown, url: target },
            )
        },
    }
}

/// The start of an opening: the URL is checked against the loading policy
/// and its origin taken; then the host reports which registered tabs lost
/// their web view.
pub fn open_url_begin(state: &WebviewState, url: &str) -> (r: (Option<OpenRun>, OpenAction))
    ensures
        match url_parse(url@) {
            Some(u) => if is_loadable(u) && u.port is Some {
                (r.0 matches Some(run) && run.stage == OpenStage::Pruning && run.url@ == u
                    && run.origin@ == (u.scheme, u.host.unwrap(), u.port.unwrap())
                    && run.tab is None) && (r.1 matches OpenAction::FindStale { labels }
                    && labels@.len() == tabs_view(*state).len() && forall|i: int|
                    0 <= i < labels@.len() ==> (#[trigger] labels@[i])@ == tabs_view(
                        *state,
                    )[i].1.0)
            } else {
                r.0 is None && r.1 == OpenAction::Finish(Err(BackendError::InvalidWindowUrl))
            },
            None => r.0 is None && r.1 == OpenAction::Finish(Err(BackendError::InvalidWindowUrl)),
        },
{
    match webview_target(url) {
        Err(e) => (None, OpenAction::Finish(Err(e))),
        Ok((parsed, origin)) => (
            Some(
                OpenRun {
                    stage: OpenStage::Pruning,
                    origin,
                    url: parsed,
                    label: String::new(),
                    tab: None,
                },
            ),
            OpenAction::FindStale { labels: tab_labels(state) },
        ),
    }
}

/// One step of opening a URL in a child web view. A live tab of the origin is
/// reused and shown; a tab whose web view is gone is forgotten; otherwise the
/// origin is reserved, its web view created (a failure gives the reservation
/// back), its tab registered and shown.
pub fn open_url_step(state: &mut WebviewState, run: OpenRun, event: OpenEvent) -> (r: (
    OpenRun,
    OpenAction,
))
    requires
        old(state).wf(),
    ensures
        final(state).wf(),
        open_step_post(*old(state), *final(state), run, event, r),
{
    let OpenRun { stage, origin, url, label, tab } = run;
    match (stage, event) {
        (OpenStage::Pruning, OpenEvent::Stale(stale)) => {
            prune_stale_tabs(state, &stale);
            match find_tab(state, &origin) {
                Some(found) => {
                    let shown = found.label.clone();
                    (
                        OpenRun { stage: OpenStage::CheckingLive, origin, url, label: found.label, tab },
                        OpenAction::CheckLive { label: shown },
                    )
                },
                None => reserve_next(state, origin, url, tab),
            }
        },
        (OpenStage::CheckingLive, OpenEvent::Live(live)) => {
            proof {
                broadcast use vstd::seq_lib::group_filter_ensures;
            }
            match reuse_existing_tab(state, &origin, live) {
                Some(info) => {
                    let shown = info.label.clone();
                    (
                        OpenRun { stage: OpenStage::Activating, origin, url, label, tab: Some(info) },
                        OpenAction::Activate { label: shown },
                    )
                },
                None => reserve_next(state, origin, url, tab),
            }
        },
        (OpenStage::Creating, OpenEvent::Created(Err(e))) => {
            let failure = abandon_reservation(state, &origin, e);
            (
                OpenRun { stage: OpenStage::Done, origin, url, label, tab },
                OpenAction::Finish(Err(failure)),
            )
        },
        (OpenStage::Creating, OpenEvent::Created(Ok(()))) => {
            let key = copy_origin(&origin);
            let info = complete_tab(state, key, label.clone(), &url);
            let shown = label.clone();
            (
                OpenRun { stage: OpenStage::Activating, origin, url, label, tab: Some(info) },
                OpenAction::Activate { label: shown },
            )
        },
        (OpenStage::Activating, OpenEvent::Activated(Err(e))) => (
            OpenRun { stage: OpenStage::Done, origin, url, label, tab },
            OpenAction::Finish(Err(e)),
        ),
        (OpenStage::Activating, OpenEvent::Activated(Ok(()))) => match tab {
            Some(t) => (
                OpenRun { stage: OpenStage::Done, origin, url, label, tab: None },
                OpenAction::Finish(Ok(t)),
            ),
            None => (
                OpenRun { stage: OpenStage::Done, origin, url, label, tab: None },
                OpenAction::Ignore,
            ),
        },
        (stage, _) => (OpenRun { stage, origin, url, label, tab }, OpenAction::Ignore),
    }
}

/// Pruning with labels that name no registered tab keeps every tab.
proof fn lemma_prune_keeps_all(tabs: Seq<EntryView>, stale: Seq<Seq<char>>)
    requires
        forall|j: int| 0 <= j < tabs.len() ==> !stale.contains(#[trigger] tabs[j].1.0),
    ensures
        without_labels(tabs, stale) == tabs,
    decreases tabs.len(),
{
    reveal_with_fuel(Seq::filter, 1);
    if tabs.len() > 0 {
        let t = tabs.drop_last();
        assert forall|j: int| 0 <= j < t.len() implies !stale.contains(#[trigger] t[j].1.0) by {
            assert(t[j] == tabs[j]);
        }
        lemma_prune_keeps_all(t, stale);
        assert(!stale.contains(tabs[tabs.len() - 1].1.0));
        assert(tabs.last() == tabs[tabs.len() - 1]);
        assert(tabs =~= t.push(tabs.last()));
    } else {
        assert(without_labels(tabs, stale) =~= tabs);
    }
}

/// Opening a URL of an origin that already has a live tab reuses that tab:
/// when no web view was closed in between (no registered label is stale), the
/// opening checks the tab's own web view, shows it, and finishes with its
/// label and URL, leaving the registry as it was: no web view is created and
/// no label is taken.
pub proof fn law_open_same_origin_reuses(
    s0: WebviewState,
    s1: WebviewState,
    s2: WebviewState,
    s3: WebviewState,
    run0: OpenRun,
    stale: Vec<String>,
    r1: (OpenRun, OpenAction),
    r2: (OpenRun, OpenAction),
    r3: (OpenRun, OpenAction),
    i: int,
)
    requires
        s0.wf(),
        run0.stage == OpenStage::Pruning,
        0 <= i < tabs_view(s0).len(),
        tabs_view(s0)[i].0 == run0.origin@,
        forall|j: int|
            0 <= j < tabs_view(s0).len() ==> !stale@.map_values(|s: String| s@).contains(
                #[trigger] tabs_view(s0)[j].1.0,
            ),
        open_step_post(s0, s1, run0, OpenEvent::Stale(stale), r1),
        open_step_post(s1, s2, r1.0, OpenEvent::Live(true), r2),
        open_step_post(s2, s3, r2.0, OpenEvent::Activated(Ok(())), r3),
    ensures
        tabs_view(s3) == tabs_view(s0),
        creating_view(s3) == creating_view(s0),
        s3.next_id == s0.next_id,
        r1.1 matches OpenAction::CheckLive { label } && label@ == tabs_view(s0)[i].1.0,
        r2.1 matches OpenAction::Activate { label } && label@ == tabs_view(s0)[i].1.0,
        r3.1 matches OpenAction::Finish(Ok(t)) && t.label@ == tabs_view(s0)[i].1.0 && t.url@
            == tabs_view(s0)[i].1.1,
{
    let o = run0.origin@;
    let tabs = tabs_view(s0);
    let sv = stale@.map_values(|s: String| s@);
    lemma_prune_keeps_all(tabs, sv);
    assert(has_origin(tabs, o));
    let k = choose|k: int|
        0 <= k < tabs.len() && tabs[k].0 == o && r1.0.label@ == tabs[k].1.0 && (
        r1.1 matches OpenAction::CheckLive { label } && label@ == tabs[k].1.0);
    if k != i {
        if k < i {
            assert(tabs[k].0 != tabs[i].0);
        } else {
            assert(tabs[i].0 != tabs[k].0);
        }
    }
    assert(tabs_view(s1) == tabs);
    assert(has_origin(tabs_view(s1), o));
    let m = choose|m: int|
        0 <= m < tabs_view(s1).len() && tabs_view(s1)[m].0 == o && (r2.0.tab matches Some(t)
            && t.label@ == tabs_view(s1)[m].1.0 && t.url@ == tabs_view(s1)[m].1.1
            && t.display_name@ == display_name(tabs_view(s1)[m].1.1)) && (
        r2.1 matches OpenAction::Activate { label } && label@ == tabs_view(s1)[m].1.0);
    if m != i {
        if m < i {
            assert(tabs[m].0 != tabs[i].0);
        } else {
            assert(tabs[i].0 != tabs[m].0);
        }
    }
}

} // verus!
