//! What the window shows, and how it changes on each user action once the
//! store has answered.
//!
//! Each `on_*` method takes the store's answer as an argument: `None` (or
//! `false`) where the store reported an error, `Some(record)` (or `true`)
//! where it succeeded. Loading an icon is the caller's work too: a record comes
//! with `Some(handle)` where its icon loaded and `None` where it did not.
use vstd::prelude::*;
use crate::model::{
    AuthorizationItem, AuthorizationItemView, CollectionData, CollectionItem, CollectionItemView,
    HeaderItem, HeaderItemView, RequestItem, RequestItemView, SelectedRequestItem,
    SelectedRequestItemView, CollectionDataView, RequestDataView, RequestHeaderDataView,
    RequestAuthorizationDataView, collection_item_of, collection_items_of, loaded_view,
    to_collection_item, to_collection_items, views, lemma_views_push, RequestData,
    request_item_of, request_items_of, to_request_item, to_request_items, RequestHeaderData,
    header_item_of, header_items_of, to_header_item, to_header_items, RequestAuthorizationData,
    authorization_item_of, authorization_items_of, to_authorization_items,
};

verus! {

/// Whether `index` designates an element of a list of length `len`.
pub open spec fn in_range(index: i32, len: nat) -> bool {
    0 <= index < len
}

/// `k` is the first position of `s` whose element satisfies `pred`.
pub open spec fn is_first_match<T>(s: Seq<T>, pred: spec_fn(T) -> bool, k: int) -> bool {
    &&& 0 <= k < s.len()
    &&& pred(s[k])
    &&& forall|j: int| 0 <= j < k ==> !pred(#[trigger] s[j])
}

/// `s` with its first element that satisfies `pred` replaced by `new`; `s`
/// itself where no element does.
pub open spec fn replace_first<T>(s: Seq<T>, pred: spec_fn(T) -> bool, new: T) -> Seq<T> {
    if exists|k: int| is_first_match(s, pred, k) {
        s.update(choose|k: int| is_first_match(s, pred, k), new)
    } else {
        s
    }
}

/// The items of a request list whose id is `id`.
pub open spec fn request_has_id(id: Seq<char>) -> spec_fn(RequestItemView) -> bool {
    |r: RequestItemView| r.id == id
}

/// The selected requests that show the request `id`.
pub open spec fn selection_of_request(id: Seq<char>) -> spec_fn(SelectedRequestItemView) -> bool {
    |s: SelectedRequestItemView| s.item.id == id
}

/// The headers whose id is `id`.
pub open spec fn header_has_id(id: Seq<char>) -> spec_fn(HeaderItemView) -> bool {
    |h: HeaderItemView| h.id == id
}

/// `sel` with the first selected request that shows the request `id` now
/// showing `item`; `sel` itself where none shows it.
pub open spec fn with_request_shown(sel: Seq<SelectedRequestItemView>, id: Seq<char>, item: RequestItemView) -> Seq<SelectedRequestItemView> {
    if exists|k: int| is_first_match(sel, selection_of_request(id), k) {
        let k = choose|k: int| is_first_match(sel, selection_of_request(id), k);
        sel.update(k, SelectedRequestItemView { item, ..sel[k] })
    } else {
        sel
    }
}

/// The tab opened for the request at `request_index` of the open collection,
/// which is the collection at `collection_index`.
pub open spec fn selection_for(state: AppStateView, request_index: i32, collection_index: i32) -> SelectedRequestItemView {
    SelectedRequestItemView {
        item: state.active_collection_requests[request_index as int],
        collection_icon: state.collection_items[collection_index as int].icon,
        collection_id: state.collection_items[collection_index as int].id,
        collection_index,
    }
}

/// The window's state.
pub struct AppState {
    /// The page shown: 1 is the welcome page, 2 the collections page, 0
    /// none yet.
    pub page: i32,
    pub collection_items: Vec<CollectionItem>,
    /// The requests of the collection that is open.
    pub active_collection_requests: Vec<RequestItem>,
    /// The requests opened in tabs.
    pub selected_requests: Vec<SelectedRequestItem>,
    /// The tab in front, once one was chosen.
    pub active_selected_request: Option<SelectedRequestItem>,
    pub show_request_section: bool,
    /// The headers of the request being edited.
    pub request_item_headers: Vec<HeaderItem>,
    /// The authorization of the request being edited.
    pub request_auth_items: Vec<AuthorizationItem>,
}

pub struct AppStateView {
    pub page: i32,
    pub collection_items: Seq<CollectionItemView>,
    pub active_collection_requests: Seq<RequestItemView>,
    pub selected_requests: Seq<SelectedRequestItemView>,
    pub active_selected_request: Option<SelectedRequestItemView>,
    pub show_request_section: bool,
    pub request_item_headers: Seq<HeaderItemView>,
    pub request_auth_items: Seq<AuthorizationItemView>,
}

impl View for AppState {
    type V = AppStateView;

    open spec fn view(&self) -> AppStateView {
        AppStateView {
            page: self.page,
            collection_items: views(self.collection_items@),
            active_collection_requests: views(self.active_collection_requests@),
            selected_requests: views(self.selected_requests@),
            active_selected_request: opt_view(self.active_selected_request),
            show_request_section: self.show_request_section,
            request_item_headers: views(self.request_item_headers@),
            request_auth_items: views(self.request_auth_items@),
        }
    }
}

/// The view of an optional value.
pub open spec fn opt_view<T: View>(o: Option<T>) -> Option<T::V> {
    match o {
        Some(v) => Some(v@),
        None => None,
    }
}

/// The views of the elements of an optional list.
pub open spec fn opt_views<T: View>(o: Option<Vec<T>>) -> Option<Seq<T::V>> {
    match o {
        Some(v) => Some(views(v@)),
        None => None,
    }
}

/// The views of an optional list of records paired with their icons.
pub open spec fn opt_loaded_views(o: Option<Vec<(CollectionData, Option<usize>)>>) -> Option<
    Seq<(CollectionDataView, Option<usize>)>,
> {
    match o {
        Some(v) => Some(v@.map_values(|p: (CollectionData, Option<usize>)| loaded_view(p))),
        None => None,
    }
}

/// `c` counting `delta` more requests.
pub open spec fn with_count_moved(c: CollectionItemView, delta: int) -> CollectionItemView {
    CollectionItemView { request_count: (c.request_count + delta) as i32, ..c }
}

impl AppStateView {
    /// The page `page` shown.
    pub open spec fn with_page(self, page: i32) -> AppStateView {
        AppStateView { page, ..self }
    }

    /// The page shown at start: the welcome page where the store holds no
    /// collection, the collections page otherwise.
    pub open spec fn at_startup(self, collection_count: nat) -> AppStateView {
        AppStateView { page: if collection_count == 0 { 1 } else { 2 }, ..self }
    }

    /// The collections listed, those whose icon did not load left out; an
    /// empty list where the store failed.
    pub open spec fn after_collections_loaded(
        self,
        loaded: Option<Seq<(CollectionDataView, Option<usize>)>>,
    ) -> AppStateView {
        AppStateView {
            collection_items: match loaded {
                Some(s) => collection_items_of(s),
                None => Seq::empty(),
            },
            ..self
        }
    }

    /// A created collection shown first; nothing changed where the store failed
    /// or the icon did not load.
    pub open spec fn after_collection_created(
        self,
        created: Option<CollectionDataView>,
        icon: Option<usize>,
    ) -> AppStateView {
        match created {
            Some(d) => match collection_item_of(d, icon) {
                Some(item) => AppStateView {
                    collection_items: self.collection_items.insert(0, item),
                    ..self
                },
                None => self,
            },
            None => self,
        }
    }

    /// An updated collection shown at `index`, where that designates one,
    /// and the tabs of the collection `id` showing its new icon; nothing
    /// changed where the store failed or the icon did not load.
    pub open spec fn after_collection_updated(
        self,
        id: Seq<char>,
        index: i32,
        updated: Option<CollectionDataView>,
        icon: Option<usize>,
    ) -> AppStateView {
        match (updated, icon) {
            (Some(d), Some(handle)) => AppStateView {
                collection_items: if in_range(index, self.collection_items.len()) {
                    self.collection_items.update(index as int, collection_item_of(d, icon).unwrap())
                } else {
                    self.collection_items
                },
                selected_requests: self.selected_requests.map_values(
                    |s: SelectedRequestItemView| with_collection_icon(s, id, handle),
                ),
                ..self
            },
            _ => self,
        }
    }

    /// The collection at `index` gone, where that designates one, and the
    /// tabs of the collection `id` closed; nothing changed where the store
    /// failed to delete it.
    pub open spec fn after_collection_removed(self, id: Seq<char>, index: i32, deleted: bool) -> AppStateView {
        if deleted {
            AppStateView {
                collection_items: if in_range(index, self.collection_items.len()) {
                    self.collection_items.remove(index as int)
                } else {
                    self.collection_items
                },
                selected_requests: self.selected_requests.filter(outside_collection(id)),
                ..self
            }
        } else {
            self
        }
    }

    /// The requests of the open collection listed; an empty list where the
    /// store failed.
    pub open spec fn after_requests_loaded(self, loaded: Option<Seq<RequestDataView>>) -> AppStateView {
        AppStateView {
            active_collection_requests: match loaded {
                Some(s) => request_items_of(s),
                None => Seq::empty(),
            },
            ..self
        }
    }

    /// A created request shown first, and counted in the collection at
    /// `collection_index` where that designates one; nothing changed where
    /// the store failed.
    pub open spec fn after_request_created(
        self,
        collection_index: i32,
        created: Option<RequestDataView>,
    ) -> AppStateView {
        match created {
            Some(d) => AppStateView {
                active_collection_requests: self.active_collection_requests.insert(0, request_item_of(d)),
                collection_items: if in_range(collection_index, self.collection_items.len()) {
                    self.collection_items.update(
                        collection_index as int,
                        with_count_moved(self.collection_items[collection_index as int], 1),
                    )
                } else {
                    self.collection_items
                },
                ..self
            },
            None => self,
        }
    }

    /// An updated request shown in place of the first request of the open
    /// collection with the id `request_id`, and in the first tab that shows
    /// `request_id`; nothing changed where the store failed.
    pub open spec fn after_request_updated(
        self,
        request_id: Seq<char>,
        updated: Option<RequestDataView>,
    ) -> AppStateView {
        match updated {
            Some(d) => AppStateView {
                active_collection_requests: replace_first(
                    self.active_collection_requests,
                    request_has_id(request_id),
                    request_item_of(d),
                ),
                selected_requests: with_request_shown(self.selected_requests, request_id, request_item_of(d)),
                ..self
            },
            None => self,
        }
    }

    /// The request at `request_index` gone, where that designates one, one
    /// request less counted in the collection at `collection_index`, where
    /// that designates one, and the tabs of `request_id` closed; nothing
    /// changed where the store failed to delete it.
    pub open spec fn after_request_deleted(
        self,
        request_id: Seq<char>,
        request_index: i32,
        collection_index: i32,
        deleted: bool,
    ) -> AppStateView {
        if deleted {
            AppStateView {
                active_collection_requests: if in_range(request_index, self.active_collection_requests.len()) {
                    self.active_collection_requests.remove(request_index as int)
                } else {
                    self.active_collection_requests
                },
                collection_items: if in_range(collection_index, self.collection_items.len()) {
                    self.collection_items.update(
                        collection_index as int,
                        with_count_moved(self.collection_items[collection_index as int], -1),
                    )
                } else {
                    self.collection_items
                },
                selected_requests: self.selected_requests.filter(other_request(request_id)),
                ..self
            }
        } else {
            self
        }
    }

    /// The request at `request_index` opened in a tab, unless a tab shows it
    /// already, that tab in front and the request section shown; nothing
    /// changed where either index designates nothing.
    pub open spec fn after_select(self, request_index: i32, collection_index: i32) -> AppStateView {
        if in_range(collection_index, self.collection_items.len()) && in_range(
            request_index,
            self.active_collection_requests.len(),
        ) {
            let tab = selection_for(self, request_index, collection_index);
            AppStateView {
                selected_requests: if self.selected_requests.any(selection_of_request(tab.item.id)) {
                    self.selected_requests
                } else {
                    self.selected_requests.push(tab)
                },
                active_selected_request: Some(tab),
                show_request_section: true,
                ..self
            }
        } else {
            self
        }
    }

    /// The tab at `index` closed, where that designates one.
    pub open spec fn after_tab_closed(self, index: i32) -> AppStateView {
        if in_range(index, self.selected_requests.len()) {
            AppStateView { selected_requests: self.selected_requests.remove(index as int), ..self }
        } else {
            self
        }
    }

    /// The tab at `index` in front, where that designates one.
    pub open spec fn after_tab_activated(self, index: i32) -> AppStateView {
        if in_range(index, self.selected_requests.len()) {
            AppStateView { active_selected_request: Some(self.selected_requests[index as int]), ..self }
        } else {
            self
        }
    }

    /// The headers listed; an empty list where the store failed.
    pub open spec fn after_headers_loaded(self, loaded: Option<Seq<RequestHeaderDataView>>) -> AppStateView {
        AppStateView {
            request_item_headers: match loaded {
                Some(s) => header_items_of(s),
                None => Seq::empty(),
            },
            ..self
        }
    }

    /// A created header shown last; nothing changed where the store failed.
    pub open spec fn after_header_created(self, created: Option<RequestHeaderDataView>) -> AppStateView {
        match created {
            Some(d) => AppStateView {
                request_item_headers: self.request_item_headers.push(header_item_of(d)),
                ..self
            },
            None => self,
        }
    }

    /// An updated header shown in place of the first header with its id;
    /// nothing changed where the store failed.
    pub open spec fn after_header_updated(self, updated: Option<RequestHeaderDataView>) -> AppStateView {
        match updated {
            Some(d) => AppStateView {
                request_item_headers: replace_first(
                    self.request_item_headers,
                    header_has_id(d.id),
                    header_item_of(d),
                ),
                ..self
            },
            None => self,
        }
    }

    /// Every header with the id `header_id` gone.
    pub open spec fn after_header_removed(self, header_id: Seq<char>) -> AppStateView {
        AppStateView {
            request_item_headers: self.request_item_headers.filter(other_header(header_id)),
            ..self
        }
    }

    /// The authorization listed; an empty list where the store failed.
    pub open spec fn after_authorization_loaded(
        self,
        loaded: Option<Seq<RequestAuthorizationDataView>>,
    ) -> AppStateView {
        AppStateView {
            request_auth_items: match loaded {
                Some(s) => authorization_items_of(s),
                None => Seq::empty(),
            },
            ..self
        }
    }

    /// The saved authorization shown alone; an empty list where the store failed.
    pub open spec fn after_authorization_saved(self, saved: Option<RequestAuthorizationDataView>) -> AppStateView {
        AppStateView {
            request_auth_items: match saved {
                Some(d) => seq![authorization_item_of(d)],
                None => Seq::empty(),
            },
            ..self
        }
    }
}

/// `v` with its element at `i` removed, in views.
proof fn lemma_views_remove<T: View>(v: Seq<T>, i: int)
    requires
        0 <= i < v.len(),
    ensures
        views(v.remove(i)) == views(v).remove(i),
{
    assert(views(v.remove(i)) =~= views(v).remove(i));
}

/// `v` with `x` put at `i`, in views.
proof fn lemma_views_insert<T: View>(v: Seq<T>, i: int, x: T)
    requires
        0 <= i <= v.len(),
    ensures
        views(v.insert(i, x)) == views(v).insert(i, x@),
{
    assert(views(v.insert(i, x)) =~= views(v).insert(i, x@));
}

/// `v` with `x` at `i`, in views.
proof fn lemma_views_update<T: View>(v: Seq<T>, i: int, x: T)
    requires
        0 <= i < v.len(),
    ensures
        views(v.update(i, x)) == views(v).update(i, x@),
{
    assert(views(v.update(i, x)) =~= views(v).update(i, x@));
}

/// Where `i` is the first match, `replace_first` replaces exactly there.
proof fn lemma_replace_first_at<T>(s: Seq<T>, pred: spec_fn(T) -> bool, i: int, new: T)
    requires
        is_first_match(s, pred, i),
    ensures
        replace_first(s, pred, new) == s.update(i, new),
{
    let k = choose|k: int| is_first_match(s, pred, k);
    assert(is_first_match(s, pred, k));
    if k < i {
        assert(!pred(s[k]));
    } else if k > i {
        assert(!pred(s[i]));
    }
}

/// There is one first match.
proof fn lemma_first_match_unique<T>(s: Seq<T>, pred: spec_fn(T) -> bool, i: int, k: int)
    requires
        is_first_match(s, pred, i),
        is_first_match(s, pred, k),
    ensures
        i == k,
{
    if k < i {
        assert(!pred(s[k]));
    } else if k > i {
        assert(!pred(s[i]));
    }
}

/// Where nothing matches, `replace_first` changes nothing.
proof fn lemma_replace_first_none<T>(s: Seq<T>, pred: spec_fn(T) -> bool, new: T)
    requires
        forall|j: int| 0 <= j < s.len() ==> !pred(#[trigger] s[j]),
    ensures
        replace_first(s, pred, new) == s,
{
    if exists|k: int| is_first_match(s, pred, k) {
        let k = choose|k: int| is_first_match(s, pred, k);
        assert(pred(s[k]));
    }
}

/// The selected requests that do not belong to the collection `id`.
pub open spec fn outside_collection(id: Seq<char>) -> spec_fn(SelectedRequestItemView) -> bool {
    |s: SelectedRequestItemView| s.collection_id != id
}

/// The selected requests that do not show the request `id`.
pub open spec fn other_request(id: Seq<char>) -> spec_fn(SelectedRequestItemView) -> bool {
    |s: SelectedRequestItemView| s.item.id != id
}

/// The headers whose id is not `id`.
pub open spec fn other_header(id: Seq<char>) -> spec_fn(HeaderItemView) -> bool {
    |h: HeaderItemView| h.id != id
}

/// A selected request of the collection `id` shows the icon `icon`; the others are kept.
pub open spec fn with_collection_icon(s: SelectedRequestItemView, id: Seq<char>, icon: usize) -> SelectedRequestItemView {
    if s.collection_id == id {
        SelectedRequestItemView { collection_icon: icon, ..s }
    } else {
        s
    }
}

/// One more element of `s` seen by a filter.
proof fn lemma_filter_take_step<T>(s: Seq<T>, pred: spec_fn(T) -> bool, k: int)
    requires
        0 <= k < s.len(),
    ensures
        s.take(k + 1).filter(pred) == (if pred(s[k]) {
            s.take(k).filter(pred).push(s[k])
        } else {
            s.take(k).filter(pred)
        }),
{
    reveal(Seq::filter);
    assert(s.take(k + 1).drop_last() =~= s.take(k));
}

/// The selected requests that stay when the collection `id` is removed.
fn retain_outside_collection(list: Vec<SelectedRequestItem>, id: &String) -> (res: Vec<SelectedRequestItem>)
    ensures
        views(res@) == views(list@).filter(outside_collection(id@)),
{
    let ghost src = list@;
    let ghost vsrc = views(src);
    let mut res: Vec<SelectedRequestItem> = Vec::new();
    for s in it: list
        invariant
            it.seq() == src,
            vsrc == views(src),
            views(res@) == vsrc.take(it.index() as int).filter(outside_collection(id@)),
    {
        let ghost before = res@;
        let ghost k = it.index();
        assert(s == src[k as int]);
        proof {
            lemma_filter_take_step(vsrc, outside_collection(id@), k as int);
        }
        if !(s.collection_id == *id) {
            res.push(s);
            proof {
                lemma_views_push(before, src[k as int]);
            }
        }
    }
    assert(vsrc.take(vsrc.len() as int) =~= vsrc);
    res
}

/// The selected requests that stay when the request `id` is removed.
fn retain_other_requests(list: Vec<SelectedRequestItem>, id: &String) -> (res: Vec<SelectedRequestItem>)
    ensures
        views(res@) == views(list@).filter(other_request(id@)),
{
    let ghost src = list@;
    let ghost vsrc = views(src);
    let mut res: Vec<SelectedRequestItem> = Vec::new();
    for s in it: list
        invariant
            it.seq() == src,
            vsrc == views(src),
            views(res@) == vsrc.take(it.index() as int).filter(other_request(id@)),
    {
        let ghost before = res@;
        let ghost k = it.index();
        assert(s == src[k as int]);
        proof {
            lemma_filter_take_step(vsrc, other_request(id@), k as int);
        }
        if !(s.item.id == *id) {
            res.push(s);
            proof {
                lemma_views_push(before, src[k as int]);
            }
        }
    }
    assert(vsrc.take(vsrc.len() as int) =~= vsrc);
    res
}

/// The headers that stay when the header `id` is removed.
fn retain_other_headers(list: Vec<HeaderItem>, id: &String) -> (res: Vec<HeaderItem>)
    ensures
        views(res@) == views(list@).filter(other_header(id@)),
{
    let ghost src = list@;
    let ghost vsrc = views(src);
    let mut res: Vec<HeaderItem> = Vec::new();
    for h in it: list
        invariant
            it.seq() == src,
            vsrc == views(src),
            views(res@) == vsrc.take(it.index() as int).filter(other_header(id@)),
    {
        let ghost before = res@;
        let ghost k = it.index();
        assert(h == src[k as int]);
        proof {
            lemma_filter_take_step(vsrc, other_header(id@), k as int);
        }
        if !(h.id == *id) {
            res.push(h);
            proof {
                lemma_views_push(before, src[k as int]);
            }
        }
    }
    assert(vsrc.take(vsrc.len() as int) =~= vsrc);
    res
}

/// The selected requests with the collection `id` showing the icon `icon`.
fn with_collection_icons(list: Vec<SelectedRequestItem>, id: &String, icon: usize) -> (res: Vec<SelectedRequestItem>)
    ensures
        views(res@) == views(list@).map_values(|s: SelectedRequestItemView| with_collection_icon(s, id@, icon)),
{
    let ghost src = list@;
    let ghost vsrc = views(src);
    let mut res: Vec<SelectedRequestItem> = Vec::new();
    for s in it: list
        invariant
            it.seq() == src,
            vsrc == views(src),
            views(res@) == vsrc.take(it.index() as int).map_values(|s: SelectedRequestItemView| with_collection_icon(s, id@, icon)),
    {
        let ghost before = res@;
        let ghost k = it.index();
        assert(s == src[k as int]);
        let mut s = s;
        if s.collection_id == *id {
            s.collection_icon = icon;
        }
        res.push(s);
        proof {
            lemma_views_push(before, s);
        }
        assert(views(res@) =~= vsrc.take(k + 1).map_values(|s: SelectedRequestItemView| with_collection_icon(s, id@, icon)));
    }
    assert(vsrc.take(vsrc.len() as int) =~= vsrc);
    res
}

/// The position of the first request whose id is `id`.
fn position_of_request(list: &Vec<RequestItem>, id: &String) -> (res: Option<usize>)
    ensures
        match res {
            Some(i) => is_first_match(views(list@), request_has_id(id@), i as int),
            None => forall|j: int| 0 <= j < list@.len() ==> !request_has_id(id@)(#[trigger] views(list@)[j]),
        },
{
    let n = list.len();
    for i in 0..n
        invariant
            n == list@.len(),
            forall|j: int| 0 <= j < i ==> !request_has_id(id@)(#[trigger] views(list@)[j]),
    {
        if list[i].id == *id {
            return Some(i);
        }
    }
    None
}

/// The position of the first selected request that shows the request `id`.
fn position_of_selection(list: &Vec<SelectedRequestItem>, id: &String) -> (res: Option<usize>)
    ensures
        match res {
            Some(i) => is_first_match(views(list@), selection_of_request(id@), i as int),
            None => forall|j: int| 0 <= j < list@.len() ==> !selection_of_request(id@)(#[trigger] views(list@)[j]),
        },
{
    let n = list.len();
    for i in 0..n
        invariant
            n == list@.len(),
            forall|j: int| 0 <= j < i ==> !selection_of_request(id@)(#[trigger] views(list@)[j]),
    {
        if list[i].item.id == *id {
            return Some(i);
        }
    }
    None
}

/// The position of the first header whose id is `id`.
fn position_of_header(list: &Vec<HeaderItem>, id: &String) -> (res: Option<usize>)
    ensures
        match res {
            Some(i) => is_first_match(views(list@), header_has_id(id@), i as int),
            None => forall|j: int| 0 <= j < list@.len() ==> !header_has_id(id@)(#[trigger] views(list@)[j]),
        },
{
    let n = list.len();
    for i in 0..n
        invariant
            n == list@.len(),
            forall|j: int| 0 <= j < i ==> !header_has_id(id@)(#[trigger] views(list@)[j]),
    {
        if list[i].id == *id {
            return Some(i);
        }
    }
    None
}

impl AppState {
    /// A window that shows nothing yet.
    pub fn new() -> (res: Self)
        ensures
            res@ == (AppStateView {
                page: 0,
                collection_items: Seq::empty(),
                active_collection_requests: Seq::empty(),
                selected_requests: Seq::empty(),
                active_selected_request: None,
                show_request_section: false,
                request_item_headers: Seq::empty(),
                request_auth_items: Seq::empty(),
            }),
    {
        let res = AppState {
            page: 0,
            collection_items: Vec::new(),
            active_collection_requests: Vec::new(),
            selected_requests: Vec::new(),
            active_selected_request: None,
            show_request_section: false,
            request_item_headers: Vec::new(),
            request_auth_items: Vec::new(),
        };
        assert(views(res.collection_items@) =~= Seq::<CollectionItemView>::empty());
        assert(views(res.active_collection_requests@) =~= Seq::<RequestItemView>::empty());
        assert(views(res.selected_requests@) =~= Seq::<SelectedRequestItemView>::empty());
        assert(views(res.request_item_headers@) =~= Seq::<HeaderItemView>::empty());
        assert(views(res.request_auth_items@) =~= Seq::<AuthorizationItemView>::empty());
        res
    }

    /// Chooses the page shown at start from the collections the store holds:
    /// the welcome page (1) where there is none, the collections page (2)
    /// otherwise.
    pub fn show_startup_page(&mut self, collections: &Vec<CollectionData>)
        ensures
            final(self)@ == old(self)@.at_startup(collections@.len()),
    {
        self.page = if collections.len() == 0 { 1 } else { 2 };
    }

    /// Shows the page the user asked for.
    pub fn change_page(&mut self, page: i32)
        ensures
            final(self)@ == old(self)@.with_page(page),
    {
        self.page = page;
    }

    /// Shows the collections the store listed, each with its icon; a
    /// collection whose icon failed to load is left out, and where the store
    /// failed the list is emptied.
    pub fn on_collections_loaded(&mut self, loaded: Option<Vec<(CollectionData, Option<usize>)>>)
        ensures
            final(self)@ == old(self)@.after_collections_loaded(opt_loaded_views(loaded)),
    {
        match loaded {
            Some(v) => {
                self.collection_items = to_collection_items(v);
            },
            None => {
                self.collection_items = Vec::new();
                assert(views(self.collection_items@) =~= Seq::<CollectionItemView>::empty());
            },
        }
    }

    /// Puts a newly created collection first in the list; where the store
    /// failed, or the icon did not load, nothing changes.
    pub fn on_collection_created(&mut self, created: Option<CollectionData>, icon: Option<usize>)
        ensures
            final(self)@ == old(self)@.after_collection_created(opt_view(created), icon),
    {
        let data = match created {
            Some(d) => d,
            None => return ,
        };
        let item = match to_collection_item(data, icon) {
            Some(item) => item,
            None => return ,
        };
        proof {
            lemma_views_insert(self.collection_items@, 0, item);
        }
        self.collection_items.insert(0, item);
    }

    /// Shows an updated collection at `index` (where `index` designates one)
    /// and gives every selected request of the collection `id` the new icon;
    /// where the store failed, or the icon did not load, nothing changes.
    pub fn on_collection_updated(
        &mut self,
        id: &String,
        index: i32,
        updated: Option<CollectionData>,
        icon: Option<usize>,
    )
        ensures
            final(self)@ == old(self)@.after_collection_updated(id@, index, opt_view(updated), icon),
    {
        let data = match updated {
            Some(d) => d,
            None => return ,
        };
        let handle = match icon {
            Some(h) => h,
            None => return ,
        };
        let item = CollectionItem {
            id: data.id,
            name: data.name,
            icon: handle,
            icon_name: data.icon,
            request_count: data.requests_count,
        };
        if 0 <= index && (index as usize) < self.collection_items.len() {
            proof {
                lemma_views_update(self.collection_items@, index as int, item);
            }
            self.collection_items.set(index as usize, item);
        }
        let mut selected: Vec<SelectedRequestItem> = Vec::new();
        std::mem::swap(&mut selected, &mut self.selected_requests);
        self.selected_requests = with_collection_icons(selected, id, handle);
    }

    /// Removes the collection at `index` (where `index` designates one) and
    /// closes every selected request of the collection `id`; where the store
    /// failed to delete it, nothing changes.
    pub fn on_collection_removed(&mut self, id: &String, index: i32, deleted: bool)
        ensures
            final(self)@ == old(self)@.after_collection_removed(id@, index, deleted),
    {
        if !deleted {
            return ;
        }
        if 0 <= index && (index as usize) < self.collection_items.len() {
            proof {
                lemma_views_remove(self.collection_items@, index as int);
            }
            self.collection_items.remove(index as usize);
        }
        let mut selected: Vec<SelectedRequestItem> = Vec::new();
        std::mem::swap(&mut selected, &mut self.selected_requests);
        self.selected_requests = retain_outside_collection(selected, id);
    }

    /// Shows the requests of the collection that was opened; where the store
    /// failed the list is emptied.
    pub fn on_requests_loaded(&mut self, loaded: Option<Vec<RequestData>>)
        ensures
            final(self)@ == old(self)@.after_requests_loaded(opt_views(loaded)),
    {
        match loaded {
            Some(v) => {
                self.active_collection_requests = to_request_items(v);
            },
            None => {
                self.active_collection_requests = Vec::new();
                assert(views(self.active_collection_requests@) =~= Seq::<RequestItemView>::empty());
            },
        }
    }

    /// Puts a newly created request first in the list of the open collection
    /// and counts it in the collection at `collection_index` (where that
    /// designates one); where the store failed, nothing changes.
    pub fn on_request_created(&mut self, collection_index: i32, created: Option<RequestData>)
        requires
            created is Some && in_range(collection_index, old(self).collection_items@.len())
                ==> old(self).collection_items@[collection_index as int].request_count < i32::MAX,
        ensures
            final(self)@ == old(self)@.after_request_created(collection_index, opt_view(created)),
    {
        let data = match created {
            Some(d) => d,
            None => return ,
        };
        let item = to_request_item(data);
        proof {
            lemma_views_insert(self.active_collection_requests@, 0, item);
        }
        self.active_collection_requests.insert(0, item);
        if 0 <= collection_index && (collection_index as usize) < self.collection_items.len() {
            let i = collection_index as usize;
            let mut c = self.collection_items[i].clone();
            c.request_count = c.request_count + 1;
            proof {
                lemma_views_update(self.collection_items@, i as int, c);
            }
            self.collection_items.set(i, c);
        }
    }

    /// Shows an updated request in place of the first request of the open
    /// collection with the id `request_id`, and in place of the request of the
    /// first selected request that shows `request_id`; where the store failed,
    /// nothing changes.
    pub fn on_request_updated(&mut self, request_id: &String, updated: Option<RequestData>)
        ensures
            final(self)@ == old(self)@.after_request_updated(request_id@, opt_view(updated)),
    {
        let data = match updated {
            Some(d) => d,
            None => return ,
        };
        let item = to_request_item(data);
        match position_of_request(&self.active_collection_requests, request_id) {
            Some(i) => {
                let copy = item.clone();
                proof {
                    lemma_views_update(self.active_collection_requests@, i as int, copy);
                    lemma_replace_first_at(
                        views(self.active_collection_requests@),
                        request_has_id(request_id@),
                        i as int,
                        item@,
                    );
                }
                self.active_collection_requests.set(i, copy);
            },
            None => {
                proof {
                    lemma_replace_first_none(
                        views(self.active_collection_requests@),
                        request_has_id(request_id@),
                        item@,
                    );
                }
            },
        }
        match position_of_selection(&self.selected_requests, request_id) {
            Some(i) => {
                let ghost old_sel = views(self.selected_requests@);
                let mut s = self.selected_requests[i].clone();
                s.item = item;
                proof {
                    let k = choose|k: int| is_first_match(old_sel, selection_of_request(request_id@), k);
                    lemma_first_match_unique(old_sel, selection_of_request(request_id@), i as int, k);
                    lemma_views_update(self.selected_requests@, i as int, s);
                }
                self.selected_requests.set(i, s);
            },
            None => {
                proof {
                    let old_sel = views(self.selected_requests@);
                    if exists|k: int| is_first_match(old_sel, selection_of_request(request_id@), k) {
                        let k = choose|k: int| is_first_match(old_sel, selection_of_request(request_id@), k);
                        assert(selection_of_request(request_id@)(old_sel[k]));
                    }
                }
            },
        }
    }

    /// Removes the request at `request_index` of the open collection (where
    /// that designates one), counts one request less in the collection at
    /// `collection_index` (where that designates one) and closes every selected
    /// request that shows `request_id`; where the store failed to delete it,
    /// nothing changes.
    pub fn on_request_deleted(
        &mut self,
        request_id: &String,
        request_index: i32,
        collection_index: i32,
        deleted: bool,
    )
        requires
            deleted && in_range(collection_index, old(self).collection_items@.len())
                ==> old(self).collection_items@[collection_index as int].request_count > i32::MIN,
        ensures
            final(self)@ == old(self)@.after_request_deleted(request_id@, request_index, collection_index, deleted),
    {
        if !deleted {
            return ;
        }
        if 0 <= request_index && (request_index as usize) < self.active_collection_requests.len() {
            proof {
                lemma_views_remove(self.active_collection_requests@, request_index as int);
            }
            self.active_collection_requests.remove(request_index as usize);
        }
        if 0 <= collection_index && (collection_index as usize) < self.collection_items.len() {
            let i = collection_index as usize;
            let mut c = self.collection_items[i].clone();
            c.request_count = c.request_count - 1;
            proof {
                lemma_views_update(self.collection_items@, i as int, c);
            }
            self.collection_items.set(i, c);
        }
        let mut selected: Vec<SelectedRequestItem> = Vec::new();
        std::mem::swap(&mut selected, &mut self.selected_requests);
        self.selected_requests = retain_other_requests(selected, request_id);
    }

    /// Opens the request at `request_index` of the open collection, which is
    /// the collection at `collection_index`, in a tab: the tab is added unless
    /// a tab already shows that request, and it becomes the tab in front.
    /// Where either index designates nothing, nothing changes.
    pub fn select_request(&mut self, request_index: i32, collection_index: i32)
        ensures
            final(self)@ == old(self)@.after_select(request_index, collection_index),
    {
        if !(0 <= collection_index && (collection_index as usize) < self.collection_items.len()) {
            return ;
        }
        if !(0 <= request_index && (request_index as usize) < self.active_collection_requests.len()) {
            return ;
        }
        let collection = &self.collection_items[collection_index as usize];
        let request = &self.active_collection_requests[request_index as usize];
        let selected = SelectedRequestItem {
            item: request.clone(),
            collection_icon: collection.icon,
            collection_id: collection.id.clone(),
            collection_index,
        };
        let ghost old_sel = views(self.selected_requests@);
        let already = position_of_selection(&self.selected_requests, &request.id);
        proof {
            let pred = selection_of_request(request.id@);
            match already {
                Some(i) => {
                    assert(pred(old_sel[i as int]));
                },
                None => {
                    assert(!old_sel.any(pred));
                },
            }
        }
        if already.is_none() {
            let copy = selected.clone();
            proof {
                lemma_views_push(self.selected_requests@, copy);
            }
            self.selected_requests.push(copy);
        }
        self.active_selected_request = Some(selected);
        self.show_request_section = true;
    }

    /// Closes the tab at `index` (where `index` designates one).
    pub fn remove_selected_request(&mut self, index: i32)
        ensures
            final(self)@ == old(self)@.after_tab_closed(index),
    {
        if 0 <= index && (index as usize) < self.selected_requests.len() {
            proof {
                lemma_views_remove(self.selected_requests@, index as int);
            }
            self.selected_requests.remove(index as usize);
        }
    }

    /// Brings the tab at `index` to the front (where `index` designates one).
    pub fn mark_request_active(&mut self, index: i32)
        ensures
            final(self)@ == old(self)@.after_tab_activated(index),
    {
        if 0 <= index && (index as usize) < self.selected_requests.len() {
            self.active_selected_request = Some(self.selected_requests[index as usize].clone());
        }
    }

    /// Shows the headers of the request being edited; where the store failed
    /// the list is emptied.
    pub fn on_headers_loaded(&mut self, loaded: Option<Vec<RequestHeaderData>>)
        ensures
            final(self)@ == old(self)@.after_headers_loaded(opt_views(loaded)),
    {
        match loaded {
            Some(v) => {
                self.request_item_headers = to_header_items(v);
            },
            None => {
                self.request_item_headers = Vec::new();
                assert(views(self.request_item_headers@) =~= Seq::<HeaderItemView>::empty());
            },
        }
    }

    /// Appends a newly created header; where the store failed, nothing changes.
    pub fn on_header_created(&mut self, created: Option<RequestHeaderData>)
        ensures
            final(self)@ == old(self)@.after_header_created(opt_view(created)),
    {
        if let Some(d) = created {
            let item = to_header_item(d);
            proof {
                lemma_views_push(self.request_item_headers@, item);
            }
            self.request_item_headers.push(item);
        }
    }

    /// Shows an updated header in place of the first header with its id;
    /// where the store failed, nothing changes.
    pub fn on_header_updated(&mut self, updated: Option<RequestHeaderData>)
        ensures
            final(self)@ == old(self)@.after_header_updated(opt_view(updated)),
    {
        let data = match updated {
            Some(d) => d,
            None => return ,
        };
        let ghost dv = data@;
        match position_of_header(&self.request_item_headers, &data.id) {
            Some(i) => {
                let item = to_header_item(data);
                proof {
                    lemma_views_update(self.request_item_headers@, i as int, item);
                    lemma_replace_first_at(
                        views(self.request_item_headers@),
                        header_has_id(dv.id),
                        i as int,
                        item@,
                    );
                }
                self.request_item_headers.set(i, item);
            },
            None => {
                proof {
                    lemma_replace_first_none(
                        views(self.request_item_headers@),
                        header_has_id(dv.id),
                        header_item_of(dv),
                    );
                }
            },
        }
    }

    /// Removes every header with the id `header_id`, whatever the store answered.
    pub fn on_header_removed(&mut self, header_id: &String)
        ensures
            final(self)@ == old(self)@.after_header_removed(header_id@),
    {
        let mut headers: Vec<HeaderItem> = Vec::new();
        std::mem::swap(&mut headers, &mut self.request_item_headers);
        self.request_item_headers = retain_other_headers(headers, header_id);
    }

    /// Shows the authorization of the request being edited; where the store
    /// failed the list is emptied.
    pub fn on_authorization_loaded(&mut self, loaded: Option<Vec<RequestAuthorizationData>>)
        ensures
            final(self)@ == old(self)@.after_authorization_loaded(opt_views(loaded)),
    {
        match loaded {
            Some(v) => {
                self.request_auth_items = to_authorization_items(v);
            },
            None => {
                self.request_auth_items = Vec::new();
                assert(views(self.request_auth_items@) =~= Seq::<AuthorizationItemView>::empty());
            },
        }
    }

    /// Shows the authorization the store saved, alone; where the store failed
    /// the list is emptied.
    pub fn on_authorization_saved(&mut self, saved: Option<RequestAuthorizationData>)
        ensures
            final(self)@ == old(self)@.after_authorization_saved(opt_view(saved)),
    {
        let mut items: Vec<AuthorizationItem> = Vec::new();
        if let Some(d) = saved {
            let item = AuthorizationItem::from(d);
            items.push(item);
        }
        assert(views(items@) =~= match saved {
            Some(d) => seq![authorization_item_of(d@)],
            None => Seq::<AuthorizationItemView>::empty(),
        });
        self.request_auth_items = items;
    }
}

} // verus!
