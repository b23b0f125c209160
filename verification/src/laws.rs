//! Properties that hold across the window's transitions.
use vstd::prelude::*;
use crate::model::{
    CollectionDataView, RequestDataView, RequestHeaderDataView, SelectedRequestItemView,
    header_item_of, CollectionItemView, RequestItemView, HeaderItemView, collection_items_of,
    request_items_of, header_items_of, AuthorizationItemView, RequestAuthorizationDataView,
    authorization_items_of,
};
use crate::queries::active_flag_of;
use crate::state::{
    AppStateView, in_range, selection_of_request, outside_collection, other_request,
    other_header, selection_for, with_count_moved, is_first_match, request_has_id, header_has_id,
};

verus! {

/// No two tabs show the same request.
pub open spec fn tabs_distinct(tabs: Seq<SelectedRequestItemView>) -> bool {
    forall|i: int, j: int|
        0 <= i < tabs.len() && 0 <= j < tabs.len() && i != j ==> #[trigger] tabs[i].item.id
            != #[trigger] tabs[j].item.id
}

/// A filter keeps exactly the elements that satisfy the predicate, in order:
/// where every element does, it keeps the whole sequence.
proof fn lemma_filter_all<T>(s: Seq<T>, pred: spec_fn(T) -> bool)
    requires
        forall|i: int| 0 <= i < s.len() ==> pred(#[trigger] s[i]),
    ensures
        s.filter(pred) == s,
    decreases s.len(),
{
    reveal(Seq::filter);
    if s.len() > 0 {
        lemma_filter_all(s.drop_last(), pred);
        assert(s.drop_last().push(s.last()) =~= s);
    }
}

/// Filtering tabs keeps them distinct.
proof fn lemma_filter_keeps_tabs_distinct(
    s: Seq<SelectedRequestItemView>,
    pred: spec_fn(SelectedRequestItemView) -> bool,
)
    requires
        tabs_distinct(s),
    ensures
        tabs_distinct(s.filter(pred)),
    decreases s.len(),
{
    reveal(Seq::filter);
    if s.len() > 0 {
        let rest = s.drop_last();
        assert(tabs_distinct(rest)) by {
            assert forall|i: int, j: int|
                0 <= i < rest.len() && 0 <= j < rest.len() && i != j implies #[trigger] rest[i].item.id
                    != #[trigger] rest[j].item.id by {
                assert(rest[i] == s[i] && rest[j] == s[j]);
            }
        }
        lemma_filter_keeps_tabs_distinct(rest, pred);
        let fr = rest.filter(pred);
        if pred(s.last()) {
            let out = fr.push(s.last());
            assert forall|i: int, j: int|
                0 <= i < out.len() && 0 <= j < out.len() && i != j implies #[trigger] out[i].item.id
                    != #[trigger] out[j].item.id by {
                if i == fr.len() || j == fr.len() {
                    let k = if i == fr.len() { j } else { i };
                    assert(fr.contains(fr[k]));
                    rest.lemma_filter_contains_rev(pred, fr[k]);
                    let m = choose|m: int| 0 <= m < rest.len() && rest[m] == fr[k];
                    assert(s[m] == fr[k]);
                    assert(s[s.len() - 1] == s.last());
                } else {
                    assert(out[i] == fr[i] && out[j] == fr[j]);
                }
            }
        }
    }
}

/// The flag the store keeps for a header gives the header back its state:
/// a header saved with `active_flag_of(active)` is shown active exactly when
/// `active` holds.
pub proof fn law_active_flag_round_trip(record: RequestHeaderDataView, active: bool)
    requires
        record.active == active_flag_of(active),
    ensures
        header_item_of(record).active == active,
{
}

/// Opening a request in a tab never makes two tabs show the same request.
pub proof fn law_select_keeps_tabs_distinct(s: AppStateView, request_index: i32, collection_index: i32)
    requires
        tabs_distinct(s.selected_requests),
    ensures
        tabs_distinct(s.after_select(request_index, collection_index).selected_requests),
{
    if in_range(collection_index, s.collection_items.len()) && in_range(
        request_index,
        s.active_collection_requests.len(),
    ) {
        let tab = selection_for(s, request_index, collection_index);
        let pred = selection_of_request(tab.item.id);
        if !s.selected_requests.any(pred) {
            let old_tabs = s.selected_requests;
            let out = old_tabs.push(tab);
            assert forall|i: int, j: int|
                0 <= i < out.len() && 0 <= j < out.len() && i != j implies #[trigger] out[i].item.id
                    != #[trigger] out[j].item.id by {
                if i == old_tabs.len() {
                    assert(!pred(old_tabs[j]));
                } else if j == old_tabs.len() {
                    assert(!pred(old_tabs[i]));
                } else {
                    assert(out[i] == old_tabs[i] && out[j] == old_tabs[j]);
                }
            }
        }
    }
}

/// Opening the same request twice in a row has the effect of opening it once.
pub proof fn law_select_idempotent(s: AppStateView, request_index: i32, collection_index: i32)
    ensures
        s.after_select(request_index, collection_index).after_select(request_index, collection_index)
            == s.after_select(request_index, collection_index),
{
    let once = s.after_select(request_index, collection_index);
    if in_range(collection_index, s.collection_items.len()) && in_range(
        request_index,
        s.active_collection_requests.len(),
    ) {
        let tab = selection_for(s, request_index, collection_index);
        assert(selection_for(once, request_index, collection_index) == tab);
        let pred = selection_of_request(tab.item.id);
        if !s.selected_requests.any(pred) {
            let k = s.selected_requests.len() as int;
            assert(once.selected_requests[k] == tab);
            assert(pred(once.selected_requests[k]));
        }
        assert(once.selected_requests.any(pred));
    }
}

/// Deleting the request just created, at the front of the list, undoes its
/// creation, where no tab shows a request with its id.
pub proof fn law_delete_undoes_create_request(s: AppStateView, collection_index: i32, created: RequestDataView)
    requires
        in_range(collection_index, s.collection_items.len())
            ==> s.collection_items[collection_index as int].request_count < i32::MAX,
        !s.selected_requests.any(selection_of_request(created.id)),
    ensures
        s.after_request_created(collection_index, Some(created)).after_request_deleted(
            created.id,
            0,
            collection_index,
            true,
        ) == s,
{
    let mid = s.after_request_created(collection_index, Some(created));
    let end = mid.after_request_deleted(created.id, 0, collection_index, true);
    assert(end.active_collection_requests =~= s.active_collection_requests);
    if in_range(collection_index, s.collection_items.len()) {
        let c = s.collection_items[collection_index as int];
        assert(with_count_moved(with_count_moved(c, 1), -1) == c);
        assert(end.collection_items =~= s.collection_items);
    }
    assert forall|i: int| 0 <= i < s.selected_requests.len() implies #[trigger] other_request(created.id)(
        s.selected_requests[i],
    ) by {
        if !other_request(created.id)(s.selected_requests[i]) {
            assert(selection_of_request(created.id)(s.selected_requests[i]));
        }
    }
    lemma_filter_all(s.selected_requests, other_request(created.id));
}

/// Removing the collection just created, at the front of the list, undoes its
/// creation, where no tab belongs to a collection with its id.
pub proof fn law_remove_undoes_create_collection(s: AppStateView, created: CollectionDataView, icon: usize)
    requires
        forall|i: int| 0 <= i < s.selected_requests.len() ==> #[trigger] s.selected_requests[i].collection_id != created.id,
    ensures
        s.after_collection_created(Some(created), Some(icon)).after_collection_removed(created.id, 0, true) == s,
{
    let mid = s.after_collection_created(Some(created), Some(icon));
    let end = mid.after_collection_removed(created.id, 0, true);
    assert(end.collection_items =~= s.collection_items);
    assert forall|i: int| 0 <= i < s.selected_requests.len() implies #[trigger] outside_collection(created.id)(
        s.selected_requests[i],
    ) by {}
    lemma_filter_all(s.selected_requests, outside_collection(created.id));
}

/// Once a collection is removed no tab belongs to it, and every tab of
/// another collection stays open.
pub proof fn law_removed_collection_leaves_no_tab(s: AppStateView, id: Seq<char>, index: i32)
    ensures
        forall|i: int|
            0 <= i < s.after_collection_removed(id, index, true).selected_requests.len()
                ==> (#[trigger] s.after_collection_removed(id, index, true).selected_requests[i]).collection_id
                != id,
        forall|i: int|
            0 <= i < s.selected_requests.len() && (#[trigger] s.selected_requests[i]).collection_id != id
                ==> s.after_collection_removed(id, index, true).selected_requests.contains(s.selected_requests[i]),
{
    let pred = outside_collection(id);
    let out = s.after_collection_removed(id, index, true).selected_requests;
    assert forall|i: int| 0 <= i < out.len() implies (#[trigger] out[i]).collection_id != id by {
        s.selected_requests.lemma_filter_pred(pred, i);
    }
    assert forall|i: int|
        0 <= i < s.selected_requests.len() && (#[trigger] s.selected_requests[i]).collection_id != id implies out.contains(
        s.selected_requests[i],
    ) by {
        s.selected_requests.lemma_filter_contains(pred, i);
    }
}

/// Once a request is deleted no tab shows it, and every tab of another
/// request stays open.
pub proof fn law_deleted_request_leaves_no_tab(
    s: AppStateView,
    request_id: Seq<char>,
    request_index: i32,
    collection_index: i32,
)
    ensures
        forall|i: int|
            0 <= i < s.after_request_deleted(request_id, request_index, collection_index, true).selected_requests.len()
                ==> (#[trigger] s.after_request_deleted(
                request_id,
                request_index,
                collection_index,
                true,
            ).selected_requests[i]).item.id != request_id,
        forall|i: int|
            0 <= i < s.selected_requests.len() && (#[trigger] s.selected_requests[i]).item.id != request_id
                ==> s.after_request_deleted(
                request_id,
                request_index,
                collection_index,
                true,
            ).selected_requests.contains(s.selected_requests[i]),
{
    let pred = other_request(request_id);
    let out = s.after_request_deleted(request_id, request_index, collection_index, true).selected_requests;
    assert forall|i: int| 0 <= i < out.len() implies (#[trigger] out[i]).item.id != request_id by {
        s.selected_requests.lemma_filter_pred(pred, i);
    }
    assert forall|i: int|
        0 <= i < s.selected_requests.len() && (#[trigger] s.selected_requests[i]).item.id != request_id implies out.contains(
        s.selected_requests[i],
    ) by {
        s.selected_requests.lemma_filter_contains(pred, i);
    }
}

/// Once a header is removed no header with its id is shown, and every other
/// header stays.
pub proof fn law_removed_header_is_gone(s: AppStateView, header_id: Seq<char>)
    ensures
        forall|i: int|
            0 <= i < s.after_header_removed(header_id).request_item_headers.len()
                ==> (#[trigger] s.after_header_removed(header_id).request_item_headers[i]).id != header_id,
        forall|i: int|
            0 <= i < s.request_item_headers.len() && (#[trigger] s.request_item_headers[i]).id != header_id
                ==> s.after_header_removed(header_id).request_item_headers.contains(s.request_item_headers[i]),
{
    let pred = other_header(header_id);
    let out = s.after_header_removed(header_id).request_item_headers;
    assert forall|i: int| 0 <= i < out.len() implies (#[trigger] out[i]).id != header_id by {
        s.request_item_headers.lemma_filter_pred(pred, i);
    }
    assert forall|i: int|
        0 <= i < s.request_item_headers.len() && (#[trigger] s.request_item_headers[i]).id != header_id implies out.contains(
        s.request_item_headers[i],
    ) by {
        s.request_item_headers.lemma_filter_contains(pred, i);
    }
}

/// Removing a collection or deleting a request never makes two tabs show the
/// same request.
pub proof fn law_removals_keep_tabs_distinct(
    s: AppStateView,
    id: Seq<char>,
    index: i32,
    collection_index: i32,
    deleted: bool,
)
    requires
        tabs_distinct(s.selected_requests),
    ensures
        tabs_distinct(s.after_collection_removed(id, index, deleted).selected_requests),
        tabs_distinct(s.after_request_deleted(id, index, collection_index, deleted).selected_requests),
        tabs_distinct(s.after_tab_closed(index).selected_requests),
{
    lemma_filter_keeps_tabs_distinct(s.selected_requests, outside_collection(id));
    lemma_filter_keeps_tabs_distinct(s.selected_requests, other_request(id));
    if in_range(index, s.selected_requests.len()) {
        let out = s.selected_requests.remove(index as int);
        assert forall|i: int, j: int|
            0 <= i < out.len() && 0 <= j < out.len() && i != j implies #[trigger] out[i].item.id
                != #[trigger] out[j].item.id by {
            let oi = if i < index { i } else { i + 1 };
            let oj = if j < index { j } else { j + 1 };
            assert(out[i] == s.selected_requests[oi] && out[j] == s.selected_requests[oj]);
        }
    }
}

/// Updating a collection changes no tab's request, so tabs stay distinct,
/// and it keeps the number of collections and of tabs.
pub proof fn law_collection_update_keeps_tabs(
    s: AppStateView,
    id: Seq<char>,
    index: i32,
    updated: Option<CollectionDataView>,
    icon: Option<usize>,
)
    requires
        tabs_distinct(s.selected_requests),
    ensures
        tabs_distinct(s.after_collection_updated(id, index, updated, icon).selected_requests),
        s.after_collection_updated(id, index, updated, icon).selected_requests.len() == s.selected_requests.len(),
        s.after_collection_updated(id, index, updated, icon).collection_items.len() == s.collection_items.len(),
{
    let out = s.after_collection_updated(id, index, updated, icon).selected_requests;
    assert forall|i: int, j: int|
        0 <= i < out.len() && 0 <= j < out.len() && i != j implies #[trigger] out[i].item.id
            != #[trigger] out[j].item.id by {
        assert(out[i].item == s.selected_requests[i].item);
        assert(out[j].item == s.selected_requests[j].item);
    }
}

/// Updating a request keeps the number of requests of the open collection
/// and of tabs, and, where the store gives the request back under the same id,
/// keeps the tabs distinct.
pub proof fn law_request_update_keeps_tabs(s: AppStateView, request_id: Seq<char>, updated: RequestDataView)
    requires
        tabs_distinct(s.selected_requests),
        updated.id == request_id,
    ensures
        tabs_distinct(s.after_request_updated(request_id, Some(updated)).selected_requests),
        s.after_request_updated(request_id, Some(updated)).selected_requests.len() == s.selected_requests.len(),
        s.after_request_updated(request_id, Some(updated)).active_collection_requests.len()
            == s.active_collection_requests.len(),
{
    let out = s.after_request_updated(request_id, Some(updated)).selected_requests;
    let pred = selection_of_request(request_id);
    if exists|k: int| is_first_match(s.selected_requests, pred, k) {
        let k = choose|k: int| is_first_match(s.selected_requests, pred, k);
        assert forall|i: int, j: int|
            0 <= i < out.len() && 0 <= j < out.len() && i != j implies #[trigger] out[i].item.id
                != #[trigger] out[j].item.id by {
            assert(out[i].item.id == s.selected_requests[i].item.id);
            assert(out[j].item.id == s.selected_requests[j].item.id);
        }
    }
}

/// Updating a header keeps the number of headers.
pub proof fn law_header_update_keeps_count(s: AppStateView, updated: RequestHeaderDataView)
    ensures
        s.after_header_updated(Some(updated)).request_item_headers.len() == s.request_item_headers.len(),
{
}

/// The request item `item` shows the record `d`: its id, name and protocol,
/// its URL (empty where the record has none) and its method (`get` where the
/// record has none).
pub open spec fn shows_request(item: RequestItemView, d: RequestDataView) -> bool {
    &&& item.id == d.id
    &&& item.name == d.name
    &&& item.url == (match d.url {
        Some(u) => u,
        None => Seq::<char>::empty(),
    })
    &&& item.protocol == d.protocol
    &&& item.http_method == (match d.http_method {
        Some(m) => m,
        None => "get"@,
    })
}

/// The collection item `item` shows the record `d`: its id, name, icon file
/// name and request count.
pub open spec fn shows_collection(item: CollectionItemView, d: CollectionDataView) -> bool {
    &&& item.id == d.id
    &&& item.name == d.name
    &&& item.icon_name == d.icon
    &&& item.request_count == d.requests_count
}

/// The header item `item` shows the record `d`: its id, key and value, and
/// active exactly where the record's flag is 1.
pub open spec fn shows_header(item: HeaderItemView, d: RequestHeaderDataView) -> bool {
    &&& item.id == d.id
    &&& item.key == d.key
    &&& item.value == d.value
    &&& item.active == (d.active == 1)
}

/// Once the store gives back an updated request, the first request of the
/// open collection with that id, and the first tab that shows it, show the
/// store's record in every field (the tab keeps its collection); both show
/// the same item, and every other request and tab is kept.
pub proof fn law_request_update_shows_record(s: AppStateView, request_id: Seq<char>, updated: RequestDataView)
    ensures
        ({
            let after = s.after_request_updated(request_id, Some(updated));
            &&& after.active_collection_requests.len() == s.active_collection_requests.len()
            &&& after.selected_requests.len() == s.selected_requests.len()
            &&& forall|j: int|
                is_first_match(s.active_collection_requests, request_has_id(request_id), j) ==> {
                    &&& shows_request(#[trigger] after.active_collection_requests[j], updated)
                    &&& forall|i: int|
                        0 <= i < s.active_collection_requests.len() && i != j
                            ==> after.active_collection_requests[i] == s.active_collection_requests[i]
                }
            &&& forall|k: int|
                is_first_match(s.selected_requests, selection_of_request(request_id), k) ==> {
                    &&& shows_request((#[trigger] after.selected_requests[k]).item, updated)
                    &&& after.selected_requests[k].collection_id == s.selected_requests[k].collection_id
                    &&& after.selected_requests[k].collection_icon == s.selected_requests[k].collection_icon
                    &&& after.selected_requests[k].collection_index == s.selected_requests[k].collection_index
                    &&& forall|i: int|
                        0 <= i < s.selected_requests.len() && i != k ==> after.selected_requests[i]
                            == s.selected_requests[i]
                }
            &&& forall|j: int, k: int|
                is_first_match(s.active_collection_requests, request_has_id(request_id), j)
                    && is_first_match(s.selected_requests, selection_of_request(request_id), k)
                    ==> (#[trigger] after.selected_requests[k]).item == #[trigger] after.active_collection_requests[j]
        }),
{
    let after = s.after_request_updated(request_id, Some(updated));
    assert forall|j: int|
        is_first_match(s.active_collection_requests, request_has_id(request_id), j) implies {
        &&& shows_request(#[trigger] after.active_collection_requests[j], updated)
        &&& forall|i: int|
            0 <= i < s.active_collection_requests.len() && i != j
                ==> after.active_collection_requests[i] == s.active_collection_requests[i]
    } by {
        let c = choose|c: int| is_first_match(s.active_collection_requests, request_has_id(request_id), c);
        lemma_one_first_match(s.active_collection_requests, request_has_id(request_id), j, c);
    }
    assert forall|k: int| is_first_match(s.selected_requests, selection_of_request(request_id), k) implies {
        &&& shows_request((#[trigger] after.selected_requests[k]).item, updated)
        &&& after.selected_requests[k].collection_id == s.selected_requests[k].collection_id
        &&& after.selected_requests[k].collection_icon == s.selected_requests[k].collection_icon
        &&& after.selected_requests[k].collection_index == s.selected_requests[k].collection_index
        &&& forall|i: int|
            0 <= i < s.selected_requests.len() && i != k ==> after.selected_requests[i] == s.selected_requests[i]
    } by {
        let c = choose|c: int| is_first_match(s.selected_requests, selection_of_request(request_id), c);
        lemma_one_first_match(s.selected_requests, selection_of_request(request_id), k, c);
    }
    assert forall|j: int, k: int|
        is_first_match(s.active_collection_requests, request_has_id(request_id), j)
            && is_first_match(s.selected_requests, selection_of_request(request_id), k)
            implies (#[trigger] after.selected_requests[k]).item == #[trigger] after.active_collection_requests[j] by {
        let c = choose|c: int| is_first_match(s.active_collection_requests, request_has_id(request_id), c);
        lemma_one_first_match(s.active_collection_requests, request_has_id(request_id), j, c);
        let d = choose|d: int| is_first_match(s.selected_requests, selection_of_request(request_id), d);
        lemma_one_first_match(s.selected_requests, selection_of_request(request_id), k, d);
    }
}

/// There is one first match.
proof fn lemma_one_first_match<T>(s: Seq<T>, pred: spec_fn(T) -> bool, i: int, k: int)
    requires
        is_first_match(s, pred, i),
        is_first_match(s, pred, k),
    ensures
        i == k,
{
    if k < i {
        assert(!pred(s[k]));
    } else if k > i {
        assert(!pred(s[i]));
    }
}

/// Bringing the tab at an index to the front puts exactly that tab in front
/// and keeps the tabs; an index that designates no tab changes nothing.
pub proof fn law_tab_activation_brings_that_tab(s: AppStateView, index: i32)
    ensures
        in_range(index, s.selected_requests.len()) ==> s.after_tab_activated(index).active_selected_request
            == Some(s.selected_requests[index as int]),
        s.after_tab_activated(index).selected_requests == s.selected_requests,
        !in_range(index, s.selected_requests.len()) ==> s.after_tab_activated(index) == s,
{
}

/// The listed requests are the records, one item per record in order, each
/// showing its record.
pub proof fn law_request_list_shows_records(s: AppStateView, records: Seq<RequestDataView>)
    ensures
        request_items_of(records).len() == records.len(),
        forall|i: int| 0 <= i < records.len() ==> shows_request(#[trigger] request_items_of(records)[i], records[i]),
        s.after_requests_loaded(Some(records)).active_collection_requests == request_items_of(records),
{
}

/// The listed headers are the records, one item per record in order, each
/// showing its record.
pub proof fn law_header_list_shows_records(s: AppStateView, records: Seq<RequestHeaderDataView>)
    ensures
        header_items_of(records).len() == records.len(),
        forall|i: int| 0 <= i < records.len() ==> shows_header(#[trigger] header_items_of(records)[i], records[i]),
        s.after_headers_loaded(Some(records)).request_item_headers == header_items_of(records),
{
}

/// Every listed collection shows a record whose icon loaded, with the handle
/// of that icon; where every icon loaded, the list holds one item per record,
/// in order.
pub proof fn law_collection_list_shows_records(loaded: Seq<(CollectionDataView, Option<usize>)>)
    ensures
        forall|i: int|
            0 <= i < collection_items_of(loaded).len() ==> exists|j: int|
                0 <= j < loaded.len() && loaded[j].1 == Some(collection_items_of(loaded)[i].icon)
                    && shows_collection(#[trigger] collection_items_of(loaded)[i], loaded[j].0),
        (forall|j: int| 0 <= j < loaded.len() ==> (#[trigger] loaded[j]).1 is Some) ==> {
            &&& collection_items_of(loaded).len() == loaded.len()
            &&& forall|i: int|
                0 <= i < loaded.len() ==> loaded[i].1 == Some(collection_items_of(loaded)[i].icon)
                    && shows_collection(#[trigger] collection_items_of(loaded)[i], loaded[i].0)
        },
    decreases loaded.len(),
{
    if loaded.len() > 0 {
        let rest = loaded.drop_last();
        law_collection_list_shows_records(rest);
        let out = collection_items_of(loaded);
        let prev = collection_items_of(rest);
        let last = loaded.last();
        assert forall|i: int| 0 <= i < out.len() implies exists|j: int|
            0 <= j < loaded.len() && loaded[j].1 == Some(out[i].icon) && shows_collection(
                #[trigger] out[i],
                loaded[j].0,
            ) by {
            if i < prev.len() {
                assert(out[i] == prev[i]);
                let j = choose|j: int|
                    0 <= j < rest.len() && rest[j].1 == Some(prev[i].icon) && shows_collection(prev[i], rest[j].0);
                assert(loaded[j] == rest[j]);
            } else {
                assert(loaded[loaded.len() - 1] == last);
            }
        }
        if forall|j: int| 0 <= j < loaded.len() ==> (#[trigger] loaded[j]).1 is Some {
            assert forall|j: int| 0 <= j < rest.len() implies (#[trigger] rest[j]).1 is Some by {
                assert(loaded[j] == rest[j]);
            }
            assert(loaded[loaded.len() - 1].1 is Some);
            assert forall|i: int|
                0 <= i < loaded.len() implies loaded[i].1 == Some(out[i].icon) && shows_collection(
                #[trigger] out[i],
                loaded[i].0,
            ) by {
                if i < rest.len() {
                    assert(out[i] == prev[i]);
                    assert(loaded[i] == rest[i]);
                }
            }
        }
    }
}

/// The authorization item `item` shows the record `d`, field by field.
pub open spec fn shows_authorization(item: AuthorizationItemView, d: RequestAuthorizationDataView) -> bool {
    &&& item.id == d.id
    &&& item.auth_type == d.auth_type
    &&& item.token == d.token
    &&& item.prefix == d.prefix
}

/// The listed authorization shows the records, one item per record in order;
/// a saved authorization is shown alone.
pub proof fn law_authorization_shows_records(
    s: AppStateView,
    records: Seq<RequestAuthorizationDataView>,
    saved: RequestAuthorizationDataView,
)
    ensures
        s.after_authorization_loaded(Some(records)).request_auth_items.len() == records.len(),
        forall|i: int|
            0 <= i < records.len() ==> shows_authorization(
                #[trigger] s.after_authorization_loaded(Some(records)).request_auth_items[i],
                records[i],
            ),
        s.after_authorization_saved(Some(saved)).request_auth_items.len() == 1,
        shows_authorization(s.after_authorization_saved(Some(saved)).request_auth_items[0], saved),
{
}

/// A created collection whose icon loaded is shown first, with that icon,
/// and the collections shown before follow it in order.
pub proof fn law_created_collection_first(s: AppStateView, created: CollectionDataView, icon: usize)
    ensures
        ({
            let after = s.after_collection_created(Some(created), Some(icon)).collection_items;
            &&& after.len() == s.collection_items.len() + 1
            &&& shows_collection(after[0], created)
            &&& after[0].icon == icon
            &&& forall|i: int| 0 <= i < s.collection_items.len() ==> after[i + 1] == #[trigger] s.collection_items[i]
        }),
{
}

/// An updated collection whose icon loaded is shown at its index, with that
/// icon, every other collection kept; every tab of the collection shows the
/// new icon and nothing else of the tabs changes.
pub proof fn law_updated_collection_shown(
    s: AppStateView,
    id: Seq<char>,
    index: i32,
    updated: CollectionDataView,
    icon: usize,
)
    ensures
        ({
            let after = s.after_collection_updated(id, index, Some(updated), Some(icon));
            &&& after.collection_items.len() == s.collection_items.len()
            &&& in_range(index, s.collection_items.len()) ==> shows_collection(
                after.collection_items[index as int],
                updated,
            ) && after.collection_items[index as int].icon == icon
            &&& forall|i: int|
                0 <= i < s.collection_items.len() && i != index ==> #[trigger] after.collection_items[i]
                    == s.collection_items[i]
            &&& after.selected_requests.len() == s.selected_requests.len()
            &&& forall|i: int|
                0 <= i < s.selected_requests.len() ==> {
                    let (t, u) = (s.selected_requests[i], #[trigger] after.selected_requests[i]);
                    &&& u.item == t.item
                    &&& u.collection_id == t.collection_id
                    &&& u.collection_index == t.collection_index
                    &&& u.collection_icon == (if t.collection_id == id { icon } else { t.collection_icon })
                }
        }),
{
}

/// A created request is shown first, the requests shown before follow in
/// order, and the collection at `collection_index` counts one more request.
pub proof fn law_created_request_first(s: AppStateView, collection_index: i32, created: RequestDataView)
    requires
        in_range(collection_index, s.collection_items.len())
            ==> s.collection_items[collection_index as int].request_count < i32::MAX,
    ensures
        ({
            let after = s.after_request_created(collection_index, Some(created));
            &&& after.active_collection_requests.len() == s.active_collection_requests.len() + 1
            &&& shows_request(after.active_collection_requests[0], created)
            &&& forall|i: int|
                0 <= i < s.active_collection_requests.len() ==> after.active_collection_requests[i + 1]
                    == #[trigger] s.active_collection_requests[i]
            &&& after.collection_items.len() == s.collection_items.len()
            &&& forall|i: int|
                0 <= i < s.collection_items.len() ==> {
                    let (c, d) = (s.collection_items[i], #[trigger] after.collection_items[i]);
                    &&& d.request_count == (if i == collection_index { c.request_count + 1 } else { c.request_count as int })
                    &&& d.id == c.id && d.name == c.name && d.icon == c.icon && d.icon_name == c.icon_name
                }
        }),
{
}

/// Opening a request puts in front a tab that shows that request with the
/// collection at `collection_index` (its id, icon and index), and some tab
/// shows that request.
pub proof fn law_selected_tab_shows_request(s: AppStateView, request_index: i32, collection_index: i32)
    requires
        in_range(collection_index, s.collection_items.len()),
        in_range(request_index, s.active_collection_requests.len()),
    ensures
        ({
            let after = s.after_select(request_index, collection_index);
            &&& after.active_selected_request is Some
            &&& after.active_selected_request->0.item == s.active_collection_requests[request_index as int]
            &&& after.active_selected_request->0.collection_id == s.collection_items[collection_index as int].id
            &&& after.active_selected_request->0.collection_icon == s.collection_items[collection_index as int].icon
            &&& after.active_selected_request->0.collection_index == collection_index
            &&& after.show_request_section
            &&& exists|i: int|
                0 <= i < after.selected_requests.len() && (#[trigger] after.selected_requests[i]).item.id
                    == s.active_collection_requests[request_index as int].id
        }),
{
    let after = s.after_select(request_index, collection_index);
    let tab = selection_for(s, request_index, collection_index);
    if !s.selected_requests.any(selection_of_request(tab.item.id)) {
        assert(after.selected_requests[s.selected_requests.len() as int] == tab);
    } else {
        let i = choose|i: int| 0 <= i < s.selected_requests.len() && selection_of_request(tab.item.id)(s.selected_requests[i]);
        assert(after.selected_requests[i] == s.selected_requests[i]);
    }
}

/// A created header is shown last; an updated header is shown in place of
/// the first header with its id, every other header kept.
pub proof fn law_header_changes_shown(s: AppStateView, record: RequestHeaderDataView)
    ensures
        ({
            let after = s.after_header_created(Some(record)).request_item_headers;
            &&& after.len() == s.request_item_headers.len() + 1
            &&& shows_header(after[after.len() - 1], record)
            &&& forall|i: int| 0 <= i < s.request_item_headers.len() ==> after[i] == #[trigger] s.request_item_headers[i]
        }),
        ({
            let after = s.after_header_updated(Some(record)).request_item_headers;
            &&& after.len() == s.request_item_headers.len()
            &&& forall|j: int|
                is_first_match(s.request_item_headers, header_has_id(record.id), j) ==> {
                    &&& shows_header(#[trigger] after[j], record)
                    &&& forall|i: int| 0 <= i < s.request_item_headers.len() && i != j ==> after[i] == s.request_item_headers[i]
                }
        }),
{
    let after = s.after_header_updated(Some(record)).request_item_headers;
    assert forall|j: int| is_first_match(s.request_item_headers, header_has_id(record.id), j) implies {
        &&& shows_header(#[trigger] after[j], record)
        &&& forall|i: int| 0 <= i < s.request_item_headers.len() && i != j ==> after[i] == s.request_item_headers[i]
    } by {
        let c = choose|c: int| is_first_match(s.request_item_headers, header_has_id(record.id), c);
        lemma_one_first_match(s.request_item_headers, header_has_id(record.id), j, c);
    }
}

} // verus!
