//! Records as the store hands them out, items as the lists show them, and the
//! conversions from the first to the second.
//!
//! An icon is loaded from disk by the caller; the library refers to a loaded
//! icon by a handle, an index into the caller's table of loaded images.
use vstd::prelude::*;

verus! {

/// The view of an optional string.
pub open spec fn opt_str_view(s: Option<String>) -> Option<Seq<char>> {
    match s {
        Some(v) => Some(v@),
        None => None,
    }
}

// ---------------------------------------------------------------- records

/// A collection as the store returns it.
#[derive(Debug, PartialEq, Eq)]
pub struct CollectionData {
    pub id: String,
    pub name: String,
    pub icon: String,
    pub requests_count: i32,
}

pub struct CollectionDataView {
    pub id: Seq<char>,
    pub name: Seq<char>,
    pub icon: Seq<char>,
    pub requests_count: i32,
}

impl View for CollectionData {
    type V = CollectionDataView;

    open spec fn view(&self) -> CollectionDataView {
        CollectionDataView {
            id: self.id@,
            name: self.name@,
            icon: self.icon@,
            requests_count: self.requests_count,
        }
    }
}

/// A request as the store returns it.
#[derive(Debug, PartialEq, Eq)]
pub struct RequestData {
    pub id: String,
    pub name: String,
    pub url: Option<String>,
    pub protocol: String,
    pub http_method: Option<String>,
}

pub struct RequestDataView {
    pub id: Seq<char>,
    pub name: Seq<char>,
    pub url: Option<Seq<char>>,
    pub protocol: Seq<char>,
    pub http_method: Option<Seq<char>>,
}

impl View for RequestData {
    type V = RequestDataView;

    open spec fn view(&self) -> RequestDataView {
        RequestDataView {
            id: self.id@,
            name: self.name@,
            url: opt_str_view(self.url),
            protocol: self.protocol@,
            http_method: opt_str_view(self.http_method),
        }
    }
}

/// A request header as the store returns it; `active` is 1 for an active header.
#[derive(Debug, PartialEq, Eq)]
pub struct RequestHeaderData {
    pub id: String,
    pub key: String,
    pub value: String,
    pub active: i64,
}

pub struct RequestHeaderDataView {
    pub id: Seq<char>,
    pub key: Seq<char>,
    pub value: Seq<char>,
    pub active: i64,
}

impl View for RequestHeaderData {
    type V = RequestHeaderDataView;

    open spec fn view(&self) -> RequestHeaderDataView {
        RequestHeaderDataView {
            id: self.id@,
            key: self.key@,
            value: self.value@,
            active: self.active,
        }
    }
}

/// The authorization of a request as the store returns it.
#[derive(Debug, PartialEq, Eq)]
pub struct RequestAuthorizationData {
    pub id: String,
    pub auth_type: String,
    pub token: String,
    pub prefix: String,
}

pub struct RequestAuthorizationDataView {
    pub id: Seq<char>,
    pub auth_type: Seq<char>,
    pub token: Seq<char>,
    pub prefix: Seq<char>,
}

impl View for RequestAuthorizationData {
    type V = RequestAuthorizationDataView;

    open spec fn view(&self) -> RequestAuthorizationDataView {
        RequestAuthorizationDataView {
            id: self.id@,
            auth_type: self.auth_type@,
            token: self.token@,
            prefix: self.prefix@,
        }
    }
}

// ---------------------------------------------------------------- items

/// A collection as its list shows it.
#[derive(Debug, PartialEq, Eq)]
pub struct CollectionItem {
    pub id: String,
    pub name: String,
    /// Handle of the loaded icon image.
    pub icon: usize,
    pub icon_name: String,
    pub request_count: i32,
}

pub struct CollectionItemView {
    pub id: Seq<char>,
    pub name: Seq<char>,
    pub icon: usize,
    pub icon_name: Seq<char>,
    pub request_count: i32,
}

impl View for CollectionItem {
    type V = CollectionItemView;

    open spec fn view(&self) -> CollectionItemView {
        CollectionItemView {
            id: self.id@,
            name: self.name@,
            icon: self.icon,
            icon_name: self.icon_name@,
            request_count: self.request_count,
        }
    }
}

impl Clone for CollectionItem {
    fn clone(&self) -> (res: Self)
        ensures
            res@ == self@,
    {
        CollectionItem {
            id: self.id.clone(),
            name: self.name.clone(),
            icon: self.icon,
            icon_name: self.icon_name.clone(),
            request_count: self.request_count,
        }
    }
}

/// A request as the list of the active collection shows it.
#[derive(Debug, PartialEq, Eq)]
pub struct RequestItem {
    pub id: String,
    pub name: String,
    pub url: String,
    pub protocol: String,
    pub http_method: String,
}

pub struct RequestItemView {
    pub id: Seq<char>,
    pub name: Seq<char>,
    pub url: Seq<char>,
    pub protocol: Seq<char>,
    pub http_method: Seq<char>,
}

impl View for RequestItem {
    type V = RequestItemView;

    open spec fn view(&self) -> RequestItemView {
        RequestItemView {
            id: self.id@,
            name: self.name@,
            url: self.url@,
            protocol: self.protocol@,
            http_method: self.http_method@,
        }
    }
}

impl Clone for RequestItem {
    fn clone(&self) -> (res: Self)
        ensures
            res@ == self@,
    {
        RequestItem {
            id: self.id.clone(),
            name: self.name.clone(),
            url: self.url.clone(),
            protocol: self.protocol.clone(),
            http_method: self.http_method.clone(),
        }
    }
}

/// A header of the request being edited.
#[derive(Debug, PartialEq, Eq)]
pub struct HeaderItem {
    pub active: bool,
    pub id: String,
    pub key: String,
    pub value: String,
}

pub struct HeaderItemView {
    pub active: bool,
    pub id: Seq<char>,
    pub key: Seq<char>,
    pub value: Seq<char>,
}

impl View for HeaderItem {
    type V = HeaderItemView;

    open spec fn view(&self) -> HeaderItemView {
        HeaderItemView { active: self.active, id: self.id@, key: self.key@, value: self.value@ }
    }
}

/// The authorization of the request being edited.
#[derive(Debug, PartialEq, Eq)]
pub struct AuthorizationItem {
    pub id: String,
    pub auth_type: String,
    pub token: String,
    pub prefix: String,
}

pub struct AuthorizationItemView {
    pub id: Seq<char>,
    pub auth_type: Seq<char>,
    pub token: Seq<char>,
    pub prefix: Seq<char>,
}

impl View for AuthorizationItem {
    type V = AuthorizationItemView;

    open spec fn view(&self) -> AuthorizationItemView {
        AuthorizationItemView {
            id: self.id@,
            auth_type: self.auth_type@,
            token: self.token@,
            prefix: self.prefix@,
        }
    }
}

/// A request opened in a tab, with the collection it belongs to.
#[derive(Debug, PartialEq, Eq)]
pub struct SelectedRequestItem {
    pub item: RequestItem,
    /// Handle of the icon of the collection.
    pub collection_icon: usize,
    pub collection_id: String,
    pub collection_index: i32,
}

pub struct SelectedRequestItemView {
    pub item: RequestItemView,
    pub collection_icon: usize,
    pub collection_id: Seq<char>,
    pub collection_index: i32,
}

impl View for SelectedRequestItem {
    type V = SelectedRequestItemView;

    open spec fn view(&self) -> SelectedRequestItemView {
        SelectedRequestItemView {
            item: self.item@,
            collection_icon: self.collection_icon,
            collection_id: self.collection_id@,
            collection_index: self.collection_index,
        }
    }
}

impl Clone for SelectedRequestItem {
    fn clone(&self) -> (res: Self)
        ensures
            res@ == self@,
    {
        SelectedRequestItem {
            item: self.item.clone(),
            collection_icon: self.collection_icon,
            collection_id: self.collection_id.clone(),
            collection_index: self.collection_index,
        }
    }
}

// ---------------------------------------------------------------- conversions

/// The item shown for a collection record, or `None` where its icon could not be loaded.
pub open spec fn collection_item_of(data: CollectionDataView, icon: Option<usize>) -> Option<
    CollectionItemView,
> {
    match icon {
        Some(handle) => Some(
            CollectionItemView {
                id: data.id,
                name: data.name,
                icon: handle,
                icon_name: data.icon,
                request_count: data.requests_count,
            },
        ),
        None => None,
    }
}

/// The view of a record paired with the result of loading its icon.
pub open spec fn loaded_view(pair: (CollectionData, Option<usize>)) -> (
    CollectionDataView,
    Option<usize>,
) {
    (pair.0@, pair.1)
}

/// The items shown for a list of records with their icons: those whose icon
/// loaded, in the order of the records.
pub open spec fn collection_items_of(loaded: Seq<(CollectionDataView, Option<usize>)>) -> Seq<
    CollectionItemView,
> {
    loaded.filter_map(|p: (CollectionDataView, Option<usize>)| collection_item_of(p.0, p.1))
}

/// The views of the elements of a sequence.
pub open spec fn views<T: View>(s: Seq<T>) -> Seq<T::V> {
    s.map_values(|x: T| x@)
}

/// The item shown for a request record: a missing URL shows as empty, a
/// missing method as `get`.
pub open spec fn request_item_of(data: RequestDataView) -> RequestItemView {
    RequestItemView {
        id: data.id,
        name: data.name,
        url: match data.url {
            Some(u) => u,
            None => Seq::empty(),
        },
        protocol: data.protocol,
        http_method: match data.http_method {
            Some(m) => m,
            None => "get"@,
        },
    }
}

/// The item shown for a header record: active exactly where the flag is 1.
pub open spec fn header_item_of(data: RequestHeaderDataView) -> HeaderItemView {
    HeaderItemView { active: data.active == 1, id: data.id, key: data.key, value: data.value }
}

/// The item shown for an authorization record: the same four fields.
pub open spec fn authorization_item_of(data: RequestAuthorizationDataView) -> AuthorizationItemView {
    AuthorizationItemView {
        id: data.id,
        auth_type: data.auth_type,
        token: data.token,
        prefix: data.prefix,
    }
}

/// The item for a collection record, given the handle of its loaded icon, or
/// `None` where the icon failed to load.
pub fn to_collection_item(item: CollectionData, icon: Option<usize>) -> (res: Option<CollectionItem>)
    ensures
        match res {
            Some(r) => collection_item_of(item@, icon) == Some(r@),
            None => collection_item_of(item@, icon) is None,
        },
{
    match icon {
        Some(handle) => Some(
            CollectionItem {
                id: item.id,
                name: item.name,
                icon: handle,
                icon_name: item.icon,
                request_count: item.requests_count,
            },
        ),
        None => None,
    }
}

/// The items for records paired with their icons; a record whose icon failed
/// to load is left out.
pub fn to_collection_items(items: Vec<(CollectionData, Option<usize>)>) -> (res: Vec<CollectionItem>)
    ensures
        views(res@) == collection_items_of(
            items@.map_values(|p: (CollectionData, Option<usize>)| loaded_view(p)),
        ),
{
    let ghost src = items@;
    let ghost loaded = src.map_values(|p: (CollectionData, Option<usize>)| loaded_view(p));
    let ghost f = |p: (CollectionDataView, Option<usize>)| collection_item_of(p.0, p.1);
    let mut res: Vec<CollectionItem> = Vec::new();
    for pair in it: items
        invariant
            it.seq() == src,
            loaded == src.map_values(|p: (CollectionData, Option<usize>)| loaded_view(p)),
            f == (|p: (CollectionDataView, Option<usize>)| collection_item_of(p.0, p.1)),
            views(res@) == loaded.take(it.index() as int).filter_map(f),
    {
        let ghost k = it.index();
        assert(pair == src[k as int]);
        assert(loaded.take(k + 1).drop_last() =~= loaded.take(k as int));
        assert(loaded.take(k + 1).last() == loaded_view(pair));
        let ghost before = res@;
        let (data, icon) = pair;
        if let Some(item) = to_collection_item(data, icon) {
            res.push(item);
            proof {
                lemma_views_push(before, item);
            }
        }
    }
    assert(loaded.take(src.len() as int) =~= loaded);
    res
}

/// The item for a request record.
pub fn to_request_item(item: RequestData) -> (res: RequestItem)
    ensures
        res@ == request_item_of(item@),
{
    let url = match item.url {
        Some(u) => u,
        None => String::new(),
    };
    let http_method = match item.http_method {
        Some(m) => m,
        None => "get".to_owned(),
    };
    RequestItem { id: item.id, name: item.name, url, protocol: item.protocol, http_method }
}

/// The item for a header record.
pub fn to_header_item(item: RequestHeaderData) -> (res: HeaderItem)
    ensures
        res@ == header_item_of(item@),
{
    HeaderItem { active: item.active == 1, id: item.id, key: item.key, value: item.value }
}

impl From<RequestAuthorizationData> for AuthorizationItem {
    fn from(item: RequestAuthorizationData) -> (res: Self) {
        AuthorizationItem {
            id: item.id,
            auth_type: item.auth_type,
            token: item.token,
            prefix: item.prefix,
        }
    }
}

impl vstd::std_specs::convert::FromSpecImpl<RequestAuthorizationData> for AuthorizationItem {
    open spec fn obeys_from_spec() -> bool {
        true
    }

    open spec fn from_spec(item: RequestAuthorizationData) -> AuthorizationItem {
        AuthorizationItem {
            id: item.id,
            auth_type: item.auth_type,
            token: item.token,
            prefix: item.prefix,
        }
    }
}

/// The items shown for a list of request records, in order.
pub open spec fn request_items_of(records: Seq<RequestDataView>) -> Seq<RequestItemView> {
    records.map_values(|d: RequestDataView| request_item_of(d))
}

/// The items shown for a list of header records, in order.
pub open spec fn header_items_of(records: Seq<RequestHeaderDataView>) -> Seq<HeaderItemView> {
    records.map_values(|d: RequestHeaderDataView| header_item_of(d))
}

/// The items shown for a list of authorization records, in order.
pub open spec fn authorization_items_of(records: Seq<RequestAuthorizationDataView>) -> Seq<
    AuthorizationItemView,
> {
    records.map_values(|d: RequestAuthorizationDataView| authorization_item_of(d))
}

/// `v` with `x` appended, in views.
pub proof fn lemma_views_push<T: View>(v: Seq<T>, x: T)
    ensures
        views(v.push(x)) == views(v).push(x@),
{
    assert(views(v.push(x)) =~= views(v).push(x@));
}

/// The items for a list of request records.
pub fn to_request_items(records: Vec<RequestData>) -> (res: Vec<RequestItem>)
    ensures
        views(res@) == request_items_of(views(records@)),
{
    let ghost src = records@;
    let mut res: Vec<RequestItem> = Vec::new();
    for d in it: records
        invariant
            it.seq() == src,
            views(res@) == request_items_of(views(src.take(it.index() as int))),
    {
        let ghost before = res@;
        let ghost k = it.index();
        assert(d == src[k as int]);
        assert(src.take(k + 1) =~= src.take(k as int).push(d));
        let item = to_request_item(d);
        res.push(item);
        proof {
            lemma_views_push(before, item);
            lemma_views_push(src.take(k as int), d);
        }
        assert(views(res@) =~= request_items_of(views(src.take(k + 1))));
    }
    assert(src.take(src.len() as int) =~= src);
    res
}

/// The items for a list of header records.
pub fn to_header_items(records: Vec<RequestHeaderData>) -> (res: Vec<HeaderItem>)
    ensures
        views(res@) == header_items_of(views(records@)),
{
    let ghost src = records@;
    let mut res: Vec<HeaderItem> = Vec::new();
    for d in it: records
        invariant
            it.seq() == src,
            views(res@) == header_items_of(views(src.take(it.index() as int))),
    {
        let ghost before = res@;
        let ghost k = it.index();
        assert(d == src[k as int]);
        assert(src.take(k + 1) =~= src.take(k as int).push(d));
        let item = to_header_item(d);
        res.push(item);
        proof {
            lemma_views_push(before, item);
            lemma_views_push(src.take(k as int), d);
        }
        assert(views(res@) =~= header_items_of(views(src.take(k + 1))));
    }
    assert(src.take(src.len() as int) =~= src);
    res
}

/// The items for a list of authorization records.
pub fn to_authorization_items(records: Vec<RequestAuthorizationData>) -> (res: Vec<
    AuthorizationItem,
>)
    ensures
        views(res@) == authorization_items_of(views(records@)),
{
    let ghost src = records@;
    let mut res: Vec<AuthorizationItem> = Vec::new();
    for d in it: records
        invariant
            it.seq() == src,
            views(res@) == authorization_items_of(views(src.take(it.index() as int))),
    {
        let ghost before = res@;
        let ghost k = it.index();
        assert(d == src[k as int]);
        assert(src.take(k + 1) =~= src.take(k as int).push(d));
        let item = AuthorizationItem::from(d);
        res.push(item);
        proof {
            lemma_views_push(before, item);
            lemma_views_push(src.take(k as int), d);
        }
        assert(views(res@) =~= authorization_items_of(views(src.take(k + 1))));
    }
    assert(src.take(src.len() as int) =~= src);
    res
}

} // verus!
