use querry::model::{
    CollectionData, CollectionItem, HeaderItem, RequestAuthorizationData, RequestData,
    RequestHeaderData, RequestItem, SelectedRequestItem,
};
use querry::state::AppState;

fn collection_item(id: &str, icon: usize, count: i32) -> CollectionItem {
    CollectionItem {
        id: id.to_string(),
        name: format!("name {id}"),
        icon,
        icon_name: format!("{id}.svg"),
        request_count: count,
    }
}

fn request_item(id: &str) -> RequestItem {
    RequestItem {
        id: id.to_string(),
        name: format!("request {id}"),
        url: format!("https://example.org/{id}"),
        protocol: "http".to_string(),
        http_method: "get".to_string(),
    }
}

fn request_data(id: &str, name: &str) -> RequestData {
    RequestData {
        id: id.to_string(),
        name: name.to_string(),
        url: Some(format!("https://example.org/{id}")),
        protocol: "http".to_string(),
        http_method: Some("post".to_string()),
    }
}

fn tab(request: &str, collection: &str, icon: usize, index: i32) -> SelectedRequestItem {
    SelectedRequestItem {
        item: request_item(request),
        collection_icon: icon,
        collection_id: collection.to_string(),
        collection_index: index,
    }
}

fn header(id: &str, key: &str) -> HeaderItem {
    HeaderItem { active: true, id: id.to_string(), key: key.to_string(), value: "v".to_string() }
}

/// Two collections; the first is open with two requests; one tab per collection.
fn sample() -> AppState {
    let mut s = AppState::new();
    s.page = 2;
    s.collection_items = vec![collection_item("c1", 0, 2), collection_item("c2", 1, 5)];
    s.active_collection_requests = vec![request_item("r1"), request_item("r2")];
    s.selected_requests = vec![tab("r1", "c1", 0, 0), tab("r9", "c2", 1, 1)];
    s.request_item_headers = vec![header("h1", "Accept"), header("h2", "Host"), header("h1", "Dup")];
    s
}

fn ids<T>(items: &[T], id: impl Fn(&T) -> &str) -> Vec<String> {
    items.iter().map(|x| id(x).to_string()).collect()
}

#[test]
fn new_state_is_empty() {
    let s = AppState::new();
    assert_eq!(s.page, 0);
    assert!(s.collection_items.is_empty());
    assert!(s.active_collection_requests.is_empty());
    assert!(s.selected_requests.is_empty());
    assert_eq!(s.active_selected_request, None);
    assert!(!s.show_request_section);
    assert!(s.request_item_headers.is_empty());
    assert!(s.request_auth_items.is_empty());
}

#[test]
fn startup_page_depends_on_stored_collections() {
    let mut s = AppState::new();
    s.show_startup_page(&Vec::new());
    assert_eq!(s.page, 1);
    s.show_startup_page(&vec![CollectionData {
        id: "c".to_string(),
        name: "n".to_string(),
        icon: "i".to_string(),
        requests_count: 0,
    }]);
    assert_eq!(s.page, 2);
}

#[test]
fn page_change() {
    let mut s = sample();
    s.change_page(1);
    assert_eq!(s.page, 1);
}

#[test]
fn collections_loaded_and_failed_load() {
    let mut s = sample();
    s.on_collections_loaded(Some(vec![
        (CollectionData { id: "x".to_string(), name: "X".to_string(), icon: "x.svg".to_string(), requests_count: 4 }, Some(3)),
        (CollectionData { id: "y".to_string(), name: "Y".to_string(), icon: "y.svg".to_string(), requests_count: 1 }, None),
    ]));
    assert_eq!(ids(&s.collection_items, |c| &c.id), vec!["x"]);
    assert_eq!(s.collection_items[0].icon, 3);
    s.on_collections_loaded(None);
    assert!(s.collection_items.is_empty());
}

#[test]
fn created_collection_goes_first() {
    let mut s = sample();
    let data = CollectionData {
        id: "c3".to_string(),
        name: "New Collection".to_string(),
        icon: "default.svg".to_string(),
        requests_count: 0,
    };
    s.on_collection_created(Some(data), Some(4));
    assert_eq!(ids(&s.collection_items, |c| &c.id), vec!["c3", "c1", "c2"]);
    assert_eq!(s.collection_items[0].icon, 4);
}

#[test]
fn created_collection_ignored_on_failure() {
    let mut s = sample();
    s.on_collection_created(None, Some(4));
    assert_eq!(s.collection_items.len(), 2);
    let data = CollectionData { id: "c3".to_string(), name: "n".to_string(), icon: "bad".to_string(), requests_count: 0 };
    s.on_collection_created(Some(data), None);
    assert_eq!(ids(&s.collection_items, |c| &c.id), vec!["c1", "c2"]);
}

#[test]
fn updated_collection_replaces_item_and_tab_icons() {
    let mut s = sample();
    s.selected_requests.push(tab("r2", "c2", 1, 1));
    let data = CollectionData {
        id: "c2".to_string(),
        name: "Renamed".to_string(),
        icon: "star.svg".to_string(),
        requests_count: 6,
    };
    s.on_collection_updated(&"c2".to_string(), 1, Some(data), Some(9));
    assert_eq!(s.collection_items[1].name, "Renamed");
    assert_eq!(s.collection_items[1].icon, 9);
    assert_eq!(s.collection_items[1].icon_name, "star.svg");
    assert_eq!(s.collection_items[1].request_count, 6);
    assert_eq!(s.collection_items[0], collection_item("c1", 0, 2));
    let icons: Vec<usize> = s.selected_requests.iter().map(|t| t.collection_icon).collect();
    assert_eq!(icons, vec![0, 9, 9]);
}

#[test]
fn updated_collection_out_of_range_still_updates_tabs() {
    let mut s = sample();
    let data = CollectionData { id: "c2".to_string(), name: "R".to_string(), icon: "i".to_string(), requests_count: 0 };
    s.on_collection_updated(&"c2".to_string(), 7, Some(data), Some(8));
    assert_eq!(s.collection_items[1], collection_item("c2", 1, 5));
    assert_eq!(s.selected_requests[1].collection_icon, 8);
    let data = CollectionData { id: "c1".to_string(), name: "R".to_string(), icon: "i".to_string(), requests_count: 0 };
    s.on_collection_updated(&"c1".to_string(), -1, Some(data), Some(6));
    assert_eq!(s.collection_items[0], collection_item("c1", 0, 2));
    assert_eq!(s.selected_requests[0].collection_icon, 6);
}

#[test]
fn updated_collection_ignored_on_failure() {
    let mut s = sample();
    s.on_collection_updated(&"c2".to_string(), 1, None, Some(9));
    let data = CollectionData { id: "c2".to_string(), name: "R".to_string(), icon: "i".to_string(), requests_count: 0 };
    s.on_collection_updated(&"c2".to_string(), 1, Some(data), None);
    assert_eq!(s.collection_items[1], collection_item("c2", 1, 5));
    assert_eq!(s.selected_requests[1].collection_icon, 1);
}

#[test]
fn removed_collection_closes_its_tabs() {
    let mut s = sample();
    s.on_collection_removed(&"c2".to_string(), 1, true);
    assert_eq!(ids(&s.collection_items, |c| &c.id), vec!["c1"]);
    assert_eq!(ids(&s.selected_requests, |t| &t.item.id), vec!["r1"]);
}

#[test]
fn removed_collection_with_bad_index_still_closes_tabs() {
    let mut s = sample();
    s.on_collection_removed(&"c1".to_string(), 5, true);
    assert_eq!(s.collection_items.len(), 2);
    assert_eq!(ids(&s.selected_requests, |t| &t.item.id), vec!["r9"]);
}

#[test]
fn removed_collection_ignored_on_failure() {
    let mut s = sample();
    s.on_collection_removed(&"c1".to_string(), 0, false);
    assert_eq!(s.collection_items.len(), 2);
    assert_eq!(s.selected_requests.len(), 2);
}

#[test]
fn requests_loaded_and_failed_load() {
    let mut s = sample();
    s.on_requests_loaded(Some(vec![request_data("r5", "five")]));
    assert_eq!(ids(&s.active_collection_requests, |r| &r.id), vec!["r5"]);
    assert_eq!(s.active_collection_requests[0].http_method, "post");
    s.on_requests_loaded(None);
    assert!(s.active_collection_requests.is_empty());
}

#[test]
fn created_request_goes_first_and_is_counted() {
    let mut s = sample();
    s.on_request_created(1, Some(request_data("r3", "three")));
    assert_eq!(ids(&s.active_collection_requests, |r| &r.id), vec!["r3", "r1", "r2"]);
    assert_eq!(s.collection_items[1].request_count, 6);
    assert_eq!(s.collection_items[0].request_count, 2);
}

#[test]
fn created_request_with_bad_collection_index_is_not_counted() {
    let mut s = sample();
    s.on_request_created(2, Some(request_data("r3", "three")));
    assert_eq!(s.active_collection_requests.len(), 3);
    assert_eq!(s.collection_items[0].request_count, 2);
    assert_eq!(s.collection_items[1].request_count, 5);
}

#[test]
fn created_request_ignored_on_failure() {
    let mut s = sample();
    s.on_request_created(0, None);
    assert_eq!(s.active_collection_requests.len(), 2);
    assert_eq!(s.collection_items[0].request_count, 2);
}

#[test]
fn updated_request_replaces_first_match_and_its_tab() {
    let mut s = sample();
    s.on_request_updated(&"r1".to_string(), Some(request_data("r1", "renamed")));
    assert_eq!(s.active_collection_requests[0].name, "renamed");
    assert_eq!(s.active_collection_requests[0].http_method, "post");
    assert_eq!(s.active_collection_requests[1], request_item("r2"));
    assert_eq!(s.selected_requests[0].item.name, "renamed");
    assert_eq!(s.selected_requests[0].collection_id, "c1");
    assert_eq!(s.selected_requests[1], tab("r9", "c2", 1, 1));
}

#[test]
fn updated_request_only_first_duplicate_replaced() {
    let mut s = sample();
    s.active_collection_requests.push(request_item("r1"));
    s.on_request_updated(&"r1".to_string(), Some(request_data("r1", "renamed")));
    assert_eq!(s.active_collection_requests[0].name, "renamed");
    assert_eq!(s.active_collection_requests[2], request_item("r1"));
}

#[test]
fn updated_request_ignored_on_failure_or_unknown() {
    let mut s = sample();
    s.on_request_updated(&"r1".to_string(), None);
    assert_eq!(s.active_collection_requests[0], request_item("r1"));
    s.on_request_updated(&"zz".to_string(), Some(request_data("zz", "n")));
    assert_eq!(s.active_collection_requests, vec![request_item("r1"), request_item("r2")]);
    assert_eq!(s.selected_requests.len(), 2);
}

#[test]
fn deleted_request_removed_uncounted_and_tabs_closed() {
    let mut s = sample();
    s.on_request_deleted(&"r1".to_string(), 0, 0, true);
    assert_eq!(ids(&s.active_collection_requests, |r| &r.id), vec!["r2"]);
    assert_eq!(s.collection_items[0].request_count, 1);
    assert_eq!(ids(&s.selected_requests, |t| &t.item.id), vec!["r9"]);
}

#[test]
fn deleted_request_with_bad_indexes() {
    let mut s = sample();
    s.on_request_deleted(&"r9".to_string(), 4, -1, true);
    assert_eq!(s.active_collection_requests.len(), 2);
    assert_eq!(s.collection_items[0].request_count, 2);
    assert_eq!(ids(&s.selected_requests, |t| &t.item.id), vec!["r1"]);
}

#[test]
fn deleted_request_ignored_on_failure() {
    let mut s = sample();
    s.on_request_deleted(&"r1".to_string(), 0, 0, false);
    assert_eq!(s.active_collection_requests.len(), 2);
    assert_eq!(s.collection_items[0].request_count, 2);
    assert_eq!(s.selected_requests.len(), 2);
}

#[test]
fn delete_undoes_create() {
    let mut s = sample();
    s.on_request_created(1, Some(request_data("r7", "seven")));
    s.on_request_deleted(&"r7".to_string(), 0, 1, true);
    let fresh = sample();
    assert_eq!(s.active_collection_requests, fresh.active_collection_requests);
    assert_eq!(s.collection_items, fresh.collection_items);
    assert_eq!(s.selected_requests, fresh.selected_requests);
}

#[test]
fn remove_undoes_create_collection() {
    let mut s = sample();
    let data = CollectionData { id: "c9".to_string(), name: "n".to_string(), icon: "i".to_string(), requests_count: 0 };
    s.on_collection_created(Some(data), Some(2));
    s.on_collection_removed(&"c9".to_string(), 0, true);
    let fresh = sample();
    assert_eq!(s.collection_items, fresh.collection_items);
    assert_eq!(s.selected_requests, fresh.selected_requests);
}

#[test]
fn selecting_a_request_opens_a_tab_in_front() {
    let mut s = sample();
    s.select_request(1, 0);
    assert_eq!(ids(&s.selected_requests, |t| &t.item.id), vec!["r1", "r9", "r2"]);
    let expected = tab("r2", "c1", 0, 0);
    assert_eq!(s.selected_requests[2], expected);
    assert_eq!(s.active_selected_request, Some(expected));
    assert!(s.show_request_section);
}

#[test]
fn selecting_an_open_request_adds_no_tab() {
    let mut s = sample();
    s.select_request(0, 1);
    assert_eq!(ids(&s.selected_requests, |t| &t.item.id), vec!["r1", "r9"]);
    assert_eq!(s.selected_requests[0], tab("r1", "c1", 0, 0));
    assert_eq!(s.active_selected_request, Some(tab("r1", "c2", 1, 1)));
    assert!(s.show_request_section);
}

#[test]
fn selecting_twice_is_selecting_once() {
    let mut once = sample();
    once.select_request(1, 1);
    let mut twice = sample();
    twice.select_request(1, 1);
    twice.select_request(1, 1);
    assert_eq!(once.selected_requests, twice.selected_requests);
    assert_eq!(once.active_selected_request, twice.active_selected_request);
}

#[test]
fn selecting_with_bad_index_changes_nothing() {
    let mut s = sample();
    s.select_request(2, 0);
    s.select_request(0, 2);
    s.select_request(-1, 0);
    assert_eq!(s.selected_requests.len(), 2);
    assert_eq!(s.active_selected_request, None);
    assert!(!s.show_request_section);
}

#[test]
fn closing_a_tab() {
    let mut s = sample();
    s.remove_selected_request(0);
    assert_eq!(ids(&s.selected_requests, |t| &t.item.id), vec!["r9"]);
    s.remove_selected_request(3);
    s.remove_selected_request(-2);
    assert_eq!(s.selected_requests.len(), 1);
}

#[test]
fn bringing_a_tab_to_front() {
    let mut s = sample();
    s.mark_request_active(1);
    assert_eq!(s.active_selected_request, Some(tab("r9", "c2", 1, 1)));
    s.mark_request_active(2);
    assert_eq!(s.active_selected_request, Some(tab("r9", "c2", 1, 1)));
}

#[test]
fn headers_loaded_created_and_failed_load() {
    let mut s = sample();
    s.on_headers_loaded(Some(vec![RequestHeaderData {
        id: "h5".to_string(),
        key: "Accept".to_string(),
        value: "*/*".to_string(),
        active: 0,
    }]));
    assert_eq!(s.request_item_headers.len(), 1);
    assert!(!s.request_item_headers[0].active);
    s.on_header_created(Some(RequestHeaderData {
        id: "h6".to_string(),
        key: String::new(),
        value: String::new(),
        active: 1,
    }));
    assert_eq!(ids(&s.request_item_headers, |h| &h.id), vec!["h5", "h6"]);
    assert!(s.request_item_headers[1].active);
    s.on_header_created(None);
    assert_eq!(s.request_item_headers.len(), 2);
    s.on_headers_loaded(None);
    assert!(s.request_item_headers.is_empty());
}

#[test]
fn updated_header_replaces_first_with_its_id() {
    let mut s = sample();
    s.on_header_updated(Some(RequestHeaderData {
        id: "h1".to_string(),
        key: "Content-Type".to_string(),
        value: "json".to_string(),
        active: 0,
    }));
    assert_eq!(
        s.request_item_headers[0],
        HeaderItem { active: false, id: "h1".to_string(), key: "Content-Type".to_string(), value: "json".to_string() }
    );
    assert_eq!(s.request_item_headers[2], header("h1", "Dup"));
    s.on_header_updated(None);
    s.on_header_updated(Some(RequestHeaderData { id: "none".to_string(), key: "k".to_string(), value: "v".to_string(), active: 1 }));
    assert_eq!(ids(&s.request_item_headers, |h| &h.key), vec!["Content-Type", "Host", "Dup"]);
}

#[test]
fn removed_header_drops_every_header_with_its_id() {
    let mut s = sample();
    s.on_header_removed(&"h1".to_string());
    assert_eq!(ids(&s.request_item_headers, |h| &h.id), vec!["h2"]);
    s.on_header_removed(&"nothing".to_string());
    assert_eq!(s.request_item_headers.len(), 1);
}

#[test]
fn authorization_loaded_saved_and_failed() {
    let mut s = sample();
    let record = |id: &str| RequestAuthorizationData {
        id: id.to_string(),
        auth_type: "bearer".to_string(),
        token: "t".to_string(),
        prefix: "Bearer".to_string(),
    };
    s.on_authorization_loaded(Some(vec![record("a1"), record("a2")]));
    assert_eq!(ids(&s.request_auth_items, |a| &a.id), vec!["a1", "a2"]);
    s.on_authorization_saved(Some(record("a3")));
    assert_eq!(ids(&s.request_auth_items, |a| &a.id), vec!["a3"]);
    s.on_authorization_saved(None);
    assert!(s.request_auth_items.is_empty());
    s.on_authorization_loaded(Some(vec![record("a4")]));
    s.on_authorization_loaded(None);
    assert!(s.request_auth_items.is_empty());
}
