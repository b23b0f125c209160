use querry::model::{
    to_collection_item, to_collection_items, to_header_item, to_header_items, to_request_item,
    to_request_items, to_authorization_items, AuthorizationItem, CollectionData, CollectionItem,
    HeaderItem, RequestAuthorizationData, RequestData, RequestHeaderData, RequestItem,
};

fn collection(id: &str, icon: &str, count: i32) -> CollectionData {
    CollectionData {
        id: id.to_string(),
        name: format!("name {id}"),
        icon: icon.to_string(),
        requests_count: count,
    }
}

#[test]
fn collection_item_keeps_fields_and_takes_icon_handle() {
    let item = to_collection_item(collection("c1", "folder.svg", 3), Some(7)).unwrap();
    assert_eq!(
        item,
        CollectionItem {
            id: "c1".to_string(),
            name: "name c1".to_string(),
            icon: 7,
            icon_name: "folder.svg".to_string(),
            request_count: 3,
        }
    );
}

#[test]
fn collection_item_missing_when_icon_failed() {
    assert_eq!(to_collection_item(collection("c1", "missing.svg", 0), None), None);
}

#[test]
fn collection_items_skip_failed_icons_and_keep_order() {
    let items = to_collection_items(vec![
        (collection("a", "a.svg", 1), Some(0)),
        (collection("b", "b.svg", 2), None),
        (collection("c", "c.svg", 3), Some(5)),
    ]);
    let ids: Vec<&str> = items.iter().map(|i| i.id.as_str()).collect();
    assert_eq!(ids, vec!["a", "c"]);
    assert_eq!(items[1].icon, 5);
    assert_eq!(items[1].request_count, 3);
}

#[test]
fn collection_items_of_empty_list() {
    assert!(to_collection_items(Vec::new()).is_empty());
}

#[test]
fn request_item_fills_missing_url_and_method() {
    let item = to_request_item(RequestData {
        id: "r1".to_string(),
        name: "List users".to_string(),
        url: None,
        protocol: "http".to_string(),
        http_method: None,
    });
    assert_eq!(
        item,
        RequestItem {
            id: "r1".to_string(),
            name: "List users".to_string(),
            url: String::new(),
            protocol: "http".to_string(),
            http_method: "get".to_string(),
        }
    );
}

#[test]
fn request_item_keeps_given_url_and_method() {
    let item = to_request_item(RequestData {
        id: "r2".to_string(),
        name: "Create".to_string(),
        url: Some("https://example.org/users".to_string()),
        protocol: "http".to_string(),
        http_method: Some("post".to_string()),
    });
    assert_eq!(item.url, "https://example.org/users");
    assert_eq!(item.http_method, "post");
}

#[test]
fn request_items_keep_order() {
    let items = to_request_items(vec![
        RequestData {
            id: "1".to_string(),
            name: "a".to_string(),
            url: None,
            protocol: "http".to_string(),
            http_method: Some("put".to_string()),
        },
        RequestData {
            id: "2".to_string(),
            name: "b".to_string(),
            url: Some("u".to_string()),
            protocol: "http".to_string(),
            http_method: None,
        },
    ]);
    assert_eq!(items.len(), 2);
    assert_eq!(items[0].http_method, "put");
    assert_eq!(items[1].http_method, "get");
    assert_eq!(items[1].url, "u");
}

#[test]
fn header_item_active_only_for_flag_one() {
    let header = |active: i64| RequestHeaderData {
        id: "h".to_string(),
        key: "Accept".to_string(),
        value: "*/*".to_string(),
        active,
    };
    assert_eq!(
        to_header_item(header(1)),
        HeaderItem {
            active: true,
            id: "h".to_string(),
            key: "Accept".to_string(),
            value: "*/*".to_string(),
        }
    );
    assert!(!to_header_item(header(0)).active);
    assert!(!to_header_item(header(2)).active);
    assert!(!to_header_item(header(-1)).active);
}

#[test]
fn header_items_keep_order() {
    let items = to_header_items(vec![
        RequestHeaderData { id: "1".to_string(), key: "k1".to_string(), value: "v1".to_string(), active: 0 },
        RequestHeaderData { id: "2".to_string(), key: "k2".to_string(), value: "v2".to_string(), active: 1 },
    ]);
    assert_eq!(items.iter().map(|h| h.active).collect::<Vec<_>>(), vec![false, true]);
    assert_eq!(items[1].key, "k2");
}

#[test]
fn authorization_item_from_record() {
    let record = RequestAuthorizationData {
        id: "a1".to_string(),
        auth_type: "bearer".to_string(),
        token: "t0k3n".to_string(),
        prefix: "Bearer".to_string(),
    };
    assert_eq!(
        AuthorizationItem::from(record),
        AuthorizationItem {
            id: "a1".to_string(),
            auth_type: "bearer".to_string(),
            token: "t0k3n".to_string(),
            prefix: "Bearer".to_string(),
        }
    );
}

#[test]
fn authorization_items_keep_order() {
    let items = to_authorization_items(vec![
        RequestAuthorizationData { id: "1".to_string(), auth_type: "x".to_string(), token: "t1".to_string(), prefix: "p".to_string() },
        RequestAuthorizationData { id: "2".to_string(), auth_type: "y".to_string(), token: "t2".to_string(), prefix: "q".to_string() },
    ]);
    assert_eq!(items.iter().map(|a| a.id.as_str()).collect::<Vec<_>>(), vec!["1", "2"]);
}
