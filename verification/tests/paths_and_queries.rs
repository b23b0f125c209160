use querry::queries::{icons_shown, try_icons_shown};
use querry::model::{to_header_item, RequestHeaderData};
use querry::db_path::{
    db_location, db_location_for, db_location_from_bytes, test_db_file_name, DbLocation, DB_FILE_NAME,
};
use querry::queries::{active_flag, collection_query, icon_path, CollectionQuery, NEW_COLLECTION_NAME};

#[test]
fn empty_search_lists_all_collections() {
    assert_eq!(collection_query(String::new()), CollectionQuery::All);
}

#[test]
fn search_text_lists_matching_collections() {
    assert_eq!(
        collection_query("api".to_string()),
        CollectionQuery::Matching("api".to_string())
    );
    assert_eq!(
        collection_query(" ".to_string()),
        CollectionQuery::Matching(" ".to_string())
    );
}

#[test]
fn active_flag_values() {
    assert_eq!(active_flag(true), 1);
    assert_eq!(active_flag(false), 0);
}

#[test]
fn active_flag_round_trips_through_header_item() {
    for active in [true, false] {
        let record = RequestHeaderData {
            id: "h".to_string(),
            key: String::new(),
            value: String::new(),
            active: active_flag(active),
        };
        assert_eq!(to_header_item(record).active, active);
    }
}

#[test]
fn icon_path_in_icon_pack() {
    assert_eq!(icon_path("folder.svg"), "ui/icons_pack/folder.svg");
}

#[test]
fn new_collection_name() {
    assert_eq!(NEW_COLLECTION_NAME, "New Collection");
}

#[test]
fn test_file_name_for_run() {
    assert_eq!(test_db_file_name("abc"), "querry_test_abc.db");
}

#[test]
fn location_for_test_run_is_temporary() {
    assert_eq!(
        db_location_for(Some(true), "123"),
        DbLocation::Temporary("querry_test_123.db".to_string())
    );
}

#[test]
fn location_otherwise_is_user_data() {
    assert_eq!(db_location_for(Some(false), "123"), DbLocation::UserData("querry.db".to_string()));
    assert_eq!(db_location_for(None, "123"), DbLocation::UserData(DB_FILE_NAME.to_string()));
    assert_eq!(db_location(None), Ok(DbLocation::UserData("querry.db".to_string())));
    assert_eq!(db_location(Some(false)), Ok(DbLocation::UserData("querry.db".to_string())));
}

#[test]
fn test_run_file_is_named_after_a_fresh_v4_uuid() {
    let name = match db_location(Some(true)) {
        Ok(DbLocation::Temporary(name)) => name,
        other => panic!("expected a temporary file, got {other:?}"),
    };
    assert!(name.starts_with("querry_test_"));
    assert!(name.ends_with(".db"));
    let id: Vec<char> = name["querry_test_".len()..name.len() - ".db".len()].chars().collect();
    assert_eq!(id.len(), 36);
    for (i, c) in id.iter().enumerate() {
        if [8, 13, 18, 23].contains(&i) {
            assert_eq!(*c, '-');
        } else {
            assert!(c.is_ascii_hexdigit() && !c.is_ascii_uppercase());
        }
    }
    assert_eq!(id[14], '4');
    assert!(['8', '9', 'a', 'b'].contains(&id[19]));
}

#[test]
fn two_test_runs_get_different_files() {
    let first = db_location(Some(true)).unwrap();
    let second = db_location(Some(true)).unwrap();
    assert_ne!(first, second);
}

#[test]
fn icons_shown_skip_failed_loads_in_order() {
    let shown = icons_shown(vec![
        ("a.svg".to_string(), Some(3)),
        ("b.svg".to_string(), None),
        ("c.svg".to_string(), Some(0)),
    ]);
    assert_eq!(shown, vec![("a.svg".to_string(), 3), ("c.svg".to_string(), 0)]);
    assert!(icons_shown(Vec::new()).is_empty());
    assert!(icons_shown(vec![("x".to_string(), None)]).is_empty());
}

#[test]
fn icons_shown_named_after_the_last_path_component() {
    let shown = icons_shown(vec![
        ("sub/b.svg".to_string(), Some(1)),
        ("dir/".to_string(), Some(2)),
        ("../x".to_string(), None),
    ]);
    assert_eq!(shown, vec![("b.svg".to_string(), 1), ("dir".to_string(), 2)]);
}

#[test]
fn try_icons_shown_refuses_a_loaded_icon_without_file_name() {
    assert_eq!(try_icons_shown(vec![("..".to_string(), Some(0))]), None);
    assert_eq!(
        try_icons_shown(vec![("..".to_string(), None), ("a.svg".to_string(), Some(4))]),
        Some(vec![("a.svg".to_string(), 4)])
    );
}

#[test]
fn location_from_bytes_names_the_v4_uuid_of_the_bytes() {
    let bytes: [u8; 16] = [0, 1, 2, 3, 4, 5, 6, 7, 8, 9, 10, 11, 12, 13, 14, 15];
    assert_eq!(
        db_location_from_bytes(Some(true), bytes),
        DbLocation::Temporary("querry_test_00010203-0405-4607-8809-0a0b0c0d0e0f.db".to_string())
    );
    assert_eq!(
        db_location_from_bytes(Some(true), [0xff; 16]),
        DbLocation::Temporary("querry_test_ffffffff-ffff-4fff-bfff-ffffffffffff.db".to_string())
    );
    assert_eq!(
        db_location_from_bytes(None, bytes),
        DbLocation::UserData("querry.db".to_string())
    );
}
