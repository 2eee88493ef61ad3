use video_store::http::{
    handle_upload, handle_video, preflight_response, route_request, HandlerError, Route,
    UploadField, BODY_LIMIT,
};
use video_store::store::Database;

fn field(name: &str, data: &[u8]) -> UploadField {
    UploadField { name: Some(name.to_string()), data: data.to_vec() }
}

#[test]
fn upload_then_get_round_trips() {
    let mut db = Database::new();
    let fields = vec![field("greeting", b"hello")];
    let r = handle_upload(&mut db, 5, &fields);
    let ok = r.unwrap();
    assert_eq!(ok.status, 201);
    assert_eq!(ok.body, "OK");
    let resp = handle_video(&db, Some("greeting".to_string())).unwrap();
    assert_eq!(resp.status, 200);
    assert_eq!(resp.content_type, "video/mp4");
    assert_eq!(resp.file_name, "lmao.mp4");
    assert_eq!(resp.body, b"hello".to_vec());
}

#[test]
fn get_on_empty_store_is_404() {
    let db = Database::new();
    let r = handle_video(&db, Some("ghost".to_string()));
    match r {
        Err(e) => {
            assert_eq!(e, HandlerError::NotFound);
            assert_eq!(e.status_code(), 404);
        }
        Ok(_) => panic!("expected a miss"),
    }
}

#[test]
fn missing_name_is_400() {
    let db = Database::new();
    let r = handle_video(&db, None);
    match r {
        Err(e) => {
            assert_eq!(e, HandlerError::BadRequest);
            assert_eq!(e.status_code(), 400);
        }
        Ok(_) => panic!("expected a client error"),
    }
}

#[test]
fn oversized_body_is_413_and_store_unchanged() {
    let mut db = Database::new();
    let big = vec![0u8; 5000];
    let fields = vec![field("big", &big)];
    let r = handle_upload(&mut db, 5000, &fields);
    match r {
        Err(e) => {
            assert_eq!(e, HandlerError::PayloadTooLarge);
            assert_eq!(e.status_code(), 413);
        }
        Ok(_) => panic!("expected the cap to reject"),
    }
    let after = handle_video(&db, Some("big".to_string()));
    assert!(matches!(after, Err(HandlerError::NotFound)));
}

#[test]
fn body_at_cap_is_accepted() {
    let mut db = Database::new();
    let data = vec![1u8; BODY_LIMIT];
    let fields = vec![field("edge", &data)];
    assert!(handle_upload(&mut db, BODY_LIMIT, &fields).is_ok());
    assert_eq!(db.get(&"edge".to_string()), Some(data));
}

#[test]
fn second_upload_shadows_first() {
    let mut db = Database::new();
    handle_upload(&mut db, 1, &vec![field("k", b"A")]).unwrap();
    handle_upload(&mut db, 1, &vec![field("k", b"B")]).unwrap();
    let resp = handle_video(&db, Some("k".to_string())).unwrap();
    assert_eq!(resp.body, b"B".to_vec());
}

#[test]
fn unnamed_field_is_rejected() {
    let mut db = Database::new();
    let fields = vec![UploadField { name: None, data: b"x".to_vec() }];
    let r = handle_upload(&mut db, 1, &fields);
    assert!(matches!(r, Err(HandlerError::BadRequest)));
}

#[test]
fn empty_field_name_is_rejected() {
    let mut db = Database::new();
    let fields = vec![field("", b"x")];
    let r = handle_upload(&mut db, 1, &fields);
    assert!(matches!(r, Err(HandlerError::BadRequest)));
}

#[test]
fn fields_before_a_bad_one_stay_published() {
    let mut db = Database::new();
    let fields = vec![
        field("first", b"1"),
        UploadField { name: None, data: b"x".to_vec() },
        field("late", b"3"),
    ];
    let r = handle_upload(&mut db, 5, &fields);
    assert!(matches!(r, Err(HandlerError::BadRequest)));
    assert_eq!(db.get(&"first".to_string()), Some(b"1".to_vec()));
    assert_eq!(db.get(&"late".to_string()), None);
}

#[test]
fn multiple_fields_publish_in_order() {
    let mut db = Database::new();
    let fields = vec![field("a", b"1"), field("b", b"2"), field("a", b"3")];
    handle_upload(&mut db, 6, &fields).unwrap();
    assert_eq!(db.get(&"a".to_string()), Some(b"3".to_vec()));
    assert_eq!(db.get(&"b".to_string()), Some(b"2".to_vec()));
}

#[test]
fn internal_error_is_500() {
    assert_eq!(HandlerError::Internal.status_code(), 500);
}

#[test]
fn routing_table() {
    let get = "GET".to_string();
    let post = "POST".to_string();
    let options = "OPTIONS".to_string();
    assert_eq!(route_request(&get, &"/".to_string()), Route::Frontend);
    assert_eq!(route_request(&get, &"/video".to_string()), Route::Video);
    assert_eq!(route_request(&post, &"/upload".to_string()), Route::Upload);
    assert_eq!(route_request(&options, &"/video".to_string()), Route::Preflight);
    assert_eq!(route_request(&options, &"/anything".to_string()), Route::Preflight);
    assert_eq!(route_request(&get, &"/upload".to_string()), Route::Unknown);
    assert_eq!(route_request(&post, &"/".to_string()), Route::Unknown);
}

#[test]
fn preflight_is_permissive() {
    let r = preflight_response();
    assert_eq!(r.status, 204);
    assert_eq!(r.allow_origin, "*");
    assert_eq!(r.allow_methods, "*");
    assert_eq!(r.allow_headers, "*");
}
