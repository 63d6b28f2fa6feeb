use user_api::handlers::create_user;
use user_api::handlers::delete_user;
use user_api::handlers::fresh_create_record;
use user_api::handlers::get_user;
use user_api::handlers::plan_delete;
use user_api::handlers::plan_get;
use user_api::handlers::plan_update;
use user_api::handlers::render_delete;
use user_api::handlers::render_fetch;
use user_api::handlers::render_replace;
use user_api::handlers::replacement_record;
use user_api::handlers::update_user;
use user_api::handlers::Reply;
use user_api::handlers::ReplyBody;
use user_api::handlers::ReplaceStep;
use user_api::oid::is_valid_object_id;
use user_api::oid::oid_string;
use user_api::store::DeleteResult;
use user_api::store::FetchOutcome;
use user_api::store::UpdateResult;
use user_api::store::UserStore;
use user_api::user::User;

fn mk_user(name: &str, location: &str, title: &str) -> User {
    User {
        id: None,
        name: name.to_string(),
        location: location.to_string(),
        title: title.to_string(),
    }
}

fn reply_user(r: &Reply) -> &User {
    match &r.body {
        ReplyBody::UserJson(u) => u,
        _ => panic!("expected a user body"),
    }
}

fn reply_text(r: &Reply) -> &str {
    match &r.body {
        ReplyBody::Text(s) => s.as_str(),
        _ => panic!("expected a text body"),
    }
}

fn reply_json_text(r: &Reply) -> &str {
    match &r.body {
        ReplyBody::JsonText(s) => s.as_str(),
        _ => panic!("expected a JSON string body"),
    }
}

#[test]
fn create_returns_fields_and_generated_id() {
    let mut store = UserStore::new();
    let body = mk_user("Ann", "NYC", "Eng");
    let r = create_user(&mut store, &body);
    assert_eq!(r.status, 200);
    let u = reply_user(&r);
    let id = u.id.as_ref().expect("a created user carries an identifier");
    assert!(!id.is_empty());
    assert!(is_valid_object_id(id));
    assert_eq!(u.name, "Ann");
    assert_eq!(u.location, "NYC");
    assert_eq!(u.title, "Eng");
}

#[test]
fn created_ids_are_distinct() {
    let mut store = UserStore::new();
    let r1 = create_user(&mut store, &mk_user("a", "b", "c"));
    let r2 = create_user(&mut store, &mk_user("a", "b", "c"));
    let id1 = reply_user(&r1).id.clone().unwrap();
    let id2 = reply_user(&r2).id.clone().unwrap();
    assert_ne!(id1, id2);
}

#[test]
fn create_then_get_returns_same_record() {
    let mut store = UserStore::new();
    let r = create_user(&mut store, &mk_user("Ann", "NYC", "Eng"));
    let created = reply_user(&r);
    let id = created.id.clone().unwrap();
    let g = get_user(&store, &id);
    assert_eq!(g.status, 200);
    let fetched = reply_user(&g);
    assert_eq!(fetched.id, created.id);
    assert_eq!(fetched.name, created.name);
    assert_eq!(fetched.location, created.location);
    assert_eq!(fetched.title, created.title);
}

#[test]
fn empty_id_returns_400_without_store_call() {
    let mut store = UserStore::new();
    let empty = String::new();

    let g = get_user(&store, &empty);
    assert_eq!(g.status, 400);
    assert_eq!(reply_text(&g), "Invalid User ID");

    let u = update_user(&mut store, &empty, &mk_user("x", "y", "z"));
    assert_eq!(u.status, 400);
    assert_eq!(reply_text(&u), "Invalid Id");

    let d = delete_user(&mut store, &empty);
    assert_eq!(d.status, 400);
    assert_eq!(reply_text(&d), "invalid ID");
}

#[test]
fn plan_steps_reject_empty_id_immediately() {
    let empty = String::new();
    assert!(matches!(plan_get(&empty), Some(r) if r.status == 400));
    assert!(matches!(plan_update(&empty), Some(r) if r.status == 400));
    assert!(matches!(plan_delete(&empty), Some(r) if r.status == 400));
    let ok = "0123456789abcdef01234567".to_string();
    assert!(plan_get(&ok).is_none());
    assert!(plan_update(&ok).is_none());
    assert!(plan_delete(&ok).is_none());
}

#[test]
fn update_missing_id_returns_404() {
    let mut store = UserStore::new();
    let id = "0123456789abcdef01234567".to_string();
    let r = update_user(&mut store, &id, &mk_user("x", "y", "z"));
    assert_eq!(r.status, 404);
    assert_eq!(reply_text(&r), "no user found with specified ID");
}

#[test]
fn delete_missing_id_returns_404() {
    let mut store = UserStore::new();
    let id = "0123456789abcdef01234567".to_string();
    let r = delete_user(&mut store, &id);
    assert_eq!(r.status, 404);
    assert_eq!(reply_json_text(&r), "User with specified ID not found!");
}

#[test]
fn update_then_get_returns_new_values_same_id() {
    let mut store = UserStore::new();
    let r = create_user(&mut store, &mk_user("Ann", "NYC", "Eng"));
    let id = reply_user(&r).id.clone().unwrap();

    let up = update_user(&mut store, &id, &mk_user("Ann", "SF", "Mgr"));
    assert_eq!(up.status, 200);
    let refreshed = reply_user(&up);
    assert_eq!(refreshed.id.as_deref(), Some(id.as_str()));
    assert_eq!(refreshed.location, "SF");

    let g = get_user(&store, &id);
    assert_eq!(g.status, 200);
    let fetched = reply_user(&g);
    assert_eq!(fetched.id.as_deref(), Some(id.as_str()));
    assert_eq!(fetched.name, "Ann");
    assert_eq!(fetched.location, "SF");
    assert_eq!(fetched.title, "Mgr");
}

#[test]
fn delete_then_get_yields_not_found_as_500() {
    let mut store = UserStore::new();
    let r = create_user(&mut store, &mk_user("Ann", "NYC", "Eng"));
    let id = reply_user(&r).id.clone().unwrap();

    let d = delete_user(&mut store, &id);
    assert_eq!(d.status, 200);

    let g = get_user(&store, &id);
    assert_eq!(g.status, 500);
    assert_eq!(reply_text(&g), "user not found");
}

#[test]
fn full_scenario() {
    let mut store = UserStore::new();

    let created = create_user(&mut store, &mk_user("Ann", "NYC", "Eng"));
    assert_eq!(created.status, 200);
    let id = reply_user(&created).id.clone().unwrap();
    assert!(!id.is_empty());

    let fetched = get_user(&store, &id);
    assert_eq!(fetched.status, 200);
    let f = reply_user(&fetched);
    assert_eq!(f.name, "Ann");
    assert_eq!(f.location, "NYC");
    assert_eq!(f.title, "Eng");

    let updated = update_user(&mut store, &id, &mk_user("Ann", "SF", "Eng"));
    assert_eq!(updated.status, 200);
    assert_eq!(reply_user(&updated).location, "SF");

    let deleted = delete_user(&mut store, &id);
    assert_eq!(deleted.status, 200);
    assert_eq!(reply_json_text(&deleted), "user succesfully deleted!");

    let again = delete_user(&mut store, &id);
    assert_eq!(again.status, 404);
    assert_eq!(reply_json_text(&again), "User with specified ID not found!");
}

#[test]
fn get_malformed_id_returns_500() {
    let store = UserStore::new();
    let id = "not-a-hex-identifier".to_string();
    let r = get_user(&store, &id);
    assert_eq!(r.status, 500);
    assert_eq!(reply_text(&r), "malformed user ID");
}

#[test]
fn update_malformed_id_returns_400() {
    let mut store = UserStore::new();
    let id = "not-a-hex-identifier".to_string();
    let r = update_user(&mut store, &id, &mk_user("x", "y", "z"));
    assert_eq!(r.status, 400);
    assert_eq!(reply_text(&r), "Invalid Id");
}

#[test]
fn render_fetch_maps_outcomes() {
    let found = render_fetch(FetchOutcome::Found(mk_user("a", "b", "c")));
    assert_eq!(found.status, 200);
    let nf = render_fetch(FetchOutcome::NotFound);
    assert_eq!(nf.status, 500);
    assert_eq!(reply_text(&nf), "user not found");
    let bad = render_fetch(FetchOutcome::InvalidId);
    assert_eq!(bad.status, 500);
    assert_eq!(reply_text(&bad), "malformed user ID");
    let err = render_fetch(FetchOutcome::Error("connection reset".to_string()));
    assert_eq!(err.status, 500);
    assert_eq!(reply_text(&err), "connection reset");
}

#[test]
fn render_replace_maps_outcomes() {
    let refetch = render_replace(Ok(UpdateResult { matched_count: 1, modified_count: 1 }));
    assert!(matches!(refetch, ReplaceStep::Refetch));
    let missing = render_replace(Ok(UpdateResult { matched_count: 0, modified_count: 0 }));
    match missing {
        ReplaceStep::Respond(r) => {
            assert_eq!(r.status, 404);
            assert_eq!(reply_text(&r), "no user found with specified ID");
        }
        ReplaceStep::Refetch => panic!("zero matches must answer 404"),
    }
    let err = render_replace(Err("write concern failed".to_string()));
    match err {
        ReplaceStep::Respond(r) => {
            assert_eq!(r.status, 500);
            assert_eq!(reply_text(&r), "write concern failed");
        }
        ReplaceStep::Refetch => panic!("a failure must answer 500"),
    }
}

#[test]
fn render_delete_maps_outcomes() {
    let ok = render_delete(Ok(DeleteResult { deleted_count: 1 }));
    assert_eq!(ok.status, 200);
    assert_eq!(reply_json_text(&ok), "user succesfully deleted!");
    let missing = render_delete(Ok(DeleteResult { deleted_count: 0 }));
    assert_eq!(missing.status, 404);
    let err = render_delete(Err("no primary".to_string()));
    assert_eq!(err.status, 500);
    assert_eq!(reply_text(&err), "no primary");
}

#[test]
fn record_builders_handle_identifiers() {
    let mut body = mk_user("Ann", "NYC", "Eng");
    body.id = Some("ffffffffffffffffffffffff".to_string());
    let fresh = fresh_create_record(&body);
    assert!(fresh.id.is_none());
    assert_eq!(fresh.name, "Ann");

    let path_id = "0123456789abcdef01234567".to_string();
    let replacement = replacement_record(&path_id, &body);
    assert_eq!(replacement.id.as_deref(), Some(path_id.as_str()));
    assert_eq!(replacement.location, "NYC");
}

#[test]
fn object_id_validation() {
    assert!(is_valid_object_id("0123456789abcdef01234567"));
    assert!(is_valid_object_id("0123456789ABCDEF01234567"));
    assert!(!is_valid_object_id(""));
    assert!(!is_valid_object_id("0123456789abcdef0123456"));
    assert!(!is_valid_object_id("0123456789abcdef012345678"));
    assert!(!is_valid_object_id("0123456789abcdef0123456g"));
    assert!(!is_valid_object_id("0123456789abcdef0123456-"));
}

#[test]
fn oid_string_renders_counter_in_hex() {
    assert_eq!(oid_string(0), "000000000000000000000000");
    assert_eq!(oid_string(1), "000000000000000000000001");
    assert_eq!(oid_string(0xdeadbeef), "0000000000000000deadbeef");
    assert_eq!(oid_string(u64::MAX), "00000000ffffffffffffffff");
}
