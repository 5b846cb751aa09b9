use profile_core::api::{
    delete_success_response, find_pool_id, get_user_response, invalid_route_response, Operation,
    parse_update_request, prepare_update, route, str_contains, update_user_response, PoolSummary,
    ResponseBody,
};
use profile_core::attr::AttrMap;
use profile_core::codec::encode;
use profile_core::types::{ApiError, Mfa, Settings, UserProfile, Verification};

fn sample_profile() -> UserProfile {
    UserProfile {
        id: "user-1".to_string(),
        email: "a@b.c".to_string(),
        phone: Some("+15551234".to_string()),
        username: "ada".to_string(),
        settings: Settings {
            mfa: Mfa { enabled: false, method: "none".to_string() },
            theme: "light".to_string(),
            subscription: "FREE".to_string(),
        },
        verification: Verification {
            email: true,
            phone: false,
            terms: true,
            status: "CONFIRMED".to_string(),
        },
        updated: "t1".to_string(),
    }
}

#[test]
fn test_routing_table() {
    assert_eq!(route("GET", "/user/abc"), Operation::Get);
    assert_eq!(route("PUT", "/user/abc"), Operation::Update);
    assert_eq!(
        route("DELETE", "/user/abc/unsubscribe"),
        Operation::DeleteAndDeprovision
    );
    // every other combination is invalid
    assert_eq!(route("GET", "/user/abc/unsubscribe"), Operation::Invalid);
    assert_eq!(route("PUT", "/user/abc/unsubscribe"), Operation::Invalid);
    assert_eq!(route("DELETE", "/user/abc"), Operation::Invalid);
    assert_eq!(route("POST", "/user/abc"), Operation::Invalid);
    assert_eq!(route("PATCH", "/user/abc/unsubscribe"), Operation::Invalid);
    assert_eq!(route("get", "/user/abc"), Operation::Invalid);
}

#[test]
fn test_str_contains() {
    assert!(str_contains("/user/abc/unsubscribe", "/unsubscribe"));
    assert!(!str_contains("/user/unsub", "/unsubscribe"));
    assert!(str_contains("abc", ""));
    assert!(!str_contains("", "/unsubscribe"));
}

#[test]
fn test_invalid_route_response() {
    let r = invalid_route_response();
    assert_eq!(r.status, 400);
    assert_eq!(
        r.body,
        ResponseBody::Failure("Invalid request method or path".to_string())
    );
}

#[test]
fn test_get_user_found_and_missing() {
    let p = sample_profile();
    let m = encode(&p);
    let ok = get_user_response(Some(&m)).expect("a decodable record answers 200");
    assert_eq!(ok.status, 200);
    assert_eq!(ok.body, ResponseBody::Profile(p));

    let missing = get_user_response(None).expect("absence answers 404");
    assert_eq!(missing.status, 404);
    assert_eq!(missing.body, ResponseBody::Failure("User not found".to_string()));
}

#[test]
fn test_get_user_undecodable_record_is_an_error() {
    let garbage = AttrMap::new();
    let r = get_user_response(Some(&garbage));
    assert_eq!(r, Err(ApiError::InvalidInput("Missing id".to_string())));
}

#[test]
fn test_parse_update_request_valid() {
    let body = "{\"phone\": \"+15550000\", \"username\": \"ada\", \"settings\": {\"mfa\": {\"enabled\": true, \"method\": \"totp\"}, \"theme\": \"dark\", \"subscription\": \"PRO\"}, \"extra\": [1, 2]}";
    let u = parse_update_request(body).expect("a well-shaped payload parses");
    assert_eq!(u.phone, "+15550000");
    assert_eq!(u.username, "ada");
    assert_eq!(u.settings.mfa.enabled, true);
    assert_eq!(u.settings.mfa.method, "totp");
    assert_eq!(u.settings.theme, "dark");
    assert_eq!(u.settings.subscription, "PRO");
}

#[test]
fn test_parse_update_request_malformed_is_rejected_before_any_store_work() {
    // text that is not JSON
    let r = parse_update_request("{oops");
    assert_eq!(r, Err(ApiError::InvalidInput("Invalid JSON".to_string())));
    // JSON of the wrong shape: a required field is missing
    let r2 = parse_update_request("{\"phone\": \"1\", \"username\": \"a\"}");
    assert_eq!(r2, Err(ApiError::InvalidInput("Invalid JSON".to_string())));
    // JSON of the wrong shape: a field has the wrong type
    let r3 = parse_update_request(
        "{\"phone\": \"1\", \"username\": \"a\", \"settings\": {\"mfa\": {\"enabled\": \"yes\", \"method\": \"m\"}, \"theme\": \"t\", \"subscription\": \"s\"}}",
    );
    assert_eq!(r3, Err(ApiError::InvalidInput("Invalid JSON".to_string())));
}

#[test]
fn test_prepare_update_touches_exactly_four_fields() {
    let body = "{\"phone\": \"+15550000\", \"username\": \"ada\", \"settings\": {\"mfa\": {\"enabled\": false, \"method\": \"none\"}, \"theme\": \"light\", \"subscription\": \"FREE\"}}";
    let u = parse_update_request(body).unwrap();
    let fields = prepare_update(&u, "t2");
    match fields.phone {
        profile_core::attr::AttrVal::S(s) => assert_eq!(s, "+15550000"),
        _ => panic!("phone must be a string attribute"),
    }
    match fields.username {
        profile_core::attr::AttrVal::S(s) => assert_eq!(s, "ada"),
        _ => panic!("username must be a string attribute"),
    }
    let sm = fields.settings.as_m().expect("settings must be a map attribute");
    assert_eq!(sm.get_s("theme"), Some(&"light".to_string()));
    match fields.updated {
        profile_core::attr::AttrVal::S(s) => assert_eq!(s, "t2"),
        _ => panic!("updated must be a string attribute"),
    }
}

#[test]
fn test_update_user_response() {
    let p = sample_profile();
    let m = encode(&p);
    let ok = update_user_response(Some(&m)).expect("a decodable record answers 200");
    assert_eq!(ok.status, 200);
    assert_eq!(ok.body, ResponseBody::Profile(p));

    let no_match = update_user_response(None).expect("no matching record answers 400");
    assert_eq!(no_match.status, 400);
    assert_eq!(
        no_match.body,
        ResponseBody::Failure("Failed to update user".to_string())
    );
}

#[test]
fn test_find_pool_id() {
    let pools = vec![
        PoolSummary { id: Some("p-0".to_string()), name: Some("other".to_string()) },
        PoolSummary { id: None, name: None },
        PoolSummary { id: Some("p-1".to_string()), name: Some("main".to_string()) },
        PoolSummary { id: Some("p-2".to_string()), name: Some("main".to_string()) },
    ];
    // the first pool carrying the configured name wins
    assert_eq!(find_pool_id(&pools, "main"), Some("p-1".to_string()));
    assert_eq!(find_pool_id(&pools, "absent"), None);
    // a matching pool without an id yields no deletion target
    let anonymous = vec![PoolSummary { id: None, name: Some("main".to_string()) }];
    assert_eq!(find_pool_id(&anonymous, "main"), None);
}

#[test]
fn test_delete_success_response() {
    let r = delete_success_response();
    assert_eq!(r.status, 200);
    assert_eq!(r.body, ResponseBody::Success);
}
