use open_lark::auth::{parse_token_response, token_request, Config};
use open_lark::decode::{decode, finish_call, status_of, ApiError, Payload, ResponseFormat};
use open_lark::json::{int_text, parse_json, to_json_text, Json};
use open_lark::request::{bearer, resolve_path, token_source, TokenSource, select_token_type, ApiRequest, CallAction, CallState, ConfigError};
use open_lark::token::{AccessTokenType, Acquire, AuthError, CachedToken, TokenStore};

fn obj_a1() -> Json {
    Json::Object(vec![("a".to_string(), Json::Int(1))])
}

fn json_eq(a: &Json, b: &Json) -> bool {
    format!("{:?}", a) == format!("{:?}", b)
}

#[test]
fn decode_data_shape_yields_data_member() {
    let r = decode(br#"{"code":0,"msg":"ok","data":{"a":1}}"#.to_vec(), ResponseFormat::Data);
    match r {
        Ok(Payload::Json(j)) => assert!(json_eq(&j, &obj_a1())),
        other => panic!("unexpected {:?}", other),
    }
}

#[test]
fn decode_flatten_shape_yields_top_level_members() {
    let r = decode(br#"{"code":0,"msg":"ok","a":1}"#.to_vec(), ResponseFormat::Flatten);
    match r {
        Ok(Payload::Json(j)) => assert!(json_eq(&j, &obj_a1())),
        other => panic!("unexpected {:?}", other),
    }
}

#[test]
fn decode_error_code_is_application_error_for_each_shape() {
    for f in [ResponseFormat::Data, ResponseFormat::Flatten, ResponseFormat::Binary] {
        match decode(br#"{"code":99,"msg":"bad"}"#.to_vec(), f) {
            Err(ApiError::Application { code, msg }) => {
                assert_eq!(code, 99);
                assert_eq!(msg, "bad");
            }
            other => panic!("unexpected {:?}", other),
        }
    }
}

#[test]
fn decode_missing_data_is_decode_error() {
    assert!(matches!(decode(br#"{"code":0,"msg":"ok"}"#.to_vec(), ResponseFormat::Data), Err(ApiError::Decode)));
    assert!(matches!(decode(b"not json".to_vec(), ResponseFormat::Flatten), Err(ApiError::Decode)));
    assert!(matches!(decode(br#"{"code":"0","msg":"ok"}"#.to_vec(), ResponseFormat::Flatten), Err(ApiError::Decode)));
}

#[test]
fn decode_binary_keeps_bytes() {
    let body = vec![0u8, 159, 146, 150];
    match decode(body.clone(), ResponseFormat::Binary) {
        Ok(Payload::Bytes(b)) => assert_eq!(b, body),
        other => panic!("unexpected {:?}", other),
    }
}

#[test]
fn status_reads_code() {
    assert_eq!(status_of(br#"{"code":99991663,"msg":"invalid"}"#), Some(99991663));
    assert_eq!(status_of(b"[1]"), None);
}

#[test]
fn json_round_trip_and_int_text() {
    let j = parse_json(br#"{"b":[true,null,"x"],"a":-5}"#).unwrap();
    assert_eq!(to_json_text(&j), r#"{"a":-5,"b":[true,null,"x"]}"#);
    assert_eq!(int_text(-1700000000), "-1700000000");
    assert_eq!(int_text(0), "0");
    let big = parse_json(b"[1.5,18446744073709551615]").unwrap();
    assert_eq!(to_json_text(&big), "[1.5,18446744073709551615]");
}

#[test]
fn select_token_type_prefers_first_allowed() {
    let s = vec![AccessTokenType::Tenant, AccessTokenType::User];
    assert_eq!(select_token_type(&s, None), Ok(AccessTokenType::Tenant));
    assert_eq!(select_token_type(&s, Some(AccessTokenType::User)), Ok(AccessTokenType::User));
    assert_eq!(select_token_type(&s, Some(AccessTokenType::App)), Err(ConfigError::NoUsableTokenType));
    assert_eq!(select_token_type(&vec![AccessTokenType::NoAuth], Some(AccessTokenType::App)), Ok(AccessTokenType::NoAuth));
    assert_eq!(select_token_type(&vec![], None), Err(ConfigError::NoUsableTokenType));
}

#[test]
fn auth_failure_retried_exactly_once() {
    let mut c = CallState::new(AccessTokenType::Tenant);
    assert_eq!(c.on_response(Some(99991663)), CallAction::RefreshAndRetry);
    assert_eq!(c.on_response(Some(99991663)), CallAction::Return);
    let mut d = CallState::new(AccessTokenType::Tenant);
    assert_eq!(d.on_response(Some(99991663)), CallAction::RefreshAndRetry);
    assert_eq!(d.on_response(Some(0)), CallAction::Return);
    let mut e = CallState::new(AccessTokenType::Tenant);
    assert_eq!(e.on_response(Some(1234)), CallAction::Return);
    let mut n = CallState::new(AccessTokenType::NoAuth);
    assert_eq!(n.on_response(Some(99991663)), CallAction::Return);
}

#[test]
fn bearer_header() {
    assert_eq!(bearer("t-1"), "Bearer t-1");
}

#[test]
fn single_flight_one_fetch_for_many_callers() {
    let mut s = TokenStore::new();
    let first = s.get_or_refresh(AccessTokenType::Tenant, 100);
    let g = match first {
        Acquire::Fetch(g) => g,
        other => panic!("unexpected {:?}", other),
    };
    for _ in 0..5 {
        assert!(matches!(s.get_or_refresh(AccessTokenType::Tenant, 100), Acquire::Wait(w) if w == g));
    }
    // another kind is not blocked
    assert!(matches!(s.get_or_refresh(AccessTokenType::App, 100), Acquire::Fetch(_)));
    assert!(s.collect(AccessTokenType::Tenant, g).is_none());
    let out = s.finish_refresh(AccessTokenType::Tenant, g, Ok(CachedToken { token: "t-1".to_string(), expire_at: 7300 }));
    assert_eq!(out.unwrap().token, "t-1");
    assert_eq!(s.collect(AccessTokenType::Tenant, g).unwrap().unwrap().token, "t-1");
    assert!(matches!(s.get_or_refresh(AccessTokenType::Tenant, 200), Acquire::Cached(t) if t == "t-1"));
}

#[test]
fn single_flight_failure_shared() {
    let mut s = TokenStore::new();
    let g = match s.get_or_refresh(AccessTokenType::App, 0) {
        Acquire::Fetch(g) => g,
        other => panic!("unexpected {:?}", other),
    };
    assert!(matches!(s.get_or_refresh(AccessTokenType::App, 0), Acquire::Wait(_)));
    s.finish_refresh(AccessTokenType::App, g, Err(AuthError::Network));
    assert!(matches!(s.collect(AccessTokenType::App, g), Some(Err(AuthError::Network))));
    assert!(matches!(s.get_or_refresh(AccessTokenType::App, 0), Acquire::Fetch(h) if h != g));
}

#[test]
fn expired_token_is_not_returned() {
    let mut s = TokenStore::new();
    let g = match s.get_or_refresh(AccessTokenType::Tenant, 0) {
        Acquire::Fetch(g) => g,
        _ => panic!(),
    };
    s.finish_refresh(AccessTokenType::Tenant, g, Ok(CachedToken { token: "old".to_string(), expire_at: 1000 }));
    assert!(matches!(s.get_or_refresh(AccessTokenType::Tenant, 819), Acquire::Cached(_)));
    assert!(matches!(s.get_or_refresh(AccessTokenType::Tenant, 820), Acquire::Fetch(_)));
    let mut t = TokenStore::new();
    t.invalidate(AccessTokenType::User);
    assert!(matches!(t.get_or_refresh(AccessTokenType::User, 5000), Acquire::Fetch(_)));
}

#[test]
fn token_response_parsing() {
    let r = parse_token_response(
        AccessTokenType::Tenant,
        br#"{"code":0,"msg":"ok","tenant_access_token":"t-abc","expire":7200}"#,
        1000,
    );
    let t = r.unwrap();
    assert_eq!(t.token, "t-abc");
    assert_eq!(t.expire_at, 8200);
    let u = parse_token_response(
        AccessTokenType::User,
        br#"{"code":0,"msg":"ok","data":{"access_token":"u-1","expires_in":6900}}"#,
        10,
    );
    assert_eq!(u.unwrap().expire_at, 6910);
    assert!(matches!(
        parse_token_response(AccessTokenType::App, br#"{"code":0,"msg":"ok","app_access_token":"a","expire":180}"#, 0),
        Err(AuthError::ExpiresTooSoon)
    ));
    assert!(matches!(
        parse_token_response(AccessTokenType::App, br#"{"code":10003,"msg":"bad app"}"#, 0),
        Err(AuthError::Rejected(10003))
    ));
    assert!(matches!(
        parse_token_response(AccessTokenType::App, br#"{"code":0,"msg":"ok"}"#, 0),
        Err(AuthError::Malformed)
    ));
}

#[test]
fn token_request_bodies() {
    let c = Config { app_id: "cli_1".to_string(), app_secret: "sec".to_string(), base_url: "https://open.feishu.cn".to_string() };
    let r = token_request(AccessTokenType::Tenant, &c, None).unwrap();
    assert_eq!(r.api_path, "/open-apis/auth/v3/tenant_access_token/internal");
    assert_eq!(String::from_utf8(r.body).unwrap(), r#"{"app_id":"cli_1","app_secret":"sec"}"#);
    assert!(matches!(token_request(AccessTokenType::User, &c, None), Err(AuthError::MissingCode)));
    let u = token_request(AccessTokenType::User, &c, Some("xyz".to_string())).unwrap();
    assert_eq!(String::from_utf8(u.body).unwrap(), r#"{"code":"xyz","grant_type":"authorization_code"}"#);
    let e = ApiRequest::new();
    assert!(e.query_params.is_empty());
}

#[test]
fn generation_counter_wraps() {
    let mut s = TokenStore::new();
    s.user.next_gen = u64::MAX;
    assert!(matches!(s.get_or_refresh(AccessTokenType::User, 0), Acquire::Fetch(g) if g == u64::MAX));
    assert_eq!(s.user.next_gen, 0);
    assert_eq!(int_text(i64::MIN), "-9223372036854775808");
}

#[test]
fn token_expiry_overflow_is_malformed() {
    let r = parse_token_response(
        AccessTokenType::App,
        br#"{"code":0,"msg":"ok","app_access_token":"a","expire":9223372036854775807}"#,
        10,
    );
    assert!(matches!(r, Err(AuthError::Malformed)));
}

#[test]
fn path_placeholders_resolved() {
    let p = vec![("chat_id".to_string(), "oc_1".to_string()), ("member".to_string(), "ou_2".to_string())];
    assert_eq!(resolve_path("/open-apis/im/v1/chats/:chat_id/members/:member", &p), "/open-apis/im/v1/chats/oc_1/members/ou_2");
    assert_eq!(resolve_path("/a/:missing/b", &p), "/a/:missing/b");
    assert_eq!(resolve_path("/open-apis/im/v1/chats", &p), "/open-apis/im/v1/chats");
    assert_eq!(resolve_path(":chat_id", &p), "oc_1");
    assert_eq!(resolve_path("", &p), "");
}

#[test]
fn repeated_auth_rejection_is_authentication_error() {
    let body = br#"{"code":99991663,"msg":"invalid tenant token"}"#.to_vec();
    let mut c = CallState::new(AccessTokenType::Tenant);
    assert_eq!(c.on_response(status_of(&body)), CallAction::RefreshAndRetry);
    assert_eq!(c.on_response(status_of(&body)), CallAction::Return);
    match finish_call(&c, body.clone(), ResponseFormat::Data) {
        Err(ApiError::Authentication { code, msg }) => {
            assert_eq!(code, 99991663);
            assert_eq!(msg, "invalid tenant token");
        }
        other => panic!("unexpected {:?}", other),
    }
    let fresh = CallState::new(AccessTokenType::NoAuth);
    assert!(matches!(finish_call(&fresh, body, ResponseFormat::Data), Err(ApiError::Application { code: 99991663, .. })));
    match finish_call(&c, br#"{"code":0,"msg":"ok","data":{"a":1}}"#.to_vec(), ResponseFormat::Data) {
        Ok(Payload::Json(j)) => assert!(json_eq(&j, &obj_a1())),
        other => panic!("unexpected {:?}", other),
    }
}

#[test]
fn token_source_per_kind() {
    assert!(matches!(token_source(AccessTokenType::NoAuth, Some("u".to_string())), TokenSource::Without));
    assert!(matches!(token_source(AccessTokenType::User, Some("u-9".to_string())), TokenSource::Given(t) if t == "u-9"));
    assert!(matches!(token_source(AccessTokenType::User, None), TokenSource::Store));
    assert!(matches!(token_source(AccessTokenType::Tenant, Some("u".to_string())), TokenSource::Store));
}
