use pihole_group_man::api::PiHoleV6Client;
use pihole_group_man::data::{AuthRequest, AuthResponse, ClientRequest, ClientResult, GroupsResponse};
use pihole_group_man::error::{DecodeFailure, PiHoleApiError};
use pihole_group_man::json::{parse_json, Json};
use pihole_group_man::request::{build_url, decimal_text, decode_response, resolve_response, Method};

const LOGIN_OK: &str = r#"{"session":{"valid":true,"totp":false,"sid":"test_session_id","csrf":"test_csrf_token","validity":1800,"message":"success"},"took":0.001}"#;

fn header<'a>(headers: &'a [(String, String)], name: &str) -> Option<&'a str> {
    headers.iter().find(|(k, _)| k == name).map(|(_, v)| v.as_str())
}

fn logged_in(body: &str) -> PiHoleV6Client {
    let mut client = PiHoleV6Client::new("127.0.0.1:1234");
    let reply = decode_response::<AuthResponse>(200, body);
    client.complete_login(reply).unwrap();
    client
}

#[test]
fn test_full_workflow() {
    let mut client = PiHoleV6Client::new("127.0.0.1:1234");
    let req = client.login("valid_password").unwrap();
    assert_eq!(req.method, Method::Post);
    assert_eq!(req.url, "http://127.0.0.1:1234/api/auth");
    assert_eq!(req.body.as_deref(), Some(r#"{"password":"valid_password"}"#));
    assert_eq!(header(&req.headers, "Content-Type"), Some("application/json"));
    assert_eq!(header(&req.headers, "X-FTL-SID"), None);

    client.complete_login(decode_response::<AuthResponse>(200, LOGIN_OK)).unwrap();
    let session = client.current_session();
    assert_eq!(session.sid.as_deref(), Some("test_session_id"));
    assert_eq!(session.csrf.as_deref(), Some("test_csrf_token"));

    let req = client.get_groups().unwrap();
    assert_eq!(req.method, Method::Get);
    assert_eq!(req.url, "http://127.0.0.1:1234/api/groups");
    assert_eq!(header(&req.headers, "X-FTL-SID"), Some("test_session_id"));
    assert_eq!(header(&req.headers, "X-FTL-CSRF"), Some("test_csrf_token"));
    assert!(req.body.is_none());
    let groups = decode_response::<GroupsResponse>(200, r#"{"groups":[],"took":0.001}"#).unwrap();
    assert!(groups.groups.is_empty());

    let req = client.logout().unwrap();
    assert_eq!(req.method, Method::Delete);
    assert_eq!(req.url, "http://127.0.0.1:1234/api/auth");
    let reply = decode_response::<()>(204, "");
    assert!(client.complete_logout(reply).is_ok());
    let session = client.current_session();
    assert!(session.sid.is_none() && session.csrf.is_none());
}

#[test]
fn test_authentication_failure() {
    let mut client = PiHoleV6Client::new("127.0.0.1:1234");
    let body = r#"{"error":{"key":"AUTH_ERROR","message":"Authentication failed","hint":"Check your password"},"took":0.001}"#;
    let result = client.complete_login(decode_response::<AuthResponse>(401, body));
    assert!(matches!(result, Err(PiHoleApiError::HttpApiError(_))));
    assert!(client.current_session().sid.is_none());
}

#[test]
fn test_protected_endpoint_without_auth() {
    let client = PiHoleV6Client::new("127.0.0.1:1234");
    let result = client.get_groups();
    assert!(matches!(result, Err(PiHoleApiError::AuthenticationRequired)));
}

#[test]
fn test_expired_session() {
    let body = r#"{"session":{"valid":true,"totp":false,"sid":"expired_session","csrf":"expired_csrf","validity":1,"message":"success"},"took":0.001}"#;
    let client = logged_in(body);
    let req = client.get_groups().unwrap();
    assert_eq!(header(&req.headers, "X-FTL-SID"), Some("expired_session"));
    assert_eq!(header(&req.headers, "X-FTL-CSRF"), Some("expired_csrf"));
    let reply = r#"{"error":{"key":"unauthorized","message":"Session expired","hint":"Re-authenticate"},"took":0.001}"#;
    let result = decode_response::<GroupsResponse>(401, reply);
    assert!(matches!(result, Err(PiHoleApiError::HttpApiError(_))));
}

#[test]
fn error_body_without_took_decodes_as_api_failure() {
    let body = r#"{"error":{"key":"unauthorized","message":"Session expired","hint":"Re-authenticate"}}"#;
    match decode_response::<GroupsResponse>(401, body) {
        Err(PiHoleApiError::HttpApiError(e)) => {
            assert_eq!(e.error.key, "unauthorized");
            assert_eq!(e.error.message, "Session expired");
            assert_eq!(e.error.hint.as_deref(), Some("Re-authenticate"));
        }
        other => panic!("unexpected: {:?}", other),
    }
}

#[test]
fn error_with_null_hint_decodes() {
    let body = r#"{"error":{"key":"unauthorized","message":"Unauthorized","hint":null},"took":0.001}"#;
    match decode_response::<GroupsResponse>(401, body) {
        Err(PiHoleApiError::HttpApiError(e)) => assert!(e.error.hint.is_none()),
        other => panic!("unexpected: {:?}", other),
    }
}

#[test]
fn every_authenticated_call_needs_a_session() {
    let client = PiHoleV6Client::new("pi.hole");
    assert!(matches!(client.logout(), Err(PiHoleApiError::AuthenticationRequired)));
    assert!(matches!(client.get_group("x"), Err(PiHoleApiError::AuthenticationRequired)));
    assert!(matches!(client.get_clients(), Err(PiHoleApiError::AuthenticationRequired)));
    assert!(matches!(client.get_client("17"), Err(PiHoleApiError::AuthenticationRequired)));
    assert!(matches!(
        client.update_client("17", String::from("c"), vec![1]),
        Err(PiHoleApiError::AuthenticationRequired)
    ));
    assert!(matches!(client.restart_dns(), Err(PiHoleApiError::AuthenticationRequired)));
}

#[test]
fn logout_clears_session_whatever_the_reply() {
    let mut client = logged_in(LOGIN_OK);
    let reply = decode_response::<()>(500, "not json at all");
    let result = client.complete_logout(reply);
    assert!(matches!(result, Err(PiHoleApiError::SerdeJsonBiError(_, _))));
    assert!(client.current_session().sid.is_none());
    assert!(client.current_session().csrf.is_none());
}

#[test]
fn request_urls_and_bodies() {
    let client = logged_in(LOGIN_OK);
    assert_eq!(client.get_group("Unresolved").unwrap().url, "http://127.0.0.1:1234/api/groups/Unresolved");
    assert_eq!(client.get_clients().unwrap().url, "http://127.0.0.1:1234/api/clients");
    assert_eq!(client.get_client("17").unwrap().url, "http://127.0.0.1:1234/api/clients/17");
    let restart = client.restart_dns().unwrap();
    assert_eq!(restart.url, "http://127.0.0.1:1234/api/action/restartdns");
    assert_eq!(restart.method, Method::Post);
    let upd = client.update_client("17", String::from("Fire TV cube"), vec![3, 42, 255]).unwrap();
    assert_eq!(upd.method, Method::Put);
    assert_eq!(upd.url, "http://127.0.0.1:1234/api/clients/17");
    assert_eq!(upd.body.as_deref(), Some(r#"{"comment":"Fire TV cube","groups":[3,42,255]}"#));
    assert_eq!(header(&upd.headers, "Content-Type"), Some("application/json"));
}

#[test]
fn url_trims_leading_slashes() {
    assert_eq!(build_url("pi.hole:8080", "/api/groups"), "http://pi.hole:8080/api/groups");
    assert_eq!(build_url("pi.hole", "//api"), "http://pi.hole/api");
    assert_eq!(build_url("pi.hole", ""), "http://pi.hole/");
}

#[test]
fn json_bodies_escape_text() {
    let req = AuthRequest { password: String::from("a\"b\\c") };
    assert_eq!(req.to_json(), r#"{"password":"a\"b\\c"}"#);
    let req = ClientRequest { comment: String::new(), groups: vec![] };
    assert_eq!(req.to_json(), r#"{"comment":"","groups":[]}"#);
    let req = AuthRequest { password: String::from("t\tn\nr\r\u{1}\u{1f}é") };
    assert_eq!(req.to_json(), "{\"password\":\"t\\tn\\nr\\r\\u0001\\u001fé\"}");
    let req = ClientRequest { comment: String::from("x"), groups: vec![0, 9, 10, 99, 100] };
    assert_eq!(req.to_json(), r#"{"comment":"x","groups":[0,9,10,99,100]}"#);
}

#[test]
fn decimal_text_of_small_numbers() {
    assert_eq!(decimal_text(0), "0");
    assert_eq!(decimal_text(7), "7");
    assert_eq!(decimal_text(17), "17");
    assert_eq!(decimal_text(200), "200");
    assert_eq!(decimal_text(255), "255");
}

#[test]
fn malformed_bodies() {
    let r = decode_response::<GroupsResponse>(200, "not json");
    assert!(matches!(
        r,
        Err(PiHoleApiError::SerdeJsonBiError(DecodeFailure::Syntax(_), DecodeFailure::Syntax(_)))
    ));
    match decode_response::<GroupsResponse>(200, r#"{"something":1}"#) {
        Err(PiHoleApiError::SerdeJsonBiError(
            DecodeFailure::Mismatch(outer),
            DecodeFailure::Mismatch(inner),
        )) => {
            assert_eq!(outer, "a GroupsResponse object");
            assert_eq!(inner, "a PiHoleError object");
        }
        other => panic!("unexpected: {:?}", other),
    }
    match decode_response::<GroupsResponse>(204, "") {
        Err(PiHoleApiError::SerdeJsonError(DecodeFailure::Mismatch(expected))) => {
            assert_eq!(expected, "a GroupsResponse object");
        }
        other => panic!("unexpected: {:?}", other),
    }
    let r = decode_response::<()>(200, "null");
    assert!(r.is_ok());
}

#[test]
fn group_fields_are_checked() {
    let ok = r#"{"groups":[{"name":"Unresolved","comment":null,"enabled":true,"id":42,"date_added":1,"date_modified":-2}],"took":0.5}"#;
    let g = decode_response::<GroupsResponse>(200, ok).unwrap();
    assert_eq!(g.groups.len(), 1);
    assert_eq!(g.groups[0].name, "Unresolved");
    assert_eq!(g.groups[0].id, 42);
    assert_eq!(g.groups[0].date_modified, -2);
    assert!(g.groups[0].comment.is_none());
    let too_big = r#"{"groups":[{"name":"x","enabled":true,"id":300,"date_added":1,"date_modified":2}]}"#;
    assert!(decode_response::<GroupsResponse>(200, too_big).is_err());
    let fraction = r#"{"groups":[{"name":"x","enabled":true,"id":4.5,"date_added":1,"date_modified":2}]}"#;
    assert!(decode_response::<GroupsResponse>(200, fraction).is_err());
}

#[test]
fn client_record_decodes() {
    let body = r#"{"client":"aa:bb","name":"tv","comment":"Fire TV cube","groups":[0,42],"id":17,"date_added":1,"date_modified":2,"processed":{"success":[{"item":"aa:bb"}],"errors":[]}}"#;
    let c = decode_response::<ClientResult>(200, body).unwrap();
    assert_eq!(c.comment, "Fire TV cube");
    assert_eq!(c.groups, vec![0, 42]);
    assert_eq!(c.id, 17);
    assert_eq!(c.processed.unwrap().success[0].item, "aa:bb");
}

#[test]
fn resolve_takes_parsed_documents() {
    let doc = Json::Object(vec![(String::from("status"), Json::Str(String::from("ok")))]);
    let r = resolve_response::<pihole_group_man::data::RestartDnsResponse>(200, Ok(doc));
    assert_eq!(r.unwrap().status, "ok");
    let parsed = parse_json("[1, 2");
    assert!(parsed.is_err());
    let r = resolve_response::<GroupsResponse>(200, parsed);
    assert!(matches!(r, Err(PiHoleApiError::SerdeJsonBiError(_, _))));
}

#[test]
fn parse_json_reads_numbers() {
    match parse_json(r#"{"a":-5,"b":0.25,"c":"t"}"#).unwrap() {
        Json::Object(entries) => {
            assert_eq!(entries.len(), 3);
            assert!(matches!(entries[0].1, Json::Number(Some(-5))));
            assert!(matches!(entries[1].1, Json::Number(None)));
        }
        other => panic!("unexpected: {:?}", other),
    }
}

#[test]
fn error_descriptions() {
    assert_eq!(
        PiHoleApiError::AuthenticationRequired.describe(),
        "Unauthorized: Authentication required."
    );
    let body = r#"{"error":{"key":"k","message":"m","hint":null}}"#;
    let e = decode_response::<GroupsResponse>(401, body).unwrap_err();
    assert_eq!(e.describe(), "PiHole API error: (key: k, message: m)");
    let e = decode_response::<GroupsResponse>(200, "{").unwrap_err();
    assert!(e.describe().starts_with("serde_json error: (outer: "));
}
