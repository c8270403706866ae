//! Tests of the bearer credential and the gated sub-APIs.

use osapi::{
    AuthenticatedClient, CallRequest, Client, CreateParserRequest, Method, RequestBody,
    UpdateCallsRequest, UpdateGroupsRequest,
};

const BASE: &str = "https://api.example.com";

#[test]
fn no_token_means_no_authorization_header() {
    let auth_client = AuthenticatedClient::new(Client::new(BASE));
    assert!(auth_client.auth.authorization_header().is_none());
    let request = auth_client.admin().delete_parser_request(1);
    assert!(request.bearer_token.is_none());
}

#[test]
fn a_token_is_attached_as_a_bearer_header() {
    let auth_client = AuthenticatedClient::new(Client::new(BASE)).with_token("secret-token");
    assert_eq!(
        auth_client.auth.authorization_header().as_deref(),
        Some("Bearer secret-token")
    );
    let request = auth_client.admin().delete_parser_request(1);
    assert_eq!(request.bearer_token.as_deref(), Some("secret-token"));
}

#[test]
fn clearing_the_token_removes_the_header() {
    let auth = osapi::Auth::new(Some("abc".to_string())).clear_token();
    assert!(auth.authorization_header().is_none());
}

#[test]
fn later_tokens_replace_earlier_ones() {
    let auth = osapi::Auth::new(None).with_token("first").with_token("second");
    assert_eq!(auth.authorization_header().as_deref(), Some("Bearer second"));
}

#[test]
fn admin_requests_name_the_admin_paths() {
    let auth_client = AuthenticatedClient::new(Client::new(BASE)).with_token("t");
    let admin = auth_client.admin();

    let create = admin.create_parser_request(CreateParserRequest {
        college_name: "TKPST".to_string(),
        campus_names: vec!["Lunacharskogo".to_string(), "Samartseva".to_string()],
    });
    assert_eq!(create.method, Method::Post);
    assert_eq!(create.path, "/admin/parser");
    assert_eq!(create.bearer_token.as_deref(), Some("t"));
    match create.body {
        Some(RequestBody::CreateParser(body)) => assert_eq!(body.college_name, "TKPST"),
        _ => panic!("expected the create-parser body"),
    }

    let delete = admin.delete_parser_request(123);
    assert_eq!(delete.method, Method::Delete);
    assert_eq!(delete.path, "/admin/parser/123");
    assert!(delete.body.is_none());
}

#[test]
fn parser_requests_name_the_parser_paths() {
    let auth_client = AuthenticatedClient::new(Client::new(BASE)).with_token("t");
    let parser = auth_client.parser();

    let groups = parser.update_groups_request(UpdateGroupsRequest {
        campus_id: 1,
        student_group_names: vec!["Group A".to_string()],
    });
    assert_eq!(groups.method, Method::Post);
    assert_eq!(groups.path, "/parser/groups");
    assert_eq!(groups.bearer_token.as_deref(), Some("t"));

    let calls = parser.update_calls_request(UpdateCallsRequest {
        calls: vec![CallRequest {
            weekday: 1,
            begins: "09:00:00".to_string(),
            ends: "10:30:00".to_string(),
            order: 1,
        }],
    });
    assert_eq!(calls.path, "/parser/calls");
    match calls.body {
        Some(RequestBody::UpdateCalls(body)) => assert_eq!(body.calls[0].begins, "09:00:00"),
        _ => panic!("expected the update-calls body"),
    }
}
