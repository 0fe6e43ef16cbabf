use knife::github::{
    classify_deletion, names_from_document, owner_from_document, status_is_success, ClientError,
    DeleteOutcome, Method, Reply, RepositoryClient, Request, Response, NO_CONTENT,
};
use knife::json::{parse, Json};
use knife::list::Status;

fn answer(status: u16, body: &str) -> Reply {
    Reply::Response(Response { status, body: body.to_string() })
}

fn header<'a>(request: &'a Request, name: &str) -> Option<&'a str> {
    request.headers.iter().find(|(n, _)| n == name).map(|(_, v)| v.as_str())
}

#[test]
fn success_is_two_hundred_to_two_ninety_nine() {
    assert!(!status_is_success(199));
    assert!(status_is_success(200));
    assert!(status_is_success(204));
    assert!(status_is_success(299));
    assert!(!status_is_success(300));
    assert!(!status_is_success(404));
    assert!(!status_is_success(0));
    assert!(!status_is_success(u16::MAX));
}

#[test]
fn only_no_content_confirms_a_deletion() {
    assert_eq!(NO_CONTENT, 204);
    assert_eq!(classify_deletion(204), DeleteOutcome::Success);
    assert_eq!(classify_deletion(200), DeleteOutcome::Other);
    assert_eq!(classify_deletion(202), DeleteOutcome::Other);
    assert_eq!(classify_deletion(301), DeleteOutcome::Other);
    assert_eq!(classify_deletion(399), DeleteOutcome::Other);
    assert_eq!(classify_deletion(400), DeleteOutcome::ClientRejected);
    assert_eq!(classify_deletion(403), DeleteOutcome::ClientRejected);
    assert_eq!(classify_deletion(404), DeleteOutcome::ClientRejected);
    assert_eq!(classify_deletion(499), DeleteOutcome::ClientRejected);
    assert_eq!(classify_deletion(500), DeleteOutcome::Other);
    assert_eq!(classify_deletion(503), DeleteOutcome::Other);
}

#[test]
fn every_request_carries_the_four_header_fields() {
    let client = RepositoryClient::new("ghp_test123");
    let request = client.build_request(Method::Get, "https://example.org/x");
    assert_eq!(request.method, Method::Get);
    assert_eq!(request.url, "https://example.org/x");
    let expected = vec![
        ("Accept".to_string(), "application/vnd.github+json".to_string()),
        ("Authorization".to_string(), "Bearer ghp_test123".to_string()),
        ("X-GitHub-Api-Version".to_string(), "2022-11-28".to_string()),
        ("User-Agent".to_string(), "knife".to_string()),
    ];
    assert_eq!(request.headers, expected);
}

#[test]
fn an_empty_token_still_makes_a_bearer_field() {
    let client = RepositoryClient::new("");
    let request = client.owner_request();
    assert_eq!(header(&request, "Authorization"), Some("Bearer "));
}

#[test]
fn the_owner_is_asked_for_at_the_user_address() {
    let request = RepositoryClient::new("t").owner_request();
    assert_eq!(request.method, Method::Get);
    assert_eq!(request.url, "https://api.github.com/user");
    assert_eq!(header(&request, "Authorization"), Some("Bearer t"));
    assert_eq!(header(&request, "User-Agent"), Some("knife"));
}

#[test]
fn the_repositories_are_asked_for_by_owner() {
    let request = RepositoryClient::new("t").repos_request("alice");
    assert_eq!(request.method, Method::Get);
    assert_eq!(request.url, "https://api.github.com/users/alice/repos");
    assert_eq!(request.headers.len(), 4);
}

#[test]
fn a_deletion_names_owner_and_repository() {
    let request = RepositoryClient::new("t").delete_request("alice", "r1");
    assert_eq!(request.method, Method::Delete);
    assert_eq!(request.url, "https://api.github.com/repos/alice/r1");
    assert_eq!(header(&request, "Accept"), Some("application/vnd.github+json"));
    assert_eq!(header(&request, "X-GitHub-Api-Version"), Some("2022-11-28"));
}

#[test]
fn owner_from_document_reads_the_login() {
    let document = parse(r#"{"id": 1, "login": "alice", "name": "Alice A."}"#).expect("a document");
    assert_eq!(owner_from_document(&document), Some("alice".to_string()));
}

#[test]
fn owner_from_document_wants_a_text_under_login() {
    let number = parse(r#"{"login": 5}"#).expect("a document");
    assert_eq!(owner_from_document(&number), None);
    let missing = parse(r#"{"name": "alice"}"#).expect("a document");
    assert_eq!(owner_from_document(&missing), None);
    let array = parse(r#"[{"login": "alice"}]"#).expect("a document");
    assert_eq!(owner_from_document(&array), None);
    assert_eq!(owner_from_document(&Json::Null), None);
    let built = Json::Object(vec![("login".to_string(), Json::Text("bob".to_string()))]);
    assert_eq!(owner_from_document(&built), Some("bob".to_string()));
}

#[test]
fn names_from_document_reads_the_names_in_order() {
    let document = parse(r#"[{"name": "r1", "id": 1}, {"name": "r2"}, {"name": "a"}]"#)
        .expect("a document");
    assert_eq!(
        names_from_document(&document),
        Some(vec!["r1".to_string(), "r2".to_string(), "a".to_string()])
    );
}

#[test]
fn names_from_document_passes_over_entries_without_a_name() {
    let document = parse(r#"[{"name": "r1"}, {"id": 2}, 7, {"name": null}, "r5", {"name": "r2"}]"#)
        .expect("a document");
    assert_eq!(names_from_document(&document), Some(vec!["r1".to_string(), "r2".to_string()]));
}

#[test]
fn names_from_document_wants_an_array() {
    let object = parse(r#"{"name": "r1"}"#).expect("a document");
    assert_eq!(names_from_document(&object), None);
    assert_eq!(names_from_document(&Json::Text("r1".to_string())), None);
    let empty = parse("[]").expect("a document");
    assert_eq!(names_from_document(&empty), Some(Vec::new()));
}

#[test]
fn get_owner_reads_a_good_answer() {
    let reply = answer(200, r#"{"login": "alice"}"#);
    assert_eq!(RepositoryClient::get_owner(&reply), Ok("alice".to_string()));
}

#[test]
fn get_owner_fails_on_a_refusal() {
    let reply = answer(401, r#"{"login": "alice"}"#);
    assert_eq!(RepositoryClient::get_owner(&reply), Err(ClientError::Auth));
    let reply = answer(500, r#"{"login": "alice"}"#);
    assert_eq!(RepositoryClient::get_owner(&reply), Err(ClientError::Auth));
    let reply = answer(302, r#"{"login": "alice"}"#);
    assert_eq!(RepositoryClient::get_owner(&reply), Err(ClientError::Auth));
}

#[test]
fn get_owner_fails_on_a_malformed_answer() {
    assert_eq!(RepositoryClient::get_owner(&answer(200, "")), Err(ClientError::Auth));
    assert_eq!(RepositoryClient::get_owner(&answer(200, "<html>")), Err(ClientError::Auth));
    assert_eq!(RepositoryClient::get_owner(&answer(200, "{}")), Err(ClientError::Auth));
    assert_eq!(
        RepositoryClient::get_owner(&answer(200, r#"{"login": ["alice"]}"#)),
        Err(ClientError::Auth)
    );
}

#[test]
fn get_owner_reports_a_missing_answer_as_transport() {
    assert_eq!(RepositoryClient::get_owner(&Reply::Failed), Err(ClientError::Transport));
}

#[test]
fn get_repos_builds_the_list() {
    let reply = answer(200, r#"[{"name": "r1"}, {"name": "r2"}]"#);
    let content = RepositoryClient::get_repos(&reply, "alice", Status::Selected).expect("a list");
    assert_eq!(content.owner(), "alice");
    assert_eq!(content.len(), 2);
    assert_eq!(content.repos()[0].name, "r1");
    assert_eq!(content.repos()[1].name, "r2");
    assert_eq!(content.repos()[0].status, Status::Selected);
    assert_eq!(content.repos()[1].status, Status::Selected);
    assert_eq!(content.cursor(), None);
    let content = RepositoryClient::get_repos(&reply, "alice", Status::Unselected).expect("a list");
    assert_eq!(content.repos()[0].status, Status::Unselected);
    assert_eq!(content.selected_names(), Vec::<String>::new());
}

#[test]
fn get_repos_accepts_an_empty_listing() {
    let content = RepositoryClient::get_repos(&answer(200, "[]"), "alice", Status::Selected)
        .expect("a list");
    assert_eq!(content.len(), 0);
    assert_eq!(content.owner(), "alice");
}

#[test]
fn get_repos_fails_on_a_refusal_or_a_wrong_shape() {
    let refused = answer(404, r#"[{"name": "r1"}]"#);
    assert!(matches!(
        RepositoryClient::get_repos(&refused, "alice", Status::Selected),
        Err(ClientError::Fetch)
    ));
    let object = answer(200, r#"{"message": "Not Found"}"#);
    assert!(matches!(
        RepositoryClient::get_repos(&object, "alice", Status::Selected),
        Err(ClientError::Fetch)
    ));
    let broken = answer(200, r#"[{"name": "r1"}"#);
    assert!(matches!(
        RepositoryClient::get_repos(&broken, "alice", Status::Selected),
        Err(ClientError::Fetch)
    ));
    assert!(matches!(
        RepositoryClient::get_repos(&Reply::Failed, "alice", Status::Selected),
        Err(ClientError::Transport)
    ));
}

#[test]
fn delete_repo_classifies_the_answer() {
    assert_eq!(RepositoryClient::delete_repo(&answer(204, "")), Ok(DeleteOutcome::Success));
    assert_eq!(
        RepositoryClient::delete_repo(&answer(403, r#"{"message": "Must have admin rights"}"#)),
        Ok(DeleteOutcome::ClientRejected)
    );
    assert_eq!(RepositoryClient::delete_repo(&answer(404, "")), Ok(DeleteOutcome::ClientRejected));
    assert_eq!(RepositoryClient::delete_repo(&answer(500, "")), Ok(DeleteOutcome::Other));
    assert_eq!(RepositoryClient::delete_repo(&answer(200, "")), Ok(DeleteOutcome::Other));
    assert_eq!(RepositoryClient::delete_repo(&Reply::Failed), Err(ClientError::Transport));
}
