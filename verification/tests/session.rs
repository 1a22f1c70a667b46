use patrol::http::Status;
use patrol::models::{users, users_roles, Timestamp};
use patrol::session::{ep, new, session_middleware, SessionRejection, PATROL_HEADER};

fn user() -> users::Model {
    users::Model {
        username: "ada".to_string(),
        first_name: "Ada".to_string(),
        last_name: "Lovelace".to_string(),
        password_hash: "$argon2id$x".to_string(),
        password_hash_previous: None,
        password_changed_at: None,
        profile_picture: true,
        created_at: Timestamp { secs: 1_700_000_000, nanos: 5 },
        updated_at: Timestamp { secs: 1_700_000_001, nanos: 0 },
    }
}

#[test]
fn a_request_without_the_header_is_unauthorized() {
    let r = session_middleware(None).unwrap_err();
    assert_eq!(r, SessionRejection::Missing);
    assert_eq!(r.status().code(), 401);
    assert_eq!(r.message(), None);
    assert_eq!(PATROL_HEADER, "x-patrol");
}

#[test]
fn the_header_hands_on_its_json() {
    // {"username":"ada"}
    let header = "eyJ1c2VybmFtZSI6ImFkYSJ9";
    assert_eq!(session_middleware(Some(header)).unwrap(), b"{\"username\":\"ada\"}".to_vec());
}

#[test]
fn an_undecodable_header_is_an_internal_error() {
    let r = session_middleware(Some("not base64!")).unwrap_err();
    assert_eq!(r, SessionRejection::Undecodable);
    assert_eq!(r.status(), Status::InternalServerError);
}

#[test]
fn unparsable_json_is_unprocessable() {
    let r = SessionRejection::Unparsable;
    assert_eq!(r.status().code(), 422);
    assert_eq!(r.message(), Some("Failed to parse the X-Patrol header with user information"));
}

#[test]
fn the_endpoint_answers_with_the_user_and_role_titles() {
    let roles = vec![
        users_roles::Model { user_username: "ada".to_string(), role_title: "admin".to_string() },
        users_roles::Model { user_username: "ada".to_string(), role_title: "dev".to_string() },
    ];
    let s = ep::get(user(), &roles);
    assert_eq!(s.username, "ada");
    assert_eq!(s.first_name, "Ada");
    assert_eq!(s.last_name, "Lovelace");
    assert!(s.profile_picture);
    assert_eq!(s.roles, vec!["admin".to_string(), "dev".to_string()]);
    assert_eq!(s.created_at, Timestamp { secs: 1_700_000_000, nanos: 5 });
}

#[test]
fn an_unknown_session_is_unauthorized() {
    assert_eq!(ep::session_user(None), Err(Status::Unauthorized));
    assert_eq!(ep::session_user(Some(None)), Err(Status::Unauthorized));
    assert_eq!(ep::session_user(Some(Some(user()))), Ok(user()));
}

#[test]
fn a_new_session_row_names_its_user() {
    let row = new("id-1".to_string(), "ada".to_string());
    assert_eq!(row.id, "id-1");
    assert_eq!(row.user_username, "ada");
}
