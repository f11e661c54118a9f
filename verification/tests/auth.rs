use backend::api::auth::{
    advance, advance_hashed, login, logout, register, AuthAction, AuthState, LoginRequest,
    RegisterRequest, StoreReply, UserResponse,
};
use backend::api::error::ApiError;
use backend::models::{CreateUser, NewUser, PasswordError, User};
use backend::session::{SessionContext, SessionEntry};

fn request(email: &str, password: &str) -> RegisterRequest {
    RegisterRequest {
        email: email.to_string(),
        password: password.to_string(),
        name: Some("Alice".to_string()),
    }
}

fn user(id: &str, email: &str, password: &str) -> User {
    let row = User::create(CreateUser {
        email: email.to_string(),
        password: password.to_string(),
        name: Some("Alice".to_string()),
    })
    .unwrap();
    User {
        id: id.to_string(),
        email: row.email,
        name: row.name,
        avatar_url: Some("https://example.com/a.png".to_string()),
        password_hash: row.password_hash,
        created_at: 1,
        updated_at: 2,
    }
}

fn face(user: &User) -> UserResponse {
    UserResponse {
        id: user.id.clone(),
        email: user.email.clone(),
        name: user.name.clone(),
        avatar_url: user.avatar_url.clone(),
    }
}

#[test]
fn public_face_leaves_the_hash_out() {
    let alice = user("u-1", "alice@example.com", "pw123");
    let response = UserResponse::from(alice.clone());
    assert_eq!(
        response,
        UserResponse {
            id: "u-1".to_string(),
            email: "alice@example.com".to_string(),
            name: Some("Alice".to_string()),
            avatar_url: Some("https://example.com/a.png".to_string()),
        }
    );
    let shown = format!("{:?}", response);
    assert!(!shown.contains(&alice.password_hash));
}

#[test]
fn register_begins_with_a_lookup() {
    let step = register(request("alice@example.com", "pw123"));
    assert_eq!(step.action, AuthAction::FindByEmail("alice@example.com".to_string()));
    match step.state {
        AuthState::RegisterLookup(create_user) => {
            assert_eq!(create_user.email, "alice@example.com");
            assert_eq!(create_user.password, "pw123");
            assert_eq!(create_user.name, Some("Alice".to_string()));
        }
        other => panic!("unexpected state {:?}", other),
    }
}

#[test]
fn register_with_a_taken_email_is_refused() {
    let mut session = SessionContext::anonymous();
    let step = register(request("alice@example.com", "pw123"));
    let taken = user("u-1", "alice@example.com", "other");
    let step = advance(step.state, StoreReply::Found(Some(taken)), &mut session);
    assert_eq!(step.action, AuthAction::Respond(Err(ApiError::UserExists)));
    assert!(matches!(step.state, AuthState::Done));
    assert_eq!(session, SessionContext::anonymous());
}

#[test]
fn register_with_a_free_email_inserts_a_hashed_row() {
    let mut session = SessionContext::anonymous();
    let step = register(request("alice@example.com", "pw123"));
    let step = advance(step.state, StoreReply::Found(None), &mut session);
    assert!(matches!(step.state, AuthState::RegisterInsert));
    let row = match step.action {
        AuthAction::Insert(row) => row,
        other => panic!("unexpected action {:?}", other),
    };
    assert_eq!(row.email, "alice@example.com");
    assert_eq!(row.name, Some("Alice".to_string()));
    assert_ne!(row.password_hash, "pw123");
    let stored = User {
        id: "u-1".to_string(),
        email: row.email,
        name: row.name,
        avatar_url: None,
        password_hash: row.password_hash,
        created_at: 0,
        updated_at: 0,
    };
    assert_eq!(stored.verify_password("pw123"), Ok(true));
    assert_eq!(session, SessionContext::anonymous());
}

#[test]
fn register_with_a_given_hash_is_determined() {
    let mut session = SessionContext::anonymous();
    let step = register(request("alice@example.com", "pw123"));
    let step = advance_hashed(
        step.state,
        StoreReply::Found(None),
        Ok("the-hash".to_string()),
        &mut session,
    );
    assert_eq!(
        step.action,
        AuthAction::Insert(NewUser {
            email: "alice@example.com".to_string(),
            name: Some("Alice".to_string()),
            password_hash: "the-hash".to_string(),
        })
    );
    assert!(matches!(step.state, AuthState::RegisterInsert));
}

#[test]
fn register_with_a_failed_hash_is_internal() {
    let mut session = SessionContext::anonymous();
    let step = register(request("alice@example.com", "pw123"));
    let step = advance_hashed(
        step.state,
        StoreReply::Found(None),
        Err(PasswordError::HashingFailed),
        &mut session,
    );
    assert_eq!(step.action, AuthAction::Respond(Err(ApiError::Internal)));
    assert!(matches!(step.state, AuthState::Done));
}

#[test]
fn register_signs_the_stored_user_in() {
    let mut session = SessionContext { id: Some(5), data: vec![] };
    let alice = user("u-1", "alice@example.com", "pw123");
    let step = advance(AuthState::RegisterInsert, StoreReply::Inserted(alice.clone()), &mut session);
    assert_eq!(step.action, AuthAction::Respond(Ok(face(&alice))));
    assert!(matches!(step.state, AuthState::Done));
    assert_eq!(session.id, Some(5));
    assert_eq!(
        session.data,
        vec![SessionEntry { key: "user_id".to_string(), value: "u-1".to_string() }]
    );
}

#[test]
fn register_losing_the_race_is_refused() {
    let mut session = SessionContext::anonymous();
    let step = advance(AuthState::RegisterInsert, StoreReply::Conflict, &mut session);
    assert_eq!(step.action, AuthAction::Respond(Err(ApiError::UserExists)));
    assert_eq!(session, SessionContext::anonymous());
}

#[test]
fn store_failures_are_database_errors() {
    let mut session = SessionContext::anonymous();
    let step = register(request("alice@example.com", "pw123"));
    let step = advance(step.state, StoreReply::Failed, &mut session);
    assert_eq!(step.action, AuthAction::Respond(Err(ApiError::Database)));
    let step = advance(AuthState::RegisterInsert, StoreReply::Failed, &mut session);
    assert_eq!(step.action, AuthAction::Respond(Err(ApiError::Database)));
    let step = advance(
        AuthState::LoginLookup("pw123".to_string()),
        StoreReply::Failed,
        &mut session,
    );
    assert_eq!(step.action, AuthAction::Respond(Err(ApiError::Database)));
    assert_eq!(session, SessionContext::anonymous());
}

#[test]
fn replies_out_of_turn_are_internal_errors() {
    let mut session = SessionContext::anonymous();
    let alice = user("u-1", "alice@example.com", "pw123");
    let cases = vec![
        (register(request("a@b.c", "x")).state, StoreReply::Inserted(alice.clone())),
        (register(request("a@b.c", "x")).state, StoreReply::Conflict),
        (AuthState::RegisterInsert, StoreReply::Found(None)),
        (AuthState::RegisterInsert, StoreReply::Found(Some(alice.clone()))),
        (AuthState::LoginLookup("pw123".to_string()), StoreReply::Inserted(alice.clone())),
        (AuthState::LoginLookup("pw123".to_string()), StoreReply::Conflict),
        (AuthState::Done, StoreReply::Found(Some(alice.clone()))),
        (AuthState::Done, StoreReply::Inserted(alice.clone())),
        (AuthState::Done, StoreReply::Failed),
    ];
    for (state, reply) in cases {
        let step = advance(state, reply, &mut session);
        assert_eq!(step.action, AuthAction::Respond(Err(ApiError::Internal)));
        assert!(matches!(step.state, AuthState::Done));
        assert_eq!(session, SessionContext::anonymous());
    }
}

#[test]
fn login_begins_with_a_lookup() {
    let step = login(LoginRequest {
        email: "alice@example.com".to_string(),
        password: "pw123".to_string(),
    });
    assert_eq!(step.action, AuthAction::FindByEmail("alice@example.com".to_string()));
    match step.state {
        AuthState::LoginLookup(password) => assert_eq!(password, "pw123"),
        other => panic!("unexpected state {:?}", other),
    }
}

#[test]
fn login_with_the_right_password_signs_in() {
    let mut session = SessionContext::anonymous();
    let alice = user("u-1", "alice@example.com", "pw123");
    let step = login(LoginRequest {
        email: "alice@example.com".to_string(),
        password: "pw123".to_string(),
    });
    let step = advance(step.state, StoreReply::Found(Some(alice.clone())), &mut session);
    assert_eq!(step.action, AuthAction::Respond(Ok(face(&alice))));
    assert_eq!(session.user_id(), Some("u-1".to_string()));
    assert_eq!(session.id, None);
}

#[test]
fn login_failures_are_indistinguishable() {
    let alice = user("u-1", "alice@example.com", "pw123");

    let mut session_wrong = SessionContext::anonymous();
    let step = login(LoginRequest {
        email: "alice@example.com".to_string(),
        password: "wrong".to_string(),
    });
    let wrong = advance(step.state, StoreReply::Found(Some(alice)), &mut session_wrong);

    let mut session_unknown = SessionContext::anonymous();
    let step = login(LoginRequest {
        email: "nobody@example.com".to_string(),
        password: "pw123".to_string(),
    });
    let unknown = advance(step.state, StoreReply::Found(None), &mut session_unknown);

    assert_eq!(wrong.action, AuthAction::Respond(Err(ApiError::InvalidCredentials)));
    assert_eq!(unknown.action, wrong.action);
    assert_eq!(session_wrong, SessionContext::anonymous());
    assert_eq!(session_unknown, SessionContext::anonymous());
    let (a, b) = match (wrong.action, unknown.action) {
        (AuthAction::Respond(Err(a)), AuthAction::Respond(Err(b))) => (a, b),
        _ => unreachable!(),
    };
    assert_eq!(a.clone().into_response(), b.clone().into_response());
    assert_eq!(a.status_code(), 401);
    assert_eq!(a.message(), "Invalid credentials");
}

#[test]
fn login_against_a_corrupted_hash_is_internal_not_a_match() {
    let mut session = SessionContext::anonymous();
    let mut alice = user("u-1", "alice@example.com", "pw123");
    alice.password_hash = "corrupted".to_string();
    let step = login(LoginRequest {
        email: "alice@example.com".to_string(),
        password: "pw123".to_string(),
    });
    let step = advance(step.state, StoreReply::Found(Some(alice)), &mut session);
    assert_eq!(step.action, AuthAction::Respond(Err(ApiError::Internal)));
    assert_eq!(session.user_id(), None);
}

#[test]
fn logout_always_succeeds() {
    let mut anonymous = SessionContext::anonymous();
    assert_eq!(logout(&mut anonymous), Ok(()));
    assert_eq!(anonymous, SessionContext::anonymous());

    let mut signed_in = SessionContext {
        id: Some(7),
        data: vec![SessionEntry { key: "user_id".to_string(), value: "u-1".to_string() }],
    };
    assert_eq!(logout(&mut signed_in), Ok(()));
    assert_eq!(signed_in, SessionContext::anonymous());
    assert_eq!(logout(&mut signed_in), Ok(()));
    assert_eq!(signed_in, SessionContext::anonymous());
}
