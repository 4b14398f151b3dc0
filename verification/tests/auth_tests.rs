use argon2::{Argon2, PasswordHash, PasswordVerifier};

use roger::{
    JwtConfig, MsgError, NewUser, Secret, User, UserContext, UserResponse, access_claims,
    bearer_token, delete_user_outcome, hash_password, like_pattern, login_outcome, new_password,
    new_uuid_string, page_offset, parse_password, passwords_match, prepare_user, random_name,
    refresh_claims, register_outcome, unique_name, update_password_outcome, users_outcome,
    users_query_sql,
};

#[test]
fn test_hashing_password() {
    let password = "12345".to_string();

    let password_hash = hash_password(password.clone()).unwrap();
    let parsed_hash = PasswordHash::new(&password_hash).unwrap();
    assert!(
        Argon2::default()
            .verify_password(password.as_bytes(), &parsed_hash)
            .is_ok()
    );
}

#[test]
fn test_parsing_password() {
    let password = "12345".to_string();

    let password_hash = hash_password(password.clone()).unwrap();
    let parsed_hash = parse_password(&password_hash).unwrap();
    assert!(
        Argon2::default()
            .verify_password(password.as_bytes(), &parsed_hash)
            .is_ok()
    );
}

#[test]
fn test_parsing_password_failed() {
    let password = "12345".to_string();
    let password2 = "password".to_string();

    let password_hash = hash_password(password.clone()).unwrap();
    let parsed_hash = parse_password(&password_hash).unwrap();
    assert!(
        Argon2::default()
            .verify_password(password2.as_bytes(), &parsed_hash)
            .is_err()
    );
}

#[test]
fn test_match_password() {
    let pwd = "12345".to_string();
    let hash = hash_password(pwd).unwrap();
    let new_pwd = "12345".to_string();
    let result = passwords_match(&hash, &new_pwd).unwrap();
    assert_eq!(result, true);
}

#[test]
fn test_match_password_different() {
    let pwd = "12345".to_string();
    let hash = hash_password(pwd).unwrap();
    let new_pwd = "1234".to_string();
    let result = passwords_match(&hash, &new_pwd).unwrap();
    assert_eq!(result, false);
}

#[test]
fn test_match_password_bad_hash_is_error() {
    let err = passwords_match("not a phc string", "12345").err().unwrap();
    assert!(err.0.starts_with("Failed to parse password hash: "));
    assert!(parse_password("not a phc string").is_err());
}

#[test]
fn test_generate_name() {
    let name = random_name();
    assert!(name.len() > 6);
}

#[test]
fn test_generate_name_shape() {
    let name = random_name();
    let first = name.chars().next().unwrap();
    assert!(first.is_ascii_uppercase());
    assert!(name.chars().skip(1).all(|c| c.is_ascii_lowercase()));
    assert!(name.len() < 26);
}

#[test]
fn test_new_password_rejects_same_password() {
    let hash = hash_password("12345".to_string()).unwrap();
    let err = new_password(&hash, "12345").err().unwrap();
    assert_eq!(err.0, "New password cannot be the same as the current password");
}

#[test]
fn test_new_password_hashes_fresh_password() {
    let hash = hash_password("12345".to_string()).unwrap();
    let (new_hash, matched) = new_password(&hash, "67890").unwrap();
    assert!(!matched);
    assert!(passwords_match(&new_hash, "67890").unwrap());
    assert!(!passwords_match(&new_hash, "12345").unwrap());
}

#[test]
fn test_new_password_bad_stored_hash() {
    let err = new_password("garbage", "67890").err().unwrap();
    assert!(err.0.starts_with("Failed to compare passwords: "));
}

#[test]
fn test_unique_name_rejects_existing() {
    let user = NewUser::new(
        "Jordan".to_string(),
        "jordan@example.com".to_string(),
        "123456".to_string(),
    );
    let context = UserContext { user_name: "Jordan".to_string() };
    let err = unique_name(&user, &context).err().unwrap();
    assert_eq!(
        err.0,
        "cannot register using user name Jordan, user name already exists"
    );
    let other = UserContext { user_name: "Taylor".to_string() };
    assert!(unique_name(&user, &other).is_ok());
}

#[test]
fn test_prepare_user_hashes_and_assigns_id() {
    let new_user = NewUser::new(
        "Jordan".to_string(),
        "jordan@example.com".to_string(),
        "123456".to_string(),
    );
    let (stored, hash) = prepare_user(new_user).unwrap();
    assert_eq!(stored.user_name, "Jordan");
    assert_eq!(stored.email, "jordan@example.com");
    assert_eq!(stored.user_id.len(), 36);
    assert!(passwords_match(&hash, "123456").unwrap());
}

#[test]
fn test_uuid_shape() {
    let a = new_uuid_string();
    let b = new_uuid_string();
    assert_eq!(a.len(), 36);
    assert_eq!(b.len(), 36);
    assert_ne!(a, b);
}

#[test]
fn test_page_offset_values() {
    assert_eq!(page_offset(0), 0);
    assert_eq!(page_offset(-3), 0);
    assert_eq!(page_offset(1), 0);
    assert_eq!(page_offset(2), 10);
    assert_eq!(page_offset(7), 60);
}

#[test]
fn test_users_query_sql_text() {
    assert_eq!(
        users_query_sql(true),
        "select user_id, user_name, email from users where user_name like $1 order by user_name desc limit 10 offset $2"
    );
    assert_eq!(
        users_query_sql(false),
        "select user_id, user_name, email from users order by user_name desc limit 10 offset $1"
    );
}

#[test]
fn test_like_pattern_text() {
    assert_eq!(like_pattern("Jor"), "%Jor%");
    assert_eq!(like_pattern(""), "%%");
}

#[test]
fn test_jwt_config_windows() {
    let config = JwtConfig::new("supersecret".to_string());
    assert_eq!(config.secret, "supersecret");
    assert_eq!(config.access_token_expiry, 3600);
    assert_eq!(config.refresh_token_expiry, 604800);
}

#[test]
fn test_claims_instants() {
    let config = JwtConfig::new("supersecret".to_string());
    let now: usize = 1700000000;
    let access = access_claims(&config, "u-1", "u@example.com", now);
    assert_eq!(access.sub, "u-1");
    assert_eq!(access.user_id, "u-1");
    assert_eq!(access.email, "u@example.com");
    assert_eq!(access.iat, now);
    assert_eq!(access.exp, now + 3600);
    let refresh = refresh_claims(&config, "u-1", "u@example.com", now);
    assert_eq!(refresh.exp, now + 604800);
}

#[test]
fn test_bearer_token_extraction() {
    assert_eq!(bearer_token(Some("Bearer abc.def")).unwrap(), "abc.def");
    assert_eq!(bearer_token(Some("Bearer ")).unwrap(), "");
    assert!(bearer_token(Some("Basic abc")).is_none());
    assert!(bearer_token(Some("Bearer")).is_none());
    assert!(bearer_token(None).is_none());
}

#[test]
fn test_secret_reads_jwt_key() {
    let source = "[jwt]\nkey = \"supersecret\"\n";
    assert_eq!(Secret::new(source), "supersecret");
}

#[test]
fn test_register_outcome_responses() {
    let user = User {
        user_id: "u-1".to_string(),
        user_name: "Jordan".to_string(),
        email: "jordan@example.com".to_string(),
    };
    let ok = register_outcome(Ok(user), Some("at".to_string()), Some("rt".to_string())).unwrap();
    assert_eq!(ok.meta.code, 200);
    assert_eq!(ok.meta.message, "Success");
    assert_eq!(ok.data.user_name, "Jordan");
    assert_eq!(ok.access_token.as_deref(), Some("at"));
    assert_eq!(ok.refresh_token.as_deref(), Some("rt"));

    let err = register_outcome(Err(MsgError("duplicate key".to_string())), None, None)
        .err()
        .unwrap();
    assert_eq!(err.code, 400);
    assert_eq!(err.message, "Failed to register: duplicate key");
}

#[test]
fn test_login_outcome_responses() {
    let user = User {
        user_id: "u-2".to_string(),
        user_name: "Jordan".to_string(),
        email: "jordan@example.com".to_string(),
    };
    let ok = login_outcome(Some(user), Some("at".to_string()), None).unwrap();
    assert_eq!(ok.meta.code, 200);
    assert_eq!(ok.data.user_id, "u-2");

    let err = login_outcome(None, None, None).err().unwrap();
    assert_eq!(err.code, 404);
    assert_eq!(err.message, "Invalid user name or password");
}

#[test]
fn test_users_outcome_responses() {
    let page = UserResponse { page: 1, data: vec![] };
    let ok = users_outcome(Ok(page)).unwrap();
    assert_eq!(ok.meta.code, 200);
    assert_eq!(ok.data.page, 1);
    let err = users_outcome(Err(MsgError("boom".to_string()))).err().unwrap();
    assert_eq!((err.code, err.message.as_str()), (400, "boom"));
}

#[test]
fn test_update_and_delete_outcomes() {
    let ok = update_password_outcome(Ok(false));
    assert_eq!((ok.code, ok.message.as_str()), (200, "Success"));
    let err = update_password_outcome(Err(MsgError("no such user".to_string())));
    assert_eq!((err.code, err.message.as_str()), (400, "no such user"));
    let ok = delete_user_outcome(Ok(true));
    assert_eq!((ok.code, ok.message.as_str()), (200, "Success"));
    let err = delete_user_outcome(Err(MsgError("gone".to_string())));
    assert_eq!((err.code, err.message.as_str()), (400, "gone"));
}
