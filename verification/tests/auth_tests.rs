use ticketing::auth::{
    database_error, grant_login, hash_password, hashing_outcome, internal_error, login,
    login_outcome, signup, signup_outcome, unauthorized, AuthError, AuthErrorKind, AuthResponse,
    Claims, LoginRequest, LoginResponse, PasswordCheck, SignupRequest, StoredUser, UserData,
    TOKEN_LIFETIME_SECS,
};
use ticketing::clock::Timestamp;

fn user(password: Option<String>) -> StoredUser {
    StoredUser {
        id: 12,
        name: "Ada".to_string(),
        email: "ada@example.org".to_string(),
        password,
    }
}

fn attempt(password: &str) -> LoginRequest {
    LoginRequest { email: "ada@example.org".to_string(), password: password.to_string() }
}

fn now() -> Timestamp {
    Timestamp::new(1_700_000_000, 0).unwrap()
}

fn refusal() -> AuthError {
    AuthError {
        kind: AuthErrorKind::Unauthorized,
        message: "Invalid email or password".to_string(),
    }
}

#[test]
fn a_hashed_password_is_accepted_at_log_in() {
    let hash = hash_password("correct horse").unwrap();
    assert_ne!(hash, "correct horse");
    assert!(hash.starts_with("$argon2id$"));
    let claims = login(&Some(user(Some(hash))), &attempt("correct horse"), &now()).unwrap();
    assert_eq!(
        claims,
        Claims {
            sub: 12,
            exp: 1_700_604_800,
            email: "ada@example.org".to_string(),
            name: "Ada".to_string(),
        }
    );
}

#[test]
fn every_hash_has_its_own_salt() {
    assert_ne!(hash_password("same").unwrap(), hash_password("same").unwrap());
}

#[test]
fn a_wrong_password_is_refused() {
    let hash = hash_password("correct horse").unwrap();
    assert_eq!(
        login(&Some(user(Some(hash))), &attempt("battery staple"), &now()),
        Err(refusal())
    );
}

#[test]
fn an_unknown_user_is_refused_in_the_same_words() {
    assert_eq!(login(&None, &attempt("anything"), &now()), Err(refusal()));
}

#[test]
fn a_stored_text_that_is_no_hash_is_the_servers_fault() {
    let broken = AuthError {
        kind: AuthErrorKind::Internal,
        message: "Stored password hash is invalid".to_string(),
    };
    assert_eq!(login(&Some(user(None)), &attempt("x"), &now()), Err(broken.clone()));
    assert_eq!(
        login(&Some(user(Some(String::new()))), &attempt("x"), &now()),
        Err(broken.clone())
    );
    assert_eq!(
        login(&Some(user(Some("plain text".to_string()))), &attempt("plain text"), &now()),
        Err(broken)
    );
}

#[test]
fn grant_login_decides_on_the_check() {
    let u = user(None);
    let claims = grant_login(&u, PasswordCheck::Match, &now()).unwrap();
    assert_eq!(claims.sub, 12);
    assert_eq!(claims.exp, 1_700_000_000 + TOKEN_LIFETIME_SECS);
    assert_eq!(grant_login(&u, PasswordCheck::Mismatch, &now()), Err(refusal()));
    let e = grant_login(&u, PasswordCheck::Unreadable, &now()).unwrap_err();
    assert_eq!(e.kind, AuthErrorKind::Internal);
    assert_eq!(e.message, "Stored password hash is invalid");
}

#[test]
fn a_token_lasts_seven_days() {
    assert_eq!(TOKEN_LIFETIME_SECS, 7 * 24 * 60 * 60);
    let early = Timestamp::new(-100, 999).unwrap();
    let claims = grant_login(&user(None), PasswordCheck::Match, &early).unwrap();
    assert_eq!(claims.exp, 604_700);
}

#[test]
fn the_answer_to_a_log_in() {
    let claims = Claims {
        sub: 12,
        exp: 5,
        email: "ada@example.org".to_string(),
        name: "Ada".to_string(),
    };
    assert_eq!(
        login_outcome(claims.clone(), Ok("signed.token".to_string())),
        Ok(LoginResponse {
            token: "signed.token".to_string(),
            user: UserData {
                id: 12,
                name: "Ada".to_string(),
                email: "ada@example.org".to_string(),
            },
        })
    );
    assert_eq!(
        login_outcome(claims, Err("key too short".to_string())),
        Err(AuthError {
            kind: AuthErrorKind::Internal,
            message: "Failed to generate token: key too short".to_string(),
        })
    );
}

#[test]
fn the_answer_to_a_sign_up() {
    assert_eq!(
        signup_outcome(Ok(())),
        Ok(AuthResponse { message: "User created successfully".to_string() })
    );
    assert_eq!(
        signup_outcome(Err("duplicate key".to_string())),
        Err(AuthError {
            kind: AuthErrorKind::Internal,
            message: "Failed to create user: duplicate key".to_string(),
        })
    );
}

#[test]
fn failures_carry_their_status() {
    assert_eq!(AuthErrorKind::Unauthorized.status_code(), 401);
    assert_eq!(AuthErrorKind::Internal.status_code(), 500);
    assert_eq!(
        unauthorized("no"),
        AuthError { kind: AuthErrorKind::Unauthorized, message: "no".to_string() }
    );
    assert_eq!(
        internal_error("broken".to_string()),
        AuthError { kind: AuthErrorKind::Internal, message: "broken".to_string() }
    );
    assert_eq!(
        database_error("connection refused"),
        AuthError {
            kind: AuthErrorKind::Internal,
            message: "Database error: connection refused".to_string(),
        }
    );
}

#[test]
fn a_sign_up_is_stored_with_a_hash_that_opens_the_account() {
    let request = SignupRequest {
        name: "Ada".to_string(),
        email: "ada@example.org".to_string(),
        password: "pw-1234".to_string(),
    };
    let new_user = signup(&request).unwrap();
    assert_eq!(new_user.name, "Ada");
    assert_eq!(new_user.email, "ada@example.org");
    assert_ne!(new_user.password_hash, "pw-1234");
    let stored = Some(StoredUser {
        id: 1,
        name: new_user.name,
        email: new_user.email,
        password: Some(new_user.password_hash),
    });
    assert!(login(&stored, &attempt("pw-1234"), &now()).is_ok());
    assert_eq!(login(&stored, &attempt("pw-12345"), &now()), Err(refusal()));
}

#[test]
fn the_hashers_answer_becomes_the_outcome() {
    assert_eq!(hashing_outcome(Some("$argon2id$x".to_string())), Ok("$argon2id$x".to_string()));
    assert_eq!(
        hashing_outcome(None),
        Err(AuthError {
            kind: AuthErrorKind::Internal,
            message: "Failed to hash password".to_string(),
        })
    );
}

#[test]
fn every_hash_matches_the_password_it_was_made_of() {
    for password in ["", "pässwörd ✓", "a much longer pass phrase with spaces in it"] {
        let hash = hash_password(password).unwrap();
        let claims = login(&Some(user(Some(hash))), &attempt(password), &now());
        assert_eq!(claims.map(|c| c.sub), Ok(12), "{:?}", password);
    }
}
