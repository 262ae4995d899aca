use saas_billing::auth::{bearer_token, AuthService, Claims};
use saas_billing::errors::AppError;

#[test]
fn service_keeps_secret_and_expiration() {
    let service = AuthService::new("s3cret".to_string(), 3600);
    assert_eq!(service.jwt_secret(), "s3cret");
    assert_eq!(service.jwt_expiration(), 3600);
}

#[test]
fn claims_run_out_after_the_expiration() {
    let service = AuthService::new("s3cret".to_string(), 3600);
    let claims = service.claims(
        "a1a2a3a4-b1b2-c1c2-d1d2-d3d4d5d6d7d8".to_string(),
        "ada@example.org".to_string(),
        "user".to_string(),
        1_700_000_000,
    );
    assert_eq!(
        claims,
        Claims {
            sub: "a1a2a3a4-b1b2-c1c2-d1d2-d3d4d5d6d7d8".to_string(),
            email: "ada@example.org".to_string(),
            role: "user".to_string(),
            exp: 1_700_003_600,
            iat: 1_700_000_000,
        }
    );
}

#[test]
fn claims_with_a_negative_expiration_are_already_over() {
    let service = AuthService::new("k".to_string(), -60);
    let claims = service.claims("u".to_string(), "e".to_string(), "r".to_string(), 100);
    assert_eq!((claims.iat, claims.exp), (100, 40));
}

#[test]
fn token_is_what_follows_the_bearer_prefix() {
    assert_eq!(bearer_token(Some("Bearer abc.def.ghi")), Ok("abc.def.ghi".to_string()));
    assert_eq!(bearer_token(Some("Bearer ")), Ok("".to_string()));
    assert_eq!(bearer_token(Some("Bearer  spaced")), Ok(" spaced".to_string()));
    assert_eq!(bearer_token(Some("Bearer Bearer x")), Ok("Bearer x".to_string()));
    assert_eq!(bearer_token(Some("Bearer clé")), Ok("clé".to_string()));
}

#[test]
fn header_of_another_form_is_refused() {
    let refused = || Err(AppError::Unauthorized("Invalid token format".to_string()));
    assert_eq!(bearer_token(Some("bearer abc")), refused());
    assert_eq!(bearer_token(Some("Bearer")), refused());
    assert_eq!(bearer_token(Some("Basic dXNlcjpwdw==")), refused());
    assert_eq!(bearer_token(Some("")), refused());
    assert_eq!(bearer_token(Some(" Bearer abc")), refused());
    assert_eq!(bearer_token(Some("Béarer abc")), refused());
}

#[test]
fn missing_header_is_refused() {
    let refused = bearer_token(None);
    assert_eq!(refused, Err(AppError::Unauthorized("Missing authorization header".to_string())));
    assert_eq!(refused.unwrap_err().status_code(), 401);
}
