use login_service::identity::{token_claims, user_id_for, TOKEN_LIFETIME_SECS};

#[test]
fn user_id_is_base85_of_salted_sha256() {
    let id = user_id_for("pepper", "1234567890");
    assert_eq!(id, "jpT6`UL7S>(cU$T@93^T#|r(F{9I>3O4>=saL3YF");
    assert_eq!(id.chars().count(), 40);
}

#[test]
fn user_id_with_empty_salt() {
    assert_eq!(user_id_for("", "abc"), "x_B19j{(o>K|w&?U9KV{umfSEmKS=Qv=IMc@&FaB");
}

#[test]
fn user_id_hashes_utf8_bytes() {
    assert_eq!(user_id_for("sel", "é-user"), "6UCRnMVxl*ic@FR>1!<-hWc49<l)O#81Aas|1W20");
}

#[test]
fn user_id_depends_on_salt() {
    assert_ne!(user_id_for("a", "subject"), user_id_for("b", "subject"));
    assert_eq!(user_id_for("a", "subject"), user_id_for("a", "subject"));
}

#[test]
fn token_lifetime_is_sixty_days() {
    assert_eq!(TOKEN_LIFETIME_SECS, 5_184_000);
    let claims = token_claims(1_700_000_000, "uid".to_string(), "sub".to_string());
    assert_eq!(claims.exp, 1_705_184_000);
    assert_eq!(claims.user_id, "uid");
    assert_eq!(claims.open_id, "sub");
}

#[test]
fn token_claims_at_the_last_allowed_instant() {
    let now = i64::MAX - TOKEN_LIFETIME_SECS;
    let claims = token_claims(now, String::new(), String::new());
    assert_eq!(claims.exp, i64::MAX);
}
