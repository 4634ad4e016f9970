use plate_auth::claims::{claims_payload, payload_claims, Claims, VALIDITY_SECONDS};
use plate_auth::token::{
    decode_jwt, encode_jwt, issue_at, signing_outcome, verify_at, verify_decoded, DecodeFault,
    SigningError, VerificationError,
};

const SECRET: &str = "a-secret-for-the-tests";
const ISSUED: u64 = 1_700_000_000;

fn alice() -> Claims {
    Claims {
        exp: 1_700_432_000,
        iat: 1_700_000_000,
        licence: "PLATE123".to_string(),
        username: "alice".to_string(),
    }
}

fn alice_token() -> String {
    issue_at(SECRET, &"PLATE123".to_string(), &"alice".to_string(), ISSUED).unwrap()
}

fn number(n: u64) -> serde_json::Value {
    serde_json::Value::from(n)
}

fn text(s: &str) -> serde_json::Value {
    serde_json::Value::from(s)
}

/// A token signed by the signing library itself, around any object.
fn sign(object: &serde_json::Map<String, serde_json::Value>, secret: &str) -> String {
    jsonwebtoken::encode(
        &jsonwebtoken::Header::default(),
        object,
        &jsonwebtoken::EncodingKey::from_secret(secret.as_bytes()),
    )
    .unwrap()
}

fn seconds_since_the_epoch() -> u64 {
    std::time::SystemTime::now().duration_since(std::time::UNIX_EPOCH).unwrap().as_secs()
}

fn with_last_signature_char(token: &str, change: fn(u8) -> u8) -> String {
    let mut bytes = token.as_bytes().to_vec();
    let last = bytes.len() - 1;
    bytes[last] = change(bytes[last]);
    String::from_utf8(bytes).unwrap()
}

#[test]
fn validity_window_is_five_days() {
    assert_eq!(VALIDITY_SECONDS, 5 * 24 * 60 * 60);
}

#[test]
fn issued_token_verifies_to_its_claims() {
    let token = alice_token();
    assert_eq!(verify_at(SECRET, &token, ISSUED + 100), Ok(alice()));
}

#[test]
fn issued_claims_expire_five_days_after_issue() {
    let claims = verify_at(SECRET, &alice_token(), ISSUED).unwrap();
    assert_eq!(claims.iat, 1_700_000_000);
    assert_eq!(claims.exp, 1_700_000_000 + 432_000);
    assert!(claims.exp > claims.iat);
    assert_eq!(claims.licence, "PLATE123");
    assert_eq!(claims.username, "alice");
}

#[test]
fn token_has_three_parts_and_the_four_claims() {
    let token = alice_token();
    assert_eq!(token.split('.').count(), 3);
    let header = jsonwebtoken::decode_header(&token).unwrap();
    assert_eq!(header.alg, jsonwebtoken::Algorithm::HS256);
    let mut rules = jsonwebtoken::Validation::new(jsonwebtoken::Algorithm::HS256);
    rules.validate_exp = false;
    let data = jsonwebtoken::decode::<serde_json::Map<String, serde_json::Value>>(
        &token,
        &jsonwebtoken::DecodingKey::from_secret(SECRET.as_bytes()),
        &rules,
    )
    .unwrap();
    let mut expected = serde_json::Map::new();
    expected.insert("exp".to_string(), number(1_700_432_000));
    expected.insert("iat".to_string(), number(1_700_000_000));
    expected.insert("licence".to_string(), text("PLATE123"));
    expected.insert("username".to_string(), text("alice"));
    assert_eq!(data.claims, expected);
}

#[test]
fn token_verifies_until_just_before_its_expiry() {
    let token = alice_token();
    assert_eq!(verify_at(SECRET, &token, 0), Ok(alice()));
    assert_eq!(verify_at(SECRET, &token, 1_700_431_999), Ok(alice()));
}

#[test]
fn token_is_expired_at_its_expiry() {
    assert_eq!(verify_at(SECRET, &alice_token(), 1_700_432_000), Err(VerificationError::Expired));
}

#[test]
fn token_is_expired_after_its_expiry() {
    let token = alice_token();
    assert_eq!(verify_at(SECRET, &token, 1_700_432_001), Err(VerificationError::Expired));
    assert_eq!(verify_at(SECRET, &token, u64::MAX), Err(VerificationError::Expired));
}

#[test]
fn one_flipped_bit_in_the_signature_is_a_bad_signature() {
    let token = alice_token();
    let signature_start = token.rfind('.').unwrap() + 1;
    for at in signature_start..token.len() {
        for bit in [0x01u8, 0x02, 0x04] {
            let mut bytes = token.as_bytes().to_vec();
            bytes[at] ^= bit;
            if bytes[at] == b'.' {
                continue;
            }
            let forged = String::from_utf8(bytes).unwrap();
            assert_ne!(forged, token);
            assert_eq!(
                verify_at(SECRET, &forged, ISSUED),
                Err(VerificationError::BadSignature)
            );
        }
    }
}

#[test]
fn replaced_signature_is_a_bad_signature_at_any_time() {
    let token = alice_token();
    let body = &token[..token.rfind('.').unwrap() + 1];
    for other in ["", "AAAA", "not the signature"] {
        let forged = format!("{}{}", body, other);
        assert_eq!(verify_at(SECRET, &forged, 0), Err(VerificationError::BadSignature));
        assert_eq!(verify_at(SECRET, &forged, u64::MAX), Err(VerificationError::BadSignature));
    }
}

#[test]
fn signature_bit_that_becomes_a_dot_makes_the_token_malformed() {
    let token = alice_token();
    let with_n = with_last_signature_char(&token, |_| b'n');
    let with_dot = with_last_signature_char(&with_n, |c| c ^ 0x40);
    assert!(with_dot.ends_with('.'));
    assert_eq!(verify_at(SECRET, &with_dot, ISSUED), Err(VerificationError::Malformed));
}

#[test]
fn token_under_another_secret_is_a_bad_signature() {
    assert_eq!(
        verify_at("another-secret", &alice_token(), ISSUED),
        Err(VerificationError::BadSignature)
    );
}

#[test]
fn changed_claims_are_a_bad_signature() {
    let token = alice_token();
    let mut bob = serde_json::Map::new();
    bob.insert("exp".to_string(), number(1_700_432_000));
    bob.insert("iat".to_string(), number(1_700_000_000));
    bob.insert("licence".to_string(), text("PLATE123"));
    bob.insert("username".to_string(), text("bob"));
    let other = sign(&bob, SECRET);
    let parts: Vec<&str> = token.split('.').collect();
    let other_parts: Vec<&str> = other.split('.').collect();
    let forged = format!("{}.{}.{}", parts[0], other_parts[1], parts[2]);
    assert_eq!(verify_at(SECRET, &forged, ISSUED), Err(VerificationError::BadSignature));
}

#[test]
fn text_that_is_no_token_is_malformed() {
    for text in ["", "not-a-token", "a.b", "a.b.c", "a.b.c.d", "..", "Bearer"] {
        assert_eq!(verify_at(SECRET, text, ISSUED), Err(VerificationError::Malformed));
    }
}

#[test]
fn token_signed_with_another_algorithm_is_malformed() {
    let mut object = serde_json::Map::new();
    object.insert("exp".to_string(), number(1_700_432_000));
    object.insert("iat".to_string(), number(1_700_000_000));
    object.insert("licence".to_string(), text("PLATE123"));
    object.insert("username".to_string(), text("alice"));
    let token = jsonwebtoken::encode(
        &jsonwebtoken::Header::new(jsonwebtoken::Algorithm::HS512),
        &object,
        &jsonwebtoken::EncodingKey::from_secret(SECRET.as_bytes()),
    )
    .unwrap();
    assert_eq!(verify_at(SECRET, &token, ISSUED), Err(VerificationError::Malformed));
}

#[test]
fn signed_token_without_a_claim_is_malformed() {
    for missing in ["exp", "iat", "licence", "username"] {
        let mut object = claims_payload(&alice());
        object.remove(missing);
        let token = sign(&object, SECRET);
        assert_eq!(verify_at(SECRET, &token, ISSUED), Err(VerificationError::Malformed));
    }
}

#[test]
fn signed_token_with_a_claim_of_another_kind_is_malformed() {
    let mut object = claims_payload(&alice());
    object.insert("exp".to_string(), text("1700432000"));
    assert_eq!(verify_at(SECRET, &sign(&object, SECRET), ISSUED), Err(VerificationError::Malformed));

    let mut object = claims_payload(&alice());
    object.insert("iat".to_string(), serde_json::Value::from(-5i64));
    assert_eq!(verify_at(SECRET, &sign(&object, SECRET), ISSUED), Err(VerificationError::Malformed));

    let mut object = claims_payload(&alice());
    object.insert("username".to_string(), number(7));
    assert_eq!(verify_at(SECRET, &sign(&object, SECRET), ISSUED), Err(VerificationError::Malformed));

    let mut object = claims_payload(&alice());
    object.insert("licence".to_string(), serde_json::Value::Null);
    assert_eq!(verify_at(SECRET, &sign(&object, SECRET), ISSUED), Err(VerificationError::Malformed));
}

#[test]
fn signed_token_with_further_claims_verifies() {
    let mut object = claims_payload(&alice());
    object.insert("aud".to_string(), text("somebody"));
    object.insert("role".to_string(), text("admin"));
    assert_eq!(verify_at(SECRET, &sign(&object, SECRET), ISSUED), Ok(alice()));
}

#[test]
fn signed_token_that_is_expired_and_lacks_a_claim_is_malformed() {
    let mut object = claims_payload(&alice());
    object.remove("username");
    assert_eq!(
        verify_at(SECRET, &sign(&object, SECRET), u64::MAX),
        Err(VerificationError::Malformed)
    );
}

#[test]
fn issue_refuses_a_time_that_does_not_fit() {
    let licence = "PLATE123".to_string();
    let username = "alice".to_string();
    assert_eq!(
        issue_at(SECRET, &licence, &username, u64::MAX),
        Err(SigningError::TimeOutOfRange)
    );
    let last = usize::MAX as u64 - 432_000;
    assert_eq!(
        issue_at(SECRET, &licence, &username, last + 1),
        Err(SigningError::TimeOutOfRange)
    );
    let token = issue_at(SECRET, &licence, &username, last).unwrap();
    let claims = verify_at(SECRET, &token, last).unwrap();
    assert_eq!(claims.exp, usize::MAX);
    assert_eq!(claims.iat as u64, last);
}

#[test]
fn issue_at_time_zero() {
    let token = issue_at(SECRET, &"P".to_string(), &"u".to_string(), 0).unwrap();
    let claims = verify_at(SECRET, &token, 431_999).unwrap();
    assert_eq!((claims.iat, claims.exp), (0, 432_000));
    assert_eq!(verify_at(SECRET, &token, 432_000), Err(VerificationError::Expired));
}

#[test]
fn tokens_issued_at_different_times_differ_and_both_verify() {
    let licence = "PLATE123".to_string();
    let username = "alice".to_string();
    let first = issue_at(SECRET, &licence, &username, ISSUED).unwrap();
    let second = issue_at(SECRET, &licence, &username, ISSUED + 60).unwrap();
    assert_ne!(first, second);
    let now = ISSUED + 432_000 - 1;
    assert_eq!(verify_at(SECRET, &first, now).unwrap().iat as u64, ISSUED);
    assert_eq!(verify_at(SECRET, &second, now).unwrap().iat as u64, ISSUED + 60);
    assert_eq!(verify_at(SECRET, &first, now + 1), Err(VerificationError::Expired));
    assert_eq!(verify_at(SECRET, &second, now + 1).unwrap().exp as u64, ISSUED + 60 + 432_000);
    assert_eq!(verify_at(SECRET, &second, now + 61), Err(VerificationError::Expired));
}

#[test]
fn tokens_issued_at_one_time_are_the_same() {
    assert_eq!(alice_token(), alice_token());
}

#[test]
fn names_with_unusual_characters_survive() {
    let licence = "AB 12\" \\ \u{e9}\u{4e2d}".to_string();
    let username = "".to_string();
    let token = issue_at(SECRET, &licence, &username, ISSUED).unwrap();
    let claims = verify_at(SECRET, &token, ISSUED).unwrap();
    assert_eq!(claims.licence, licence);
    assert_eq!(claims.username, username);
}

#[test]
fn empty_secret_signs_and_verifies() {
    let token = issue_at("", &"PLATE123".to_string(), &"alice".to_string(), ISSUED).unwrap();
    assert_eq!(verify_at("", &token, ISSUED), Ok(alice()));
    assert_eq!(verify_at("x", &token, ISSUED), Err(VerificationError::BadSignature));
}

#[test]
fn token_issued_now_verifies_now() {
    let token = encode_jwt(SECRET, &"PLATE123".to_string(), &"alice".to_string()).unwrap();
    let claims = decode_jwt(SECRET, token.clone()).unwrap();
    assert_eq!(claims.licence, "PLATE123");
    assert_eq!(claims.username, "alice");
    assert_eq!(claims.exp, claims.iat + 432_000);
    let now = seconds_since_the_epoch();
    assert!(claims.iat as u64 <= now && now <= claims.iat as u64 + 5);
    assert_eq!(decode_jwt("another", token), Err(VerificationError::BadSignature));
}

#[test]
fn token_issued_now_is_accepted_by_the_signing_library_with_its_defaults() {
    let token = encode_jwt(SECRET, &"PLATE123".to_string(), &"alice".to_string()).unwrap();
    let data = jsonwebtoken::decode::<serde_json::Map<String, serde_json::Value>>(
        &token,
        &jsonwebtoken::DecodingKey::from_secret(SECRET.as_bytes()),
        &jsonwebtoken::Validation::default(),
    )
    .unwrap();
    assert_eq!(data.claims.len(), 4);
}

#[test]
fn old_token_is_expired_now() {
    assert_eq!(decode_jwt(SECRET, alice_token()), Err(VerificationError::Expired));
}

#[test]
fn token_is_issued_at_the_present() {
    let before = seconds_since_the_epoch();
    let token = encode_jwt(SECRET, &"PLATE123".to_string(), &"alice".to_string()).unwrap();
    let after = seconds_since_the_epoch();
    let claims = verify_at(SECRET, &token, 0).unwrap();
    assert!(before <= claims.iat as u64 && claims.iat as u64 <= after);
    assert!(claims.iat > 1_600_000_000);
}

#[test]
fn names_that_the_signing_library_knows_do_not_matter() {
    let mut object = claims_payload(&alice());
    object.insert("sub".to_string(), number(5));
    object.insert("iss".to_string(), number(6));
    object.insert("aud".to_string(), number(7));
    object.insert("nbf".to_string(), text("never"));
    assert_eq!(verify_at(SECRET, &sign(&object, SECRET), ISSUED), Ok(alice()));
    let mut object = claims_payload(&alice());
    object.insert("nbf".to_string(), number(u64::MAX));
    object.insert("sub".to_string(), text("somebody"));
    object.insert("iss".to_string(), text("somebody"));
    assert_eq!(verify_at(SECRET, &sign(&object, SECRET), ISSUED), Ok(alice()));
}

#[test]
fn claims_are_written_as_four_members() {
    let object = claims_payload(&alice());
    assert_eq!(object.len(), 4);
    assert_eq!(object.get("exp"), Some(&number(1_700_432_000)));
    assert_eq!(object.get("iat"), Some(&number(1_700_000_000)));
    assert_eq!(object.get("licence"), Some(&text("PLATE123")));
    assert_eq!(object.get("username"), Some(&text("alice")));
    assert_eq!(
        serde_json::to_string(&object).unwrap(),
        "{\"exp\":1700432000,\"iat\":1700000000,\"licence\":\"PLATE123\",\"username\":\"alice\"}"
    );
}

#[test]
fn claims_are_read_back_from_their_object() {
    assert_eq!(payload_claims(&claims_payload(&alice())), Some(alice()));
}

#[test]
fn object_without_the_claims_holds_none() {
    assert_eq!(payload_claims(&serde_json::Map::new()), None);
    let mut object = claims_payload(&alice());
    object.insert("exp".to_string(), serde_json::Value::Bool(true));
    assert_eq!(payload_claims(&object), None);
    let mut object = claims_payload(&alice());
    object.insert("iat".to_string(), number(0));
    object.insert("extra".to_string(), serde_json::Value::Null);
    let claims = payload_claims(&object).unwrap();
    assert_eq!(claims.iat, 0);
    assert_eq!(claims.exp, 1_700_432_000);
}

#[test]
fn opened_token_is_judged_by_its_claims_and_the_time() {
    let object = claims_payload(&alice());
    assert_eq!(verify_decoded(Ok(object.clone()), 1_700_431_999), Ok(alice()));
    assert_eq!(verify_decoded(Ok(object.clone()), 1_700_432_000), Err(VerificationError::Expired));
    assert_eq!(verify_decoded(Ok(serde_json::Map::new()), 0), Err(VerificationError::Malformed));
    assert_eq!(
        verify_decoded(Err(DecodeFault::Signature), 0),
        Err(VerificationError::BadSignature)
    );
    assert_eq!(verify_decoded(Err(DecodeFault::Structure), 0), Err(VerificationError::Malformed));
}

#[test]
fn signing_outcome_keeps_the_token_and_names_the_failure() {
    assert_eq!(signing_outcome(Ok("h.c.s".to_string())), Ok("h.c.s".to_string()));
    let error = jsonwebtoken::errors::Error::from(jsonwebtoken::errors::ErrorKind::InvalidAlgorithm);
    assert_eq!(signing_outcome(Err(error)), Err(SigningError::Rejected));
}
