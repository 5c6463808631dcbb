use auth_lib::clock::now;
use auth_lib::issuer::{encode_access_token, encode_refresh_token, issue_access, issue_refresh};
use auth_lib::secret::Secret;
use auth_lib::signing::{DecodeFailure, Payload};
use auth_lib::validator::{
    classify, decode_access, decode_refresh, judge_access, judge_refresh, TokenError,
};
use jsonwebtoken::{Algorithm, EncodingKey, Header};
use serde_json::Value;

const ACCESS_KEY: &str = "access-key-for-tests";
const REFRESH_KEY: &str = "refresh-key-for-tests";
const T: usize = 1_700_000_000;

fn secret() -> Secret {
    Secret {
        refresh: REFRESH_KEY.to_string(),
        access: ACCESS_KEY.to_string(),
        salt: "salt-for-tests".to_string(),
    }
}

/// A token with the given header and payload entries, signed by hand.
fn forged(algorithm: Algorithm, exp: Option<Value>, section: &str, entries: &[(&str, Value)], key: &str) -> String {
    let mut identity = serde_json::Map::new();
    for (name, value) in entries {
        identity.insert(name.to_string(), value.clone());
    }
    let mut payload = serde_json::Map::new();
    if let Some(exp) = exp {
        payload.insert("exp".to_string(), exp);
    }
    payload.insert(section.to_string(), Value::Object(identity));
    jsonwebtoken::encode(&Header::new(algorithm), &payload, &EncodingKey::from_secret(key.as_bytes()))
        .unwrap()
}

#[test]
fn access_token_reads_back_as_issued() {
    let token = issue_access("alice", "Alice A.", ACCESS_KEY, T).unwrap();
    let claims = decode_access(&token, ACCESS_KEY, T).unwrap();
    assert_eq!(claims.exp, T + 300);
    assert_eq!(claims.custom.username, "alice");
    assert_eq!(claims.custom.name, "Alice A.");
}

#[test]
fn access_token_reads_back_for_short_and_long_usernames() {
    let long = "u".repeat(64);
    for username in ["a", long.as_str(), "v\u{1edb}i-d\u{1ea5}u", "quote\"and\\slash"] {
        let token = issue_access(username, "", ACCESS_KEY, T).unwrap();
        let claims = decode_access(&token, ACCESS_KEY, T + 1).unwrap();
        assert_eq!(claims.custom.username, username);
        assert_eq!(claims.custom.name, "");
    }
}

#[test]
fn token_has_the_compact_form_of_three_parts() {
    let token = issue_access("alice", "Alice", ACCESS_KEY, T).unwrap();
    assert_eq!(token.split('.').count(), 3);
    // The header that the default configuration writes: {"typ":"JWT","alg":"HS256"}.
    assert_eq!(token.split('.').next().unwrap(), "eyJ0eXAiOiJKV1QiLCJhbGciOiJIUzI1NiJ9");
}

#[test]
fn issuing_is_a_function_of_its_arguments() {
    let first = issue_refresh("alice", REFRESH_KEY, T).unwrap();
    let second = issue_refresh("alice", REFRESH_KEY, T).unwrap();
    assert_eq!(first, second);
    assert_ne!(first, issue_refresh("alice", REFRESH_KEY, T + 1).unwrap());
    assert_ne!(first, issue_refresh("bob", REFRESH_KEY, T).unwrap());
    assert_ne!(first, issue_refresh("alice", ACCESS_KEY, T).unwrap());
}

#[test]
fn access_token_lives_five_minutes() {
    let token = issue_access("alice", "Alice", ACCESS_KEY, T).unwrap();
    assert!(decode_access(&token, ACCESS_KEY, T + 299).is_ok());
    assert_eq!(decode_access(&token, ACCESS_KEY, T + 300).unwrap_err(), TokenError::Expired);
    assert_eq!(decode_access(&token, ACCESS_KEY, T + 301).unwrap_err(), TokenError::Expired);
}

#[test]
fn refresh_token_lives_seven_days() {
    let token = issue_refresh("alice", REFRESH_KEY, T).unwrap();
    let claims = decode_refresh(&token, REFRESH_KEY, T + 604_799).unwrap();
    assert_eq!(claims.exp, T + 604_800);
    assert_eq!(claims.id.username, "alice");
    assert_eq!(decode_refresh(&token, REFRESH_KEY, T + 604_800).unwrap_err(), TokenError::Expired);
    assert_eq!(decode_refresh(&token, REFRESH_KEY, T + 604_801).unwrap_err(), TokenError::Expired);
}

#[test]
fn keys_do_not_stand_in_for_each_other() {
    let access = issue_access("alice", "Alice", ACCESS_KEY, T).unwrap();
    let refresh = issue_refresh("alice", REFRESH_KEY, T).unwrap();
    assert_eq!(decode_access(&access, REFRESH_KEY, T).unwrap_err(), TokenError::BadSignature);
    assert_eq!(decode_access(&refresh, ACCESS_KEY, T).unwrap_err(), TokenError::BadSignature);
    assert_eq!(decode_refresh(&refresh, ACCESS_KEY, T).unwrap_err(), TokenError::BadSignature);
    assert_eq!(decode_refresh(&access, REFRESH_KEY, T).unwrap_err(), TokenError::BadSignature);
}

#[test]
fn bad_signature_is_told_from_expiry() {
    let token = issue_access("alice", "Alice", ACCESS_KEY, T).unwrap();
    // Expired and under the wrong key: the signature is judged first.
    assert_eq!(decode_access(&token, REFRESH_KEY, T + 1000).unwrap_err(), TokenError::BadSignature);
    assert_eq!(decode_access(&token, ACCESS_KEY, T + 1000).unwrap_err(), TokenError::Expired);
}

#[test]
fn token_of_one_kind_is_no_token_of_the_other() {
    // Signed with the right key, but the identity stands in the other section.
    let refresh_shaped = issue_refresh("alice", ACCESS_KEY, T).unwrap();
    assert_eq!(decode_access(&refresh_shaped, ACCESS_KEY, T).unwrap_err(), TokenError::Malformed);
    let access_shaped = issue_access("alice", "Alice", REFRESH_KEY, T).unwrap();
    assert_eq!(decode_refresh(&access_shaped, REFRESH_KEY, T).unwrap_err(), TokenError::Malformed);
}

#[test]
fn what_is_no_token_is_malformed() {
    for token in ["", "abc", "a.b", "a.b.c", "a.b.c.d", "..", "eyJ0eXAiOiJKV1QiLCJhbGciOiJIUzI1NiJ9.e30"] {
        assert_eq!(decode_access(token, ACCESS_KEY, T).unwrap_err(), TokenError::Malformed, "{token:?}");
        assert_eq!(decode_refresh(token, REFRESH_KEY, T).unwrap_err(), TokenError::Malformed, "{token:?}");
    }
}

#[test]
fn another_algorithm_is_a_bad_signature() {
    let entries = [("username", Value::from("alice")), ("name", Value::from("Alice"))];
    let exp = Some(Value::from(T + 300));
    let hs512 = forged(Algorithm::HS512, exp.clone(), "custom", &entries, ACCESS_KEY);
    assert_eq!(decode_access(&hs512, ACCESS_KEY, T).unwrap_err(), TokenError::BadSignature);
    let hs384 = forged(Algorithm::HS384, exp.clone(), "custom", &entries, ACCESS_KEY);
    assert_eq!(decode_access(&hs384, ACCESS_KEY, T).unwrap_err(), TokenError::BadSignature);
    let hs256 = forged(Algorithm::HS256, exp, "custom", &entries, ACCESS_KEY);
    assert!(decode_access(&hs256, ACCESS_KEY, T).is_ok());
}

#[test]
fn unsigned_token_is_not_accepted() {
    // {"typ":"JWT","alg":"none"} with the payload of a good token and no signature.
    let good = issue_access("alice", "Alice", ACCESS_KEY, T).unwrap();
    let payload = good.split('.').nth(1).unwrap();
    let unsigned = format!("eyJ0eXAiOiJKV1QiLCJhbGciOiJub25lIn0.{payload}.");
    assert!(decode_access(&unsigned, ACCESS_KEY, T).is_err());
    let stripped = format!("{}.{payload}.", good.split('.').next().unwrap());
    assert_eq!(decode_access(&stripped, ACCESS_KEY, T).unwrap_err(), TokenError::BadSignature);
}

#[test]
fn flipped_bit_is_not_accepted() {
    let good = issue_access("alice", "Alice", ACCESS_KEY, T).unwrap();
    for position in 0..good.len() {
        let mut bytes = good.clone().into_bytes();
        bytes[position] ^= 1;
        if let Ok(flipped) = String::from_utf8(bytes) {
            assert!(decode_access(&flipped, ACCESS_KEY, T).is_err(), "position {position}");
        }
    }
}

#[test]
fn payload_that_lacks_an_entry_is_malformed() {
    let exp = Some(Value::from(T + 300));
    let no_name = forged(Algorithm::HS256, exp.clone(), "custom", &[("username", Value::from("alice"))], ACCESS_KEY);
    assert_eq!(decode_access(&no_name, ACCESS_KEY, T).unwrap_err(), TokenError::Malformed);
    let no_username = forged(Algorithm::HS256, exp.clone(), "custom", &[("name", Value::from("Alice"))], ACCESS_KEY);
    assert_eq!(decode_access(&no_username, ACCESS_KEY, T).unwrap_err(), TokenError::Malformed);
    let number_for_name = forged(
        Algorithm::HS256,
        exp.clone(),
        "custom",
        &[("username", Value::from("alice")), ("name", Value::from(7))],
        ACCESS_KEY,
    );
    assert_eq!(decode_access(&number_for_name, ACCESS_KEY, T).unwrap_err(), TokenError::Malformed);
    let no_exp = forged(
        Algorithm::HS256,
        None,
        "custom",
        &[("username", Value::from("alice")), ("name", Value::from("Alice"))],
        ACCESS_KEY,
    );
    assert_eq!(decode_access(&no_exp, ACCESS_KEY, T).unwrap_err(), TokenError::Malformed);
    let text_for_exp = forged(
        Algorithm::HS256,
        Some(Value::from("tomorrow")),
        "custom",
        &[("username", Value::from("alice")), ("name", Value::from("Alice"))],
        ACCESS_KEY,
    );
    assert_eq!(decode_access(&text_for_exp, ACCESS_KEY, T).unwrap_err(), TokenError::Malformed);
    let refresh_without_user = forged(Algorithm::HS256, exp, "id", &[], REFRESH_KEY);
    assert_eq!(decode_refresh(&refresh_without_user, REFRESH_KEY, T).unwrap_err(), TokenError::Malformed);
}

#[test]
fn refresh_token_may_carry_more_than_it_needs() {
    let token = forged(
        Algorithm::HS256,
        Some(Value::from(T + 10)),
        "id",
        &[("username", Value::from("alice")), ("name", Value::from("Alice"))],
        REFRESH_KEY,
    );
    let claims = decode_refresh(&token, REFRESH_KEY, T).unwrap();
    assert_eq!(claims.exp, T + 10);
    assert_eq!(claims.id.username, "alice");
}

#[test]
fn expiry_is_compared_strictly() {
    let payload = |exp: u64| Payload { exp: Some(exp), username: Some("alice".to_string()), name: Some("Alice".to_string()) };
    assert_eq!(judge_access(Ok(payload(100)), 99).unwrap().exp, 100);
    assert_eq!(judge_access(Ok(payload(100)), 100).unwrap_err(), TokenError::Expired);
    assert_eq!(judge_access(Ok(payload(100)), 101).unwrap_err(), TokenError::Expired);
    assert_eq!(judge_access(Ok(payload(0)), 0).unwrap_err(), TokenError::Expired);
    assert_eq!(judge_refresh(Ok(payload(100)), 99).unwrap().id.username, "alice");
    assert_eq!(judge_refresh(Ok(payload(100)), 100).unwrap_err(), TokenError::Expired);
}

#[test]
fn verdict_follows_what_the_decoder_found() {
    let now = 50;
    let full = Payload { exp: Some(100), username: Some("alice".to_string()), name: Some("Alice".to_string()) };
    let claims = judge_access(Ok(full.clone()), now).unwrap();
    assert_eq!((claims.exp, claims.custom.username.as_str(), claims.custom.name.as_str()), (100, "alice", "Alice"));
    let nameless = Payload { name: None, ..full.clone() };
    assert_eq!(judge_access(Ok(nameless.clone()), now).unwrap_err(), TokenError::Malformed);
    assert_eq!(judge_refresh(Ok(nameless), now).unwrap().id.username, "alice");
    let userless = Payload { username: None, ..full.clone() };
    assert_eq!(judge_access(Ok(userless.clone()), now).unwrap_err(), TokenError::Malformed);
    assert_eq!(judge_refresh(Ok(userless), now).unwrap_err(), TokenError::Malformed);
    let timeless = Payload { exp: None, ..full.clone() };
    assert_eq!(judge_access(Ok(timeless.clone()), now).unwrap_err(), TokenError::Malformed);
    assert_eq!(judge_refresh(Ok(timeless), now).unwrap_err(), TokenError::Malformed);
    // Malformed wins over expired.
    let old_and_nameless = Payload { exp: Some(1), name: None, ..full };
    assert_eq!(judge_access(Ok(old_and_nameless), now).unwrap_err(), TokenError::Malformed);
    assert_eq!(judge_access(Err(DecodeFailure::InvalidSignature), now).unwrap_err(), TokenError::BadSignature);
    assert_eq!(judge_access(Err(DecodeFailure::InvalidAlgorithm), now).unwrap_err(), TokenError::BadSignature);
    assert_eq!(judge_access(Err(DecodeFailure::Other), now).unwrap_err(), TokenError::Malformed);
    assert_eq!(judge_refresh(Err(DecodeFailure::InvalidSignature), now).unwrap_err(), TokenError::BadSignature);
    assert_eq!(judge_refresh(Err(DecodeFailure::Other), now).unwrap_err(), TokenError::Malformed);
}

#[test]
fn refusals_are_classified() {
    assert_eq!(classify(DecodeFailure::InvalidSignature), TokenError::BadSignature);
    assert_eq!(classify(DecodeFailure::InvalidAlgorithm), TokenError::BadSignature);
    assert_eq!(classify(DecodeFailure::Other), TokenError::Malformed);
}

#[test]
fn no_token_is_issued_at_the_end_of_time() {
    assert_eq!(issue_access("alice", "Alice", ACCESS_KEY, usize::MAX).unwrap_err(), TokenError::Malformed);
    assert_eq!(issue_access("alice", "Alice", ACCESS_KEY, usize::MAX - 299).unwrap_err(), TokenError::Malformed);
    assert_eq!(issue_refresh("alice", REFRESH_KEY, usize::MAX - 604_799).unwrap_err(), TokenError::Malformed);
    let last = issue_access("alice", "Alice", ACCESS_KEY, usize::MAX - 300).unwrap();
    assert_eq!(decode_access(&last, ACCESS_KEY, usize::MAX - 1).unwrap().exp, usize::MAX);
}

#[test]
fn tokens_issued_by_the_clock_are_valid_now() {
    let before = now();
    let access = encode_access_token("alice".to_string(), "Alice".to_string(), &secret()).unwrap();
    let refresh = encode_refresh_token("alice".to_string(), &secret()).unwrap();
    let after = now();
    let claims = decode_access(&access, ACCESS_KEY, after).unwrap();
    assert!(before + 300 <= claims.exp && claims.exp <= after + 300);
    assert_eq!(claims.custom.username, "alice");
    assert_eq!(claims.custom.name, "Alice");
    let claims = decode_refresh(&refresh, REFRESH_KEY, after).unwrap();
    assert!(before + 604_800 <= claims.exp && claims.exp <= after + 604_800);
    assert_eq!(claims.id.username, "alice");
}
