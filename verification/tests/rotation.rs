use auth_lib::issuer::issue_refresh;
use auth_lib::rotation::{judge_session, rotate, Rotation, SessionState};
use auth_lib::validator::{decode_refresh, TokenError};

const KEY: &str = "refresh-key";
const T: usize = 1_700_000_000;
const WEEK: usize = 604_800;

fn replacement(rotation: Rotation) -> String {
    match rotation {
        Rotation::Replace(token) => token,
        Rotation::Keep => panic!("the stored token was kept"),
    }
}

#[test]
fn valid_session_keeps_its_token() {
    let stored = issue_refresh("alice", KEY, T).unwrap();
    for now in [T, T + 1, T + WEEK - 1] {
        assert!(matches!(rotate(&stored, "alice", KEY, now).unwrap(), Rotation::Keep));
    }
}

#[test]
fn expired_session_gets_a_new_token() {
    let stored = issue_refresh("alice", KEY, T).unwrap();
    let expiry = T + WEEK;
    for now in [expiry, expiry + 1, expiry + 3 * WEEK] {
        let token = replacement(rotate(&stored, "alice", KEY, now).unwrap());
        assert_ne!(token, stored);
        let claims = decode_refresh(&token, KEY, now).unwrap();
        assert_eq!(claims.exp, now + WEEK);
        assert!(claims.exp > expiry);
        assert_eq!(claims.id.username, "alice");
        assert_eq!(token, issue_refresh("alice", KEY, now).unwrap());
    }
}

#[test]
fn broken_token_is_replaced_not_failed() {
    let foreign = issue_refresh("alice", "another-key", T).unwrap();
    for stored in ["", "garbage", foreign.as_str()] {
        let token = replacement(rotate(stored, "alice", KEY, T).unwrap());
        assert_eq!(decode_refresh(&token, KEY, T).unwrap().exp, T + WEEK);
    }
}

#[test]
fn rotation_fails_where_no_token_can_be_issued() {
    assert_eq!(rotate("garbage", "alice", KEY, usize::MAX).unwrap_err(), TokenError::Malformed);
}

#[test]
fn session_is_valid_exactly_when_the_token_reads() {
    let stored = issue_refresh("alice", KEY, T).unwrap();
    assert_eq!(judge_session(&decode_refresh(&stored, KEY, T)), SessionState::Valid);
    assert_eq!(judge_session(&decode_refresh(&stored, KEY, T + WEEK)), SessionState::Expired);
    assert_eq!(judge_session(&decode_refresh(&stored, "another-key", T)), SessionState::Expired);
    assert_eq!(judge_session(&decode_refresh("garbage", KEY, T)), SessionState::Expired);
    assert_eq!(judge_session(&Err(TokenError::Malformed)), SessionState::Expired);
    assert_eq!(judge_session(&Err(TokenError::BadSignature)), SessionState::Expired);
    assert_eq!(judge_session(&Err(TokenError::Expired)), SessionState::Expired);
}
