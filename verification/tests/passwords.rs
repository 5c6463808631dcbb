use auth_lib::forms::{LoginForm, RegisterForm};
use auth_lib::password::{hash_password, names_default_cost, verify_password, Authorize, Generate};

const SALT: &[u8] = b"somesalt";
/// The hash of "password" with the salt "somesalt" under the default cost.
const KNOWN: &str = "$argon2i$v=19$m=4096,t=3,p=1$c29tZXNhbHQ$iWh06vD8Fy27wf9npn6FXWiCX4K6pW6Ue1Bnzz07Z8A";

fn login(password: &str) -> LoginForm {
    LoginForm { username: "alice".to_string(), password: password.to_string() }
}

fn registration(password: &str) -> RegisterForm {
    RegisterForm {
        username: "alice".to_string(),
        email: "a@x.com".to_string(),
        password: password.to_string(),
        name: None,
        photo_url: None,
    }
}

#[test]
fn hash_is_the_encoded_argon2_hash() {
    assert_eq!(hash_password("password", SALT), KNOWN);
    assert_eq!(registration("password").generate_pwsh(SALT), KNOWN);
}

#[test]
fn password_passes_against_its_hash() {
    let hash = hash_password("pw1", b"randomsalt");
    assert!(hash.starts_with("$argon2i$v=19$m=4096,t=3,p=1$"));
    assert!(verify_password("pw1", &hash));
    assert!(login("pw1").verify_pwsh(&hash));
}

#[test]
fn other_password_does_not_pass() {
    let hash = hash_password("pw1", b"randomsalt");
    for other in ["pw2", "", "pw1 ", "PW1", "pw"] {
        assert!(!verify_password(other, &hash), "{other:?}");
        assert!(!login(other).verify_pwsh(&hash), "{other:?}");
    }
    assert!(verify_password("password", KNOWN));
    assert!(!verify_password("passwore", KNOWN));
}

#[test]
fn empty_password_passes_against_its_hash_only() {
    let hash = hash_password("", b"randomsalt");
    assert!(!hash.is_empty());
    assert!(verify_password("", &hash));
    assert!(!verify_password(" ", &hash));
    assert!(!verify_password("", &hash_password("x", b"randomsalt")));
}

#[test]
fn long_password_passes_against_its_hash_only() {
    let long = "p".repeat(255);
    let hash = hash_password(&long, b"randomsalt");
    assert!(verify_password(&long, &hash));
    assert!(!verify_password(&"p".repeat(254), &hash));
    assert!(!verify_password(&"p".repeat(256), &hash));
    let mut other = "p".repeat(254);
    other.push('q');
    assert!(!verify_password(&other, &hash));
}

#[test]
fn salt_makes_the_hash() {
    let first = hash_password("pw1", b"saltsalt");
    let second = hash_password("pw1", b"saltsalu");
    assert_ne!(first, second);
    assert!(verify_password("pw1", &first));
    assert!(verify_password("pw1", &second));
    assert_eq!(first, hash_password("pw1", b"saltsalt"));
}

#[test]
fn refused_salt_gives_no_hash() {
    // The hasher wants eight bytes of salt at least.
    assert_eq!(hash_password("pw1", b"short"), "");
    assert_eq!(hash_password("pw1", b""), "");
    assert_eq!(registration("pw1").generate_pwsh(b"1234567"), "");
    assert_ne!(registration("pw1").generate_pwsh(b"12345678"), "");
    assert!(!verify_password("pw1", ""));
    assert!(!verify_password("", ""));
}

#[test]
fn what_is_no_hash_is_no_error() {
    for hash in [
        "",
        "$",
        "not a hash",
        "$argon2i$v=19$m=4096,t=3,p=1$",
        "$argon2i$v=19$m=4096,t=3,p=1$c29tZXNhbHQ",
        "$argon2i$v=19$m=4096,t=3,p=1$c29tZXNhbHQ$",
        "$argon2i$v=19$m=4096,t=3,p=1$c29tZXNhbHQ$!!!!",
        "$argon2i$v=19$m=4096,t=3,p=1$c29tZXNhbHQ$iWh06vD8Fy27wf9npn6FXWiCX4K6pW6Ue1Bnzz07Z8A$",
        "$argon2i$v=19$m=4096,t=3,p=1$$iWh06vD8Fy27wf9npn6FXWiCX4K6pW6Ue1Bnzz07Z8A",
    ] {
        assert!(!verify_password("password", hash), "{hash:?}");
        assert!(!login("password").verify_pwsh(&hash.to_string()), "{hash:?}");
    }
}

#[test]
fn hash_of_another_cost_is_not_checked() {
    // Encoded hashes that name another variant, version or cost than the
    // default are turned down before the hasher sees them.
    for hash in [
        "$argon2d$v=19$m=4096,t=3,p=1$c29tZXNhbHQ$2+JCoQtY/2x5F0VB9pEVP3xBNguWP1T25Ui0PtZuk8o",
        "$argon2id$v=19$m=4096,t=3,p=1$c29tZXNhbHQ$qLml5cbqFAO6YxVHhrSBHP0UWdxrIxkNcM8aMX3blzU",
        "$argon2i$m=4096,t=3,p=1$c29tZXNhbHQ$iWh06vD8Fy27wf9npn6FXWiCX4K6pW6Ue1Bnzz07Z8A",
        "$argon2i$v=19$m=4294967295,t=4294967295,p=1$c29tZXNhbHQ$iWh06vD8Fy27wf9npn6FXWiCX4K6pW6Ue1Bnzz07Z8A",
    ] {
        assert!(!names_default_cost(hash), "{hash:?}");
        assert!(!verify_password("password", hash), "{hash:?}");
    }
    assert!(names_default_cost(KNOWN));
    assert!(names_default_cost("$argon2i$v=19$m=4096,t=3,p=1$"));
    assert!(!names_default_cost("$argon2i$v=19$m=4096,t=3,p=1"));
    assert!(!names_default_cost(" $argon2i$v=19$m=4096,t=3,p=1$"));
    assert!(!names_default_cost(""));
}
