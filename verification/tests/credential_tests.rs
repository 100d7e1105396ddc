use pipe_cli::api_key::{ApiKey, InvalidAPIKey};
use pipe_cli::user::{CredState, CredentialManager, User, UserInfo};

#[test]
fn valid_probe_verifies_first_attempt() {
    let mut m = CredentialManager::new();
    let reply = r#"{"data":{"me":{"name":"Ada"}}}"#.to_string();
    let r = m.offer("good-key".to_string(), Some(reply));
    assert!(r.is_ok());
    assert_eq!(m.attempts, 1);
    assert_eq!(
        m.state,
        CredState::Verified(User {
            api_key: "good-key".to_string(),
            info: UserInfo { name: "Ada".to_string(), id: 0 },
        })
    );
}

#[test]
fn bad_then_good_key_takes_two_attempts() {
    let mut m = CredentialManager::new();
    let bad_reply = r#"{"errors":[{"message":"denied"}]}"#.to_string();
    let r1 = m.offer("bad-key".to_string(), Some(bad_reply));
    assert!(r1.is_err());
    assert_eq!(m.attempts, 1);
    assert_eq!(m.state, CredState::Unverified);
    assert!(m.session().is_none());

    let good_reply = r#"{"data":{"me":{"name":"Ada"}}}"#.to_string();
    let r2 = m.offer("good-key".to_string(), Some(good_reply));
    assert!(r2.is_ok());
    assert_eq!(m.attempts, 2);
    let session = m.session().unwrap();
    assert_eq!(session.api_key, "good-key");
    assert_eq!(session.info.name, "Ada");
}

#[test]
fn scripted_retries_terminate_after_n_plus_one() {
    let n = 5;
    let mut m = CredentialManager::new();
    let mut probes = 0u64;
    let mut script: Vec<(String, Option<String>)> = Vec::new();
    for i in 0..n {
        script.push((format!("bad-{}", i), Some(r#"{"data":{"me":{"name":7}}}"#.to_string())));
    }
    script.push(("good".to_string(), Some(r#"{"data":{"me":{"name":"Ada"}}}"#.to_string())));
    for (key, reply) in script {
        probes += 1;
        if m.offer(key, reply).is_ok() {
            break;
        }
    }
    assert_eq!(probes, (n as u64) + 1);
    assert_eq!(m.attempts, (n as u64) + 1);
    let session = m.session().unwrap();
    assert_eq!(session.api_key, "good");
    assert_eq!(session.info.name, "Ada");
}

#[test]
fn transport_failure_counts_as_invalid() {
    let mut m = CredentialManager::new();
    let r = m.offer("key".to_string(), None);
    assert!(r.is_err());
    assert_eq!(m.state, CredState::Unverified);
}

#[test]
fn invalid_key_error_message() {
    let e = InvalidAPIKey::new();
    assert_eq!(e.message(), "InvalidAPIKey used");
}

#[test]
fn api_key_default_is_blank() {
    let k = ApiKey::default();
    assert!(k.api_key.is_none());
    assert_eq!(k.name, "");
}

#[test]
fn user_default_is_blank() {
    let u = User::default();
    assert_eq!(u.api_key, "");
    assert_eq!(u.info.name, "");
    assert_eq!(u.info.id, 0);
}
