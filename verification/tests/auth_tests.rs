use grom::auth::{AuthStrategy, CredentialNegotiator};
use grom::auth::url_is_ssh;
use grom::SyncError;

#[test]
fn ssh_scheme_urls_are_ssh() {
    assert!(url_is_ssh("ssh://git@host/notes.git"));
    assert!(url_is_ssh("ssh://host/notes.git"));
}

#[test]
fn scp_style_urls_are_ssh() {
    assert!(url_is_ssh("git@github.com:someone/notes.git"));
}

#[test]
fn https_urls_are_not_ssh() {
    assert!(!url_is_ssh("https://github.com/someone/notes.git"));
    assert!(!url_is_ssh("http://host/notes.git"));
}

#[test]
fn short_urls_are_not_ssh() {
    assert!(!url_is_ssh(""));
    assert!(!url_is_ssh("git"));
    assert!(!url_is_ssh("ssh:/"));
}

#[test]
fn ssh_url_uses_hinted_username() {
    let mut negotiator = CredentialNegotiator::new();
    let strategy = negotiator.next_strategy("ssh://host/notes.git", Some("alice")).unwrap();
    assert_eq!(strategy, AuthStrategy::AgentKey(String::from("alice")));
    assert_eq!(negotiator.attempts, 1);
}

#[test]
fn ssh_url_defaults_to_git_username() {
    let mut negotiator = CredentialNegotiator::new();
    let strategy = negotiator.next_strategy("git@host:notes.git", None).unwrap();
    assert_eq!(strategy, AuthStrategy::AgentKey(String::from("git")));
}

#[test]
fn non_ssh_url_prompts_interactively() {
    let mut negotiator = CredentialNegotiator::new();
    let strategy = negotiator.next_strategy("https://host/notes.git", None).unwrap();
    assert_eq!(strategy, AuthStrategy::UserPass);
}

#[test]
fn rejected_first_credential_exhausts_the_budget() {
    // A remote that rejects the first credential triggers a second
    // callback; the negotiator must refuse it instead of prompting again.
    let mut negotiator = CredentialNegotiator::new();
    let first = negotiator.next_strategy("https://host/notes.git", None);
    assert!(first.is_ok());
    let second = negotiator.next_strategy("https://host/notes.git", None);
    assert_eq!(second, Err(SyncError::AuthExhausted));
    assert_eq!(negotiator.attempts, 1);
    let third = negotiator.next_strategy("ssh://host/notes.git", Some("alice"));
    assert_eq!(third, Err(SyncError::AuthExhausted));
}

#[test]
fn agent_failure_falls_back_to_prompt() {
    let negotiator = CredentialNegotiator::new();
    assert_eq!(negotiator.agent_fallback(), AuthStrategy::UserPass);
}
