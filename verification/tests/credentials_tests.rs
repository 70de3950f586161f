use hajime::credentials::get_or_prompt;
use hajime::{PyPiConfig, TokenStore};

#[test]
fn missing_account_name_falls_back_to_default() {
    let config = PyPiConfig::new(None);
    assert_eq!(config.account(), "default");
}

#[test]
fn named_account_is_kept() {
    let config = PyPiConfig::new(Some("alice".to_string()));
    assert_eq!(config.account(), "alice");
}

#[test]
fn storage_key_composes_prefix_and_account() {
    let config = PyPiConfig::new(Some("alice".to_string()));
    assert_eq!(config.storage_key(), "pypi-token-alice");
    let config = PyPiConfig::new(None);
    assert_eq!(config.storage_key(), "pypi-token-default");
}

#[test]
fn empty_store_has_no_token() {
    let store = TokenStore::new();
    assert_eq!(store.lookup("pypi-token-alice"), None);
}

#[test]
fn stored_token_is_found_again() {
    let mut store = TokenStore::new();
    store.store("pypi-token-alice", "tok-1");
    assert_eq!(store.lookup("pypi-token-alice"), Some("tok-1".to_string()));
    assert_eq!(store.lookup("pypi-token-bob"), None);
}

#[test]
fn storing_again_overwrites() {
    let mut store = TokenStore::new();
    store.store("pypi-token-alice", "tok-1");
    store.store("pypi-token-alice", "tok-2");
    assert_eq!(store.lookup("pypi-token-alice"), Some("tok-2".to_string()));
}

#[test]
fn first_retrieval_prompts_once_then_persists() {
    let mut store = TokenStore::new();
    let (token, prompted) = get_or_prompt(&mut store, "pypi-token-alice", false, "entered-1");
    assert!(prompted);
    assert_eq!(token, "entered-1");
    // An immediately following retrieval needs no prompt and returns the
    // persisted token, whatever would be entered the second time.
    let (token, prompted) = get_or_prompt(&mut store, "pypi-token-alice", false, "entered-2");
    assert!(!prompted);
    assert_eq!(token, "entered-1");
}

#[test]
fn override_always_prompts_and_overwrites() {
    let mut store = TokenStore::new();
    store.store("pypi-token-alice", "tok-old");
    let (token, prompted) = get_or_prompt(&mut store, "pypi-token-alice", true, "tok-new");
    assert!(prompted);
    assert_eq!(token, "tok-new");
    assert_eq!(store.lookup("pypi-token-alice"), Some("tok-new".to_string()));
}

#[test]
fn retrieval_for_another_account_prompts_separately() {
    let mut store = TokenStore::new();
    store.store("pypi-token-alice", "tok-a");
    let (token, prompted) = get_or_prompt(&mut store, "pypi-token-bob", false, "tok-b");
    assert!(prompted);
    assert_eq!(token, "tok-b");
    assert_eq!(store.lookup("pypi-token-alice"), Some("tok-a".to_string()));
}
