use horizon::error::BrowserError;
use horizon::storage::passwords::{normalize_url, PasswordEntry, PasswordManager};

#[test]
fn test_password_manager_creation() {
    let manager = PasswordManager::new();
    assert_eq!(manager.count(), 0);
}

#[test]
fn test_add_password() {
    let mut manager = PasswordManager::new();
    let result = manager.add_password(
        "https://example.com".to_string(),
        "user@example.com".to_string(),
        "password123".to_string(),
    );
    assert!(result.is_ok());
    assert_eq!(manager.count(), 1);
}

#[test]
fn test_get_passwords_for_url() {
    let mut manager = PasswordManager::new();
    manager
        .add_password(
            "https://example.com".to_string(),
            "user1@example.com".to_string(),
            "pass1".to_string(),
        )
        .unwrap();
    manager
        .add_password(
            "https://example.com".to_string(),
            "user2@example.com".to_string(),
            "pass2".to_string(),
        )
        .unwrap();

    let passwords = manager.get_passwords_for_url("https://example.com");
    assert_eq!(passwords.len(), 2);
}

#[test]
fn test_url_normalization() {
    let mut manager = PasswordManager::new();
    manager
        .add_password(
            "https://example.com/".to_string(),
            "user@example.com".to_string(),
            "password".to_string(),
        )
        .unwrap();

    let passwords1 = manager.get_passwords_for_url("http://example.com");
    let passwords2 = manager.get_passwords_for_url("https://example.com/");
    assert_eq!(passwords1.len(), 1);
    assert_eq!(passwords2.len(), 1);
}

#[test]
fn test_duplicate_prevention() {
    let mut manager = PasswordManager::new();
    manager
        .add_password(
            "https://example.com".to_string(),
            "user@example.com".to_string(),
            "pass1".to_string(),
        )
        .unwrap();

    let result = manager.add_password(
        "https://example.com".to_string(),
        "user@example.com".to_string(),
        "pass2".to_string(),
    );
    assert!(result.is_err());
}

#[test]
fn test_update_password() {
    let mut manager = PasswordManager::new();
    manager
        .add_password(
            "https://example.com".to_string(),
            "user@example.com".to_string(),
            "oldpass".to_string(),
        )
        .unwrap();

    let result = manager.update_password(
        "https://example.com",
        "user@example.com",
        "newpass".to_string(),
    );
    assert!(result.is_ok());

    let entry = manager.get_password("https://example.com", "user@example.com");
    assert_eq!(entry.unwrap().get_password(), "newpass");
}

#[test]
fn test_delete_password() {
    let mut manager = PasswordManager::new();
    manager
        .add_password(
            "https://example.com".to_string(),
            "user@example.com".to_string(),
            "password".to_string(),
        )
        .unwrap();

    assert_eq!(manager.count(), 1);

    let result = manager.delete_password("https://example.com", "user@example.com");
    assert!(result.is_ok());
    assert_eq!(manager.count(), 0);
}

#[test]
fn test_search() {
    let mut manager = PasswordManager::new();
    manager
        .add_password(
            "https://example.com".to_string(),
            "alice@example.com".to_string(),
            "pass1".to_string(),
        )
        .unwrap();
    manager
        .add_password(
            "https://test.com".to_string(),
            "bob@test.com".to_string(),
            "pass2".to_string(),
        )
        .unwrap();

    let results = manager.search("alice");
    assert_eq!(results.len(), 1);
    assert_eq!(results[0].username, "alice@example.com");

    let results = manager.search("test");
    assert_eq!(results.len(), 1);
}

#[test]
fn normalize_strips_scheme_www_slashes_and_case() {
    assert_eq!(normalize_url("https://www.Example.COM//"), "example.com");
    assert_eq!(normalize_url("http://example.com"), "example.com");
    assert_eq!(normalize_url("example.com/path/"), "example.com/path");
    assert_eq!(normalize_url(""), "");
}

#[test]
fn entry_keeps_normalized_site_and_counts_uses() {
    let mut e = PasswordEntry::new("HTTPS://Site.test/".to_string(), "u".to_string(), "p".to_string());
    assert_eq!(e.domain(), "https://site.test");
    assert_eq!(e.get_password(), "p");
    assert_eq!(e.use_count, 0);
    e.increment_use_count();
    assert_eq!(e.use_count, 1);
    e.update_password("q".to_string());
    assert_eq!(e.get_password(), "q");
}

#[test]
fn missing_login_errors() {
    let mut manager = PasswordManager::new();
    assert_eq!(manager.update_password("a.com", "u", "p".to_string()), Err(BrowserError::PasswordNotFound));
    assert_eq!(manager.delete_password("a.com", "u"), Err(BrowserError::PasswordNotFound));
    assert!(manager.get_password("a.com", "u").is_none());
    assert!(!manager.is_modified());
}

#[test]
fn duplicate_add_is_refused_and_changes_nothing() {
    let mut manager = PasswordManager::new();
    manager.add_password("https://a.com".to_string(), "u".to_string(), "p1".to_string()).unwrap();
    let r = manager.add_password("http://www.a.com/".to_string(), "u".to_string(), "p2".to_string());
    assert_eq!(r, Err(BrowserError::PasswordExists));
    assert_eq!(manager.count(), 1);
    assert_eq!(manager.get_passwords_for_url("a.com")[0].get_password(), "p1");
}

#[test]
fn urls_are_listed_once_each() {
    let mut manager = PasswordManager::new();
    manager.add_password("https://a.com".to_string(), "u1".to_string(), "p".to_string()).unwrap();
    manager.add_password("https://b.com".to_string(), "u1".to_string(), "p".to_string()).unwrap();
    manager.add_password("https://a.com".to_string(), "u2".to_string(), "p".to_string()).unwrap();
    assert_eq!(manager.get_all_urls(), vec!["a.com".to_string(), "b.com".to_string()]);
    assert_eq!(manager.get_all_entries().len(), 3);
    assert!(manager.is_modified());
    manager.clear_all();
    assert_eq!(manager.count(), 0);
    assert!(manager.get_all_urls().is_empty());
}

#[test]
fn autofill_offers_each_login_of_the_site() {
    let mut manager = PasswordManager::new();
    manager.add_password("https://a.com".to_string(), "u1".to_string(), "p".to_string()).unwrap();
    manager.add_password("https://b.com".to_string(), "u2".to_string(), "p".to_string()).unwrap();
    manager.add_password("https://a.com".to_string(), "u3".to_string(), "p".to_string()).unwrap();
    let s = manager.get_autofill_suggestions("a.com/");
    assert_eq!(s.len(), 2);
    assert_eq!(s[0].username, "u1");
    assert_eq!(s[1].username, "u3");
    assert_eq!(s[0].use_count, 0);
    assert!(s[0].display_name.is_none());
}

#[test]
fn search_ignores_case() {
    let mut manager = PasswordManager::new();
    manager.add_password("https://a.com".to_string(), "Alice".to_string(), "p".to_string()).unwrap();
    assert_eq!(manager.search("ALICE").len(), 1);
    assert_eq!(manager.search("zzz").len(), 0);
}

#[test]
fn storage_path_is_kept() {
    let manager = PasswordManager::with_storage_path("/tmp/p.json".to_string());
    assert_eq!(manager.storage_path().map(|s| s.as_str()), Some("/tmp/p.json"));
    assert!(PasswordManager::default().storage_path().is_none());
}

#[test]
fn restored_entries_are_kept_once() {
    let mut manager = PasswordManager::new();
    let t = std::time::SystemTime::UNIX_EPOCH;
    let e = PasswordEntry::restore("a.com".to_string(), "u".to_string(), "p".to_string(), Some("Me".to_string()), t, t, 7);
    assert!(manager.insert_entry(e).is_ok());
    let again = PasswordEntry::restore("a.com".to_string(), "u".to_string(), "q".to_string(), None, t, t, 0);
    assert_eq!(manager.insert_entry(again), Err(BrowserError::PasswordExists));
    assert!(manager.is_modified());
    manager.mark_saved();
    assert!(!manager.is_modified());
    let got = manager.get_passwords_for_url("https://www.a.com/");
    assert_eq!(got.len(), 1);
    assert_eq!(got[0].get_password(), "p");
    assert_eq!(got[0].use_count, 7);
    assert_eq!(got[0].display_name, Some("Me".to_string()));
    assert_eq!(manager.search("me").len(), 1);
}

#[test]
fn repeated_prefixes_and_empty_queries() {
    assert_eq!(normalize_url("https://https://www.www.a.com///"), "a.com");
    assert_eq!(normalize_url("////"), "");
    let mut manager = PasswordManager::new();
    manager.add_password("https://a.com".to_string(), "u".to_string(), "p".to_string()).unwrap();
    manager.add_password("https://b.com".to_string(), "v".to_string(), "p".to_string()).unwrap();
    assert_eq!(manager.search("").len(), 2);
    assert_eq!(manager.search("a.com/x").len(), 0);
    assert_eq!(manager.search(".com").len(), 2);
}

#[test]
fn new_entry_timestamps_agree_and_autofill_reports_them() {
    let e = PasswordEntry::new("a.com".to_string(), "u".to_string(), "p".to_string());
    assert_eq!(e.created_at, e.modified_at);
    let mut manager = PasswordManager::new();
    manager.insert_entry(e.clone()).unwrap();
    let s = manager.get_autofill_suggestions("a.com");
    assert_eq!(s[0].last_used, e.modified_at);
}
