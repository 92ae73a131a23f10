use horizon::error::BrowserError;
use horizon::storage::profile::{Profile, ProfileManager};
use horizon::storage::secure::SecureStorage;
use horizon::storage::settings::{download_dir_or_fallback, GeneralSettings, Settings};
use horizon::storage::userdata::{DataType, UserDataManager};
use horizon::storage::StorageManager;

#[test]
fn test_profile_creation() {
    let profile = Profile::new("test-id", "Test Profile", "/tmp/profile".to_string());
    assert_eq!(profile.id(), "test-id");
    assert_eq!(profile.name(), "Test Profile");
}

#[test]
fn test_profile_manager() {
    let mut manager = ProfileManager::new("/tmp/profiles".to_string());

    let _profile = manager.create_profile("Default").unwrap();
    assert_eq!(manager.profiles().len(), 1);
    assert!(manager.active_profile().is_some());
    assert_eq!(manager.active_profile().unwrap().name(), "Default");
}

#[test]
fn test_secure_storage() {
    let mut storage = SecureStorage::new();

    let key = "test_credential";
    let value = b"secret_password".to_vec();

    storage.store(key, value.clone()).unwrap();
    assert!(storage.contains(key));

    let retrieved = storage.retrieve(key).unwrap();
    assert_eq!(retrieved, value.as_slice());

    storage.remove(key).unwrap();
    assert!(!storage.contains(key));
}

#[test]
fn test_settings_default() {
    let settings = Settings::default();
    assert!(settings.privacy.tracking_protection);
    assert_eq!(settings.appearance.theme, "Dark");
}

#[test]
fn test_user_data_manager() {
    let manager = UserDataManager::new("/tmp/horizon-data".to_string());

    let cache_path = manager.path_for(DataType::Cache);
    assert!(cache_path.contains("cache"));
}

#[test]
fn profile_path_is_inside_profiles_folder() {
    let mut manager = ProfileManager::new("/tmp/profiles".to_string());
    let p = manager.create_profile("Work").unwrap();
    assert_eq!(p.path(), format!("/tmp/profiles/{}", p.id()));
    assert_eq!(p.id().len(), 36);
    let q = manager.create_profile("Home").unwrap();
    assert_eq!(manager.active_profile().unwrap().id(), p.id());
    assert!(manager.set_active_profile(q.id()).is_ok());
    assert_eq!(manager.active_profile().unwrap().name(), "Home");
    assert_eq!(manager.set_active_profile("nope"), Err(BrowserError::ProfileNotFound));
    assert_eq!(manager.active_profile().unwrap().name(), "Home");
}

#[test]
fn secure_storage_replaces_and_forgets() {
    let mut storage = SecureStorage::default();
    storage.store("k", vec![1, 2]).unwrap();
    storage.store("k", vec![3]).unwrap();
    storage.store("j", vec![]).unwrap();
    assert_eq!(storage.retrieve("k"), Some(&[3u8][..]));
    assert_eq!(storage.retrieve("j"), Some(&[][..]));
    assert!(storage.remove("missing").is_ok());
    assert!(storage.retrieve("missing").is_none());
    storage.remove("k").unwrap();
    assert!(!storage.contains("k"));
    assert!(storage.contains("j"));
}

#[test]
fn download_dir_fallback() {
    assert_eq!(download_dir_or_fallback(None), "/tmp/downloads");
    assert_eq!(download_dir_or_fallback(Some("/home/u/Downloads".to_string())), "/home/u/Downloads");
    let g = GeneralSettings::with_download_directory("/d".to_string());
    assert_eq!(g.homepage, "about:home");
    assert_eq!(g.search_engine, "DuckDuckGo");
    assert_eq!(g.download_directory, "/d");
    assert!(g.ask_where_to_save);
}

#[test]
fn user_data_paths() {
    let manager = UserDataManager::new("/data".to_string());
    assert_eq!(manager.path_for(DataType::LocalStorage), "/data/local_storage");
    assert_eq!(manager.path_for(DataType::Cookies), "/data/cookies");
    assert_eq!(manager.data_dir(), "/data");
}

#[test]
fn storage_manager_holds_settings() {
    let mut m = StorageManager::with_settings("/base".to_string(), Settings::new());
    assert!(m.initialize().is_ok());
    assert_eq!(m.base_path(), "/base");
    assert_eq!(m.settings_path(), "/base/settings.toml");
    m.settings_mut().appearance.font_size = 20;
    assert_eq!(m.settings().appearance.font_size, 20);
}
