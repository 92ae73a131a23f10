use horizon::error::BrowserError;
use horizon::extensions::loader::ExtensionLoader;
use horizon::extensions::manifest::{Manifest, Permission};
use horizon::extensions::registry::ExtensionRegistry;
use horizon::extensions::ExtensionManager;

#[test]
fn test_manifest_creation() {
    let manifest = Manifest::new("Test Extension", "1.0.0", "A test extension")
        .with_id("test-ext")
        .with_permission(&"tabs".to_string());

    assert_eq!(manifest.id, Some("test-ext".to_string()));
    assert_eq!(manifest.name, "Test Extension");
    assert!(manifest.permissions.contains(&"tabs".to_string()));
}

#[test]
fn test_manifest_validation() {
    let manifest = Manifest::new("Test", "1.0.0", "Description");
    assert!(manifest.validate().is_ok());

    let invalid = Manifest {
        manifest_version: 1,
        ..Manifest::new("Test", "1.0.0", "Description")
    };
    assert!(invalid.validate().is_err());
}

#[test]
fn test_firefox_compatibility() {
    let manifest = Manifest::new("Test Extension", "1.0.0", "Firefox compatible")
        .with_permissions(vec!["tabs".to_string(), "storage".to_string()])
        .with_background_scripts(vec!["background.js".to_string()])
        .with_browser_action("Test", "popup.html");

    assert_eq!(manifest.manifest_version, 2);
    assert!(manifest.background.is_some());
    assert!(manifest.browser_action.is_some());
}

#[test]
fn test_registry() {
    let mut registry = ExtensionRegistry::new();

    registry
        .register("test-1", "Test Extension 1", "1.0.0")
        .unwrap();
    assert_eq!(registry.list().len(), 1);

    let info = registry.get("test-1").unwrap();
    assert_eq!(info.name, "Test Extension 1");
    assert!(info.enabled);

    registry.disable("test-1").unwrap();
    assert!(!registry.get("test-1").unwrap().enabled);

    registry.unregister("test-1").unwrap();
    assert_eq!(registry.list().len(), 0);
}

#[test]
fn manifest_validation_messages() {
    assert_eq!(Manifest::new("", "1", "d").validate(), Err("Extension name is required".to_string()));
    assert_eq!(Manifest::new("n", "", "d").validate(), Err("Extension version is required".to_string()));
    let v4 = Manifest { manifest_version: 4, ..Manifest::new("n", "1", "d") };
    assert_eq!(v4.validate(), Err("Manifest version must be 2 or 3".to_string()));
    let v3 = Manifest { manifest_version: 3, ..Manifest::new("n", "1", "d") };
    assert_eq!(v3.validate(), Ok(()));
}

#[test]
fn manifest_builders_append() {
    let m = Manifest::new("n", "1", "d")
        .with_author("me")
        .with_permission("tabs")
        .with_permissions(vec!["storage".to_string()])
        .with_content_script(vec!["*://*/*".to_string()], vec!["c.js".to_string()]);
    assert_eq!(m.author, Some("me".to_string()));
    assert_eq!(m.permissions, vec!["tabs".to_string(), "storage".to_string()]);
    assert_eq!(m.content_scripts.len(), 1);
    assert_eq!(m.content_scripts[0].js, vec!["c.js".to_string()]);
    assert!(m.content_scripts[0].css.is_empty());
    let b = m.with_browser_action("T", "p.html").browser_action.unwrap();
    assert_eq!(b.default_title, Some("T".to_string()));
    assert_eq!(b.default_popup, Some("p.html".to_string()));
}

#[test]
fn permission_names() {
    assert_eq!(Permission::Tabs.as_str(), "tabs");
    assert_eq!(Permission::WebRequestBlocking.as_str(), "webRequestBlocking");
    assert_eq!(Permission::AllUrls.as_str(), "<all_urls>");
}

#[test]
fn registry_errors_and_replacement() {
    let mut registry = ExtensionRegistry::default();
    assert_eq!(registry.enable("x"), Err(BrowserError::ExtensionNotFound));
    assert_eq!(registry.unregister("x"), Err(BrowserError::ExtensionNotFound));
    registry.register("a", "A", "1").unwrap();
    registry.register("b", "B", "1").unwrap();
    registry.disable("a").unwrap();
    registry.register("a", "A2", "2").unwrap();
    let list = registry.list();
    assert_eq!(list.len(), 2);
    assert_eq!(list[0].name, "A2");
    assert!(list[0].enabled);
    registry.disable("b").unwrap();
    registry.enable("b").unwrap();
    assert!(registry.get("b").unwrap().enabled);
    assert!(registry.get("c").is_none());
}

#[test]
fn extension_manager_owns_registry() {
    let mut m = ExtensionManager::new();
    m.registry_mut().register("a", "A", "1").unwrap();
    assert_eq!(m.registry().list().len(), 1);
}

#[test]
fn loader_ids() {
    let l = ExtensionLoader::new("/ext".to_string());
    assert_eq!(l.extensions_dir(), "/ext");
    assert_eq!(ExtensionLoader::extension_id(Some("m".to_string()), Some("f".to_string())), "m");
    assert_eq!(ExtensionLoader::extension_id(None, Some("f".to_string())), "f");
    assert_eq!(ExtensionLoader::extension_id(None, None), "unknown");
}
