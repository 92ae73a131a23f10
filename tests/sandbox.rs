use horizon::sandbox::isolation::{IsolationLevel, ProcessIsolator};
use horizon::sandbox::policy::SecurityPolicy;
use horizon::sandbox::SandboxManager;

#[test]
fn test_process_isolator() {
    let isolator = ProcessIsolator::new(IsolationLevel::Full);
    assert_eq!(isolator.level(), IsolationLevel::Full);
    assert!(isolator.apply().is_ok());
}

#[test]
fn test_sandbox_manager() {
    let mut manager = SandboxManager::new();
    assert!(manager.initialize().is_ok());
}

#[test]
fn test_security_policy_default() {
    let policy = SecurityPolicy::default();
    assert!(policy.csp_enabled);
    assert!(policy.same_origin_policy);
    assert!(!policy.allow_file_urls);
}

#[test]
fn test_security_policy_permissive() {
    let policy = SecurityPolicy::permissive();
    assert!(!policy.csp_enabled);
    assert!(policy.allow_file_urls);
}

#[test]
fn test_allow_resource() {
    let policy = SecurityPolicy::default();
    assert!(policy.allow_resource("https://example.com"));
    assert!(!policy.allow_resource("file:///etc/passwd"));

    let permissive = SecurityPolicy::permissive();
    assert!(permissive.allow_resource("file:///home/user/file.txt"));
}

#[test]
fn sandbox_policy_can_be_replaced() {
    let mut manager = SandboxManager::default();
    assert!(!manager.policy().allow_file_urls);
    manager.set_policy(SecurityPolicy::permissive());
    assert!(manager.policy().allow_file_urls);
    assert!(SecurityPolicy::default().allow_resource("file:/"));
    assert!(!SecurityPolicy::default().allow_resource("file://"));
    assert_eq!(ProcessIsolator::default().level(), IsolationLevel::Full);
    assert!(ProcessIsolator::new(IsolationLevel::NoIsolation).apply().is_ok());
}
