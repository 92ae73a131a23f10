use horizon::ui::tabs::{Tab, TabManager};

#[test]
fn test_tab_creation() {
    let tab = Tab::new("https://example.com");
    assert_eq!(tab.url, "https://example.com");
    assert_eq!(tab.history.len(), 1);
    assert_eq!(tab.history_index, 0);
}

#[test]
fn test_tab_navigation() {
    let mut tab = Tab::new("https://example.com");
    tab.navigate_to("https://example.com/page2");

    assert_eq!(tab.url, "https://example.com/page2");
    assert_eq!(tab.history.len(), 2);
    assert!(tab.can_go_back());
    assert!(!tab.can_go_forward());
}

#[test]
fn test_tab_back_forward() {
    let mut tab = Tab::new("https://example.com");
    tab.navigate_to("https://example.com/page2");
    tab.navigate_to("https://example.com/page3");

    assert!(tab.go_back());
    assert_eq!(tab.url, "https://example.com/page2");

    assert!(tab.go_forward());
    assert_eq!(tab.url, "https://example.com/page3");
}

#[test]
fn test_tab_manager_creation() {
    let manager = TabManager::new();
    assert_eq!(manager.tab_count(), 1);
    assert_eq!(manager.active_tab().url, "about:home");
}

#[test]
fn test_tab_manager_new_tab() {
    let mut manager = TabManager::new();
    manager.new_tab("https://example.com");

    assert_eq!(manager.tab_count(), 2);
    assert_eq!(manager.active_tab_index(), 1);
    assert_eq!(manager.active_tab().url, "https://example.com");
}

#[test]
fn test_tab_manager_close_tab() {
    let mut manager = TabManager::new();
    manager.new_tab("https://example.com");

    assert!(manager.close_tab(0));
    assert_eq!(manager.tab_count(), 1);
    assert_eq!(manager.active_tab().url, "https://example.com");
}

#[test]
fn test_tab_manager_cannot_close_last_tab() {
    let mut manager = TabManager::new();
    assert!(!manager.close_tab(0));
    assert_eq!(manager.tab_count(), 1);
}

#[test]
fn test_tab_manager_switch_tab() {
    let mut manager = TabManager::new();
    manager.new_tab("https://example.com");

    assert!(manager.switch_to_tab(0));
    assert_eq!(manager.active_tab_index(), 0);
    assert_eq!(manager.active_tab().url, "about:home");
}

fn urls(manager: &TabManager) -> Vec<String> {
    manager.tabs().iter().map(|t| t.url.clone()).collect()
}

#[test]
fn new_tab_is_last_and_active() {
    let mut manager = TabManager::new();
    manager.new_tab("a");
    manager.new_tab("b");
    assert_eq!(manager.active_tab_index(), manager.tab_count() - 1);
    assert_eq!(manager.active_tab().url, "b");
    assert_eq!(urls(&manager), vec!["about:home", "a", "b"]);
}

#[test]
fn visit_from_single_entry_history() {
    let mut tab = Tab::new("A");
    tab.navigate_to("B");
    assert_eq!(tab.history, vec!["A".to_string(), "B".to_string()]);
    assert_eq!(tab.history_index, 1);
    assert!(tab.can_go_back());
    assert!(!tab.can_go_forward());
    assert!(tab.is_loading);
}

#[test]
fn visit_after_back_drops_forward_entries() {
    let mut tab = Tab::new("A");
    tab.navigate_to("B");
    tab.navigate_to("C");
    assert_eq!(tab.history_index, 2);
    assert!(tab.go_back());
    assert_eq!(tab.history_index, 1);
    assert_eq!(tab.url, "B");
    tab.navigate_to("D");
    assert_eq!(tab.history, vec!["A".to_string(), "B".to_string(), "D".to_string()]);
    assert_eq!(tab.history_index, 2);
}

#[test]
fn visiting_the_same_address_twice_pushes_a_duplicate() {
    let mut tab = Tab::new("A");
    tab.navigate_to("A");
    assert_eq!(tab.history, vec!["A".to_string(), "A".to_string()]);
}

#[test]
fn close_only_tab_is_refused() {
    let mut manager = TabManager::new();
    assert!(!manager.close_tab(0));
    assert_eq!(manager.tab_count(), 1);
    assert_eq!(manager.active_tab_index(), 0);
}

#[test]
fn close_first_of_three_with_last_active() {
    let mut manager = TabManager::new();
    manager.new_tab("t1");
    manager.new_tab("t2");
    assert_eq!(manager.active_tab_index(), 2);
    assert!(manager.close_tab(0));
    assert_eq!(urls(&manager), vec!["t1", "t2"]);
    assert_eq!(manager.active_tab_index(), 1);
}

#[test]
fn close_last_active_tab_of_two() {
    let mut manager = TabManager::new();
    manager.new_tab("t1");
    assert_eq!(manager.active_tab_index(), 1);
    assert!(manager.close_tab(1));
    assert_eq!(urls(&manager), vec!["about:home"]);
    assert_eq!(manager.active_tab_index(), 0);
}

#[test]
fn close_tab_right_of_active_keeps_index() {
    let mut manager = TabManager::new();
    manager.new_tab("t1");
    manager.new_tab("t2");
    assert!(manager.switch_to_tab(0));
    assert!(manager.close_tab(2));
    assert_eq!(manager.active_tab_index(), 0);
    assert_eq!(urls(&manager), vec!["about:home", "t1"]);
}

#[test]
fn close_active_middle_tab_moves_left() {
    let mut manager = TabManager::new();
    manager.new_tab("t1");
    manager.new_tab("t2");
    assert!(manager.switch_to_tab(1));
    assert!(manager.close_tab(1));
    assert_eq!(manager.active_tab_index(), 0);
    assert_eq!(manager.active_tab().url, "about:home");
}

#[test]
fn close_out_of_range_is_refused() {
    let mut manager = TabManager::new();
    manager.new_tab("t1");
    assert!(!manager.close_tab(5));
    assert_eq!(manager.tab_count(), 2);
    assert_eq!(manager.active_tab_index(), 1);
}

#[test]
fn switch_out_of_range_is_refused() {
    let mut manager = TabManager::new();
    manager.new_tab("t1");
    assert!(manager.switch_to_tab(0));
    assert!(!manager.switch_to_tab(99));
    assert_eq!(manager.active_tab_index(), 0);
}

#[test]
fn failed_back_changes_nothing() {
    let mut tab = Tab::new("A");
    tab.navigate_to("B");
    assert!(tab.go_back());
    tab.finish_loading();
    let before = tab.clone();
    assert!(!tab.can_go_back());
    assert!(!tab.go_back());
    assert_eq!(tab.url, before.url);
    assert_eq!(tab.history, before.history);
    assert_eq!(tab.history_index, before.history_index);
    assert_eq!(tab.is_loading, before.is_loading);
}

#[test]
fn failed_forward_changes_nothing() {
    let mut tab = Tab::new("A");
    assert!(!tab.can_go_forward());
    assert!(!tab.go_forward());
    assert_eq!(tab.url, "A");
    assert_eq!(tab.history_index, 0);
    assert!(!tab.is_loading);
}

#[test]
fn loading_flag_follows_commands() {
    let mut tab = Tab::new("A");
    assert!(!tab.is_loading);
    tab.navigate_to("B");
    assert!(tab.is_loading);
    tab.finish_loading();
    assert!(!tab.is_loading);
    tab.reload();
    assert!(tab.is_loading);
    assert_eq!(tab.history.len(), 2);
    assert_eq!(tab.url, "B");
}

#[test]
fn display_title_falls_back_to_url() {
    let mut tab = Tab::new("https://a.test");
    assert_eq!(tab.display_title(), "https://a.test");
    tab.set_title("");
    assert_eq!(tab.display_title(), "https://a.test");
    tab.set_title("Page A");
    assert_eq!(tab.display_title(), "Page A");
}

#[test]
fn tab_ids_are_uuids_and_differ() {
    let a = Tab::new("x");
    let b = Tab::new("x");
    assert_eq!(a.id.len(), 36);
    assert_ne!(a.id, b.id);
}

#[test]
fn active_tab_mut_changes_the_active_tab() {
    let mut manager = TabManager::new();
    manager.new_tab("a");
    manager.active_tab_mut().navigate_to("b");
    assert_eq!(manager.active_tab().url, "b");
    assert_eq!(manager.tabs()[0].url, "about:home");
    let d = TabManager::default();
    assert_eq!(d.tab_count(), 1);
}

#[test]
fn fresh_manager_tab_is_idle() {
    let manager = TabManager::new();
    let tab = manager.active_tab();
    assert_eq!(tab.history, vec!["about:home".to_string()]);
    assert_eq!(tab.history_index, 0);
    assert!(!tab.is_loading);
    assert_eq!(tab.title, "New Tab");
    assert!(!TabManager::default().active_tab().is_loading);
}
