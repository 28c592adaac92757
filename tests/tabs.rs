use interax_tui_fwk::tabs::{Appearance, Selection, TabManager};

fn three_tabs() -> TabManager {
    let mut tm = TabManager::new();
    tm.add("a", "A", true);
    tm.add("b", "B", false);
    tm.add("c", "C", true);
    tm
}

#[test]
fn select_next_skips_disabled_and_wraps() {
    let mut tm = three_tabs();
    assert_eq!(tm.active_index(), 0);
    assert_eq!(tm.select_next(), Selection::Switched { from: 0, to: 2 });
    assert_eq!(tm.active_index(), 2);
    assert_eq!(tm.select_next(), Selection::Switched { from: 2, to: 0 });
    assert_eq!(tm.active_index(), 0);
}

#[test]
fn select_prev_skips_disabled_and_wraps() {
    let mut tm = three_tabs();
    assert_eq!(tm.select_prev(), Selection::Switched { from: 0, to: 2 });
    assert_eq!(tm.select_prev(), Selection::Switched { from: 2, to: 0 });
    assert_eq!(tm.active_index(), 0);
}

#[test]
fn select_out_of_range_or_disabled_is_refused() {
    let mut tm = three_tabs();
    assert_eq!(tm.select(3), Selection::Rejected);
    assert_eq!(tm.select(1), Selection::Rejected);
    assert!(!tm.select(1).is_selected());
    assert_eq!(tm.active_index(), 0);
}

#[test]
fn select_active_tab_runs_no_hook() {
    let mut tm = three_tabs();
    assert_eq!(tm.select(0), Selection::Kept);
    assert!(tm.select(0).is_selected());
    assert_eq!(tm.active_index(), 0);
    assert_eq!(tm.select(2), Selection::Switched { from: 0, to: 2 });
    assert_eq!(tm.select(2), Selection::Kept);
}

#[test]
fn all_disabled_moves_refused() {
    let mut tm = TabManager::new();
    tm.add("a", "A", false);
    tm.add("b", "B", false);
    assert_eq!(tm.select_next(), Selection::Rejected);
    assert_eq!(tm.select_prev(), Selection::Rejected);
    assert_eq!(tm.active_index(), 0);
}

#[test]
fn only_active_enabled_moves_refused() {
    let mut tm = TabManager::new();
    tm.add("a", "A", true);
    tm.add("b", "B", false);
    assert_eq!(tm.select_next(), Selection::Rejected);
    assert_eq!(tm.active_index(), 0);
}

#[test]
fn empty_manager_refuses_everything() {
    let mut tm = TabManager::default();
    assert!(tm.is_empty());
    assert_eq!(tm.len(), 0);
    assert_eq!(tm.active_id(), None);
    assert_eq!(tm.select(0), Selection::Rejected);
    assert_eq!(tm.select_next(), Selection::Rejected);
    assert_eq!(tm.select_prev(), Selection::Rejected);
    assert!(!tm.set_enabled("x", false));
    assert!(!tm.is_enabled("x"));
}

#[test]
fn override_disables_then_reverts() {
    let mut tm = three_tabs();
    assert!(tm.is_enabled("c"));
    assert!(tm.set_enabled("c", false));
    assert!(!tm.is_enabled("c"));
    assert_eq!(tm.select_next(), Selection::Rejected);
    assert_eq!(tm.select_by_id("c"), Selection::Rejected);
    assert!(tm.set_enabled("c", true));
    assert!(tm.is_enabled("c"));
    assert!(tm.set_enabled("b", true));
    assert!(!tm.is_enabled("b"));
    assert!(!tm.set_enabled("missing", false));
    assert_eq!(tm.select_by_id("c"), Selection::Switched { from: 0, to: 2 });
    assert_eq!(tm.active_id(), Some("c"));
    assert_eq!(tm.select_by_id("missing"), Selection::Rejected);
}

#[test]
fn own_predicate_can_change() {
    let mut tm = three_tabs();
    assert!(tm.set_own_enabled(1, true));
    assert!(tm.is_enabled("b"));
    assert_eq!(tm.select_next(), Selection::Switched { from: 0, to: 1 });
    assert!(!tm.set_own_enabled(7, true));
}

#[test]
fn list_describes_every_tab() {
    let mut tm = three_tabs();
    assert!(tm.set_enabled("c", false));
    let list = tm.list();
    assert_eq!(list.len(), 3);
    assert_eq!(list[0].id, "a");
    assert_eq!(list[0].title, "A");
    assert!(list[0].enabled);
    assert_eq!(list[0].index, 0);
    assert_eq!(list[1].id, "b");
    assert!(!list[1].enabled);
    assert_eq!(list[2].title, "C");
    assert!(!list[2].enabled);
    assert_eq!(list[2].index, 2);
}

#[test]
fn appearance_of_tabs() {
    let mut tm = three_tabs();
    assert_eq!(tm.appearance(0), Appearance::Active);
    assert_eq!(tm.appearance(1), Appearance::Disabled);
    assert_eq!(tm.appearance(2), Appearance::Normal);
    assert_eq!(tm.appearance(9), Appearance::Disabled);
    assert!(tm.set_enabled("a", false));
    assert_eq!(tm.appearance(0), Appearance::Disabled);
}
