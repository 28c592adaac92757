use interax_tui_fwk::context::{FocusDrawContext, FocusEventContext};
use interax_tui_fwk::focus::{EventResult, FocusManager};

#[test]
fn test_event_result_default() {
    assert_eq!(EventResult::default(), EventResult::Unhandled);
}

#[test]
fn test_event_result_from_bool() {
    assert_eq!(EventResult::from(true), EventResult::Handled);
    assert_eq!(EventResult::from(false), EventResult::Unhandled);
}

#[test]
fn test_event_result_to_bool() {
    assert!(bool::from(EventResult::Handled));
    assert!(!bool::from(EventResult::Unhandled));
    assert!(!bool::from(EventResult::StopPropagation));
}

#[test]
fn test_focus_manager_navigation() {
    let mut fm = FocusManager::new();
    fm.register("a");
    fm.register("b");
    fm.register("c");

    assert!(fm.focused_id().is_none());

    assert!(fm.focus_next());
    assert_eq!(fm.focused_id(), Some("a"));

    assert!(fm.focus_next());
    assert_eq!(fm.focused_id(), Some("b"));
    assert!(fm.focus_next());
    assert_eq!(fm.focused_id(), Some("c"));
    assert!(fm.focus_next());
    assert_eq!(fm.focused_id(), Some("a"));

    assert!(fm.focus_prev());
    assert_eq!(fm.focused_id(), Some("c"));
}

#[test]
fn test_focus_manager_set_focus() {
    let mut fm = FocusManager::new();
    fm.register("a");
    fm.register("b");

    assert!(fm.set_focus("b"));
    assert_eq!(fm.focused_id(), Some("b"));

    assert!(!fm.set_focus("unknown"));
    assert_eq!(fm.focused_id(), Some("b"));
}

#[test]
fn test_focus_manager_unregister() {
    let mut fm = FocusManager::new();
    fm.register("a");
    fm.register("b");
    fm.register("c");
    fm.set_focus("b");

    fm.unregister("a");
    assert_eq!(fm.focused_id(), Some("b"));
    assert_eq!(fm.focus_order(), &["b", "c"]);

    fm.unregister("b");
    assert!(fm.focused_id().is_some());
}

#[test]
fn event_result_propagation_flags() {
    assert!(EventResult::Handled.is_handled());
    assert!(!EventResult::StopPropagation.is_handled());
    assert!(!EventResult::Unhandled.is_handled());
    assert!(EventResult::Unhandled.should_propagate());
    assert!(!EventResult::Handled.should_propagate());
    assert!(!EventResult::StopPropagation.should_propagate());
}

#[test]
fn focus_cycle_visits_in_order_then_wraps() {
    let mut fm = FocusManager::new();
    fm.register("x");
    fm.register("y");
    fm.register("z");
    assert_eq!(fm.focused_id(), None);
    assert!(fm.focus_next());
    assert_eq!(fm.focused_id(), Some("x"));
    assert!(fm.focus_next());
    assert_eq!(fm.focused_id(), Some("y"));
    assert!(fm.focus_next());
    assert_eq!(fm.focused_id(), Some("z"));
    assert!(fm.focus_next());
    assert_eq!(fm.focused_id(), Some("x"));
}

#[test]
fn focus_cycle_returns_after_len_steps() {
    let mut fm = FocusManager::new();
    for id in ["p", "q", "r", "s"] {
        fm.register(id);
    }
    assert!(fm.set_focus("r"));
    for _ in 0..4 {
        assert!(fm.focus_next());
    }
    assert_eq!(fm.focused_id(), Some("r"));
}

#[test]
fn focus_moves_on_empty_report_false() {
    let mut fm = FocusManager::new();
    assert!(fm.is_empty());
    assert!(!fm.focus_next());
    assert!(!fm.focus_prev());
    assert_eq!(fm.focused_id(), None);
}

#[test]
fn focus_prev_from_none_goes_to_last() {
    let mut fm = FocusManager::new();
    fm.register("a");
    fm.register("b");
    assert!(fm.focus_prev());
    assert_eq!(fm.focused_id(), Some("b"));
}

#[test]
fn register_is_idempotent() {
    let mut fm = FocusManager::new();
    fm.register("a");
    fm.register("a");
    fm.register_at("a", Some(0));
    assert_eq!(fm.len(), 1);
    assert_eq!(fm.focus_order(), &["a"]);
}

#[test]
fn register_at_keeps_focused_id() {
    let mut fm = FocusManager::new();
    fm.register("a");
    fm.register("b");
    assert!(fm.set_focus("b"));
    fm.register_at("first", Some(0));
    assert_eq!(fm.focus_order(), &["first", "a", "b"]);
    assert_eq!(fm.focused_id(), Some("b"));
    fm.register_at("last", Some(10));
    fm.register_at("end", None);
    assert_eq!(fm.focus_order(), &["first", "a", "b", "last", "end"]);
    assert_eq!(fm.focused_id(), Some("b"));
}

#[test]
fn unregister_last_focused_clamps() {
    let mut fm = FocusManager::new();
    fm.register("a");
    fm.register("b");
    fm.register("c");
    assert!(fm.set_focus("c"));
    fm.unregister("c");
    assert_eq!(fm.focused_id(), Some("b"));
}

#[test]
fn unregister_focused_middle_keeps_position() {
    let mut fm = FocusManager::new();
    fm.register("a");
    fm.register("b");
    fm.register("c");
    assert!(fm.set_focus("b"));
    fm.unregister("b");
    assert_eq!(fm.focused_id(), Some("c"));
}

#[test]
fn unregister_only_id_clears_focus() {
    let mut fm = FocusManager::new();
    fm.register("a");
    assert!(fm.focus_next());
    fm.unregister("a");
    assert_eq!(fm.focused_id(), None);
    assert!(fm.is_empty());
}

#[test]
fn unregister_unknown_changes_nothing() {
    let mut fm = FocusManager::new();
    fm.register("a");
    fm.register("b");
    assert!(fm.set_focus("b"));
    fm.unregister("zzz");
    assert_eq!(fm.focus_order(), &["a", "b"]);
    assert_eq!(fm.focused_id(), Some("b"));
}

#[test]
fn clear_focus_and_queries() {
    let mut fm = FocusManager::default();
    fm.register("a");
    assert!(fm.set_focus("a"));
    assert!(fm.is_focused("a"));
    assert!(fm.is_in_focus_chain("a"));
    assert!(!fm.is_focused("b"));
    fm.clear_focus();
    assert!(!fm.is_focused("a"));
    assert_eq!(fm.focused_id(), None);
}

#[test]
fn focus_contexts_act_on_manager() {
    let mut fm = FocusManager::new();
    {
        let mut ctx = FocusEventContext::new(&mut fm);
        ctx.register("one");
        ctx.register("two");
        assert!(ctx.focus_next());
        assert_eq!(ctx.focused_id(), Some("one"));
        assert!(ctx.focus_prev());
        assert!(ctx.is_focused("two"));
        assert!(ctx.set_focus("one"));
        ctx.unregister("two");
        ctx.clear_focus();
        assert_eq!(ctx.focused_id(), None);
        assert!(ctx.set_focus("one"));
    }
    let draw = FocusDrawContext::new(&fm);
    assert_eq!(draw.focused_id(), Some("one"));
    assert!(draw.is_focused("one"));
    assert!(draw.is_in_focus_chain("one"));
    assert!(!draw.is_focused("two"));
}
