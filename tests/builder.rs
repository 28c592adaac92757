use interax_tui_fwk::builder::{AppBuilder, BuildError};
use interax_tui_fwk::task::CancelSignal;
use interax_tui_fwk::terminal::TerminalConfig;
use std::time::Duration;

#[test]
fn build_without_root_ui_fails() {
    let b: AppBuilder<u8, ()> = AppBuilder::new();
    assert!(matches!(b.build(), Err(BuildError::NoMainUi)));
}

#[test]
fn build_without_root_ui_fails_before_duplicates() {
    let b: AppBuilder<u8, ()> = AppBuilder::new().add_task("t", ()).add_task("t", ());
    assert!(matches!(b.build(), Err(BuildError::NoMainUi)));
}

#[test]
fn build_rejects_duplicate_task_names() {
    let b: AppBuilder<u8, u8> = AppBuilder::new()
        .main_ui(1)
        .add_task("a", 1)
        .add_task("b", 2)
        .add_task("c", 3)
        .add_task("b", 4)
        .add_task("a", 5);
    match b.build() {
        Err(BuildError::DuplicateTask(name)) => assert_eq!(name, "b"),
        _ => panic!("expected a duplicate"),
    }
}

#[test]
fn build_hands_over_configuration() {
    let b: AppBuilder<&str, u8> = AppBuilder::new()
        .main_ui("root")
        .add_tab("home", "Home", true)
        .add_tab("more", "More", false)
        .add_task("a", 1)
        .add_task("b", 2)
        .tick_rate(Duration::from_millis(250))
        .mouse_capture(false)
        .register_focus("x")
        .initial_focus("y");
    let parts = b.build().ok().expect("builds");
    assert_eq!(parts.main_ui, "root");
    assert_eq!(parts.tasks.len(), 2);
    assert_eq!(parts.tasks[1].name, "b");
    assert_eq!(parts.tasks[1].task, 2);
    assert_eq!(parts.tab_manager.len(), 2);
    assert_eq!(parts.tab_manager.active_id(), Some("home"));
    assert_eq!(parts.focus_manager.focus_order(), &["x", "y"]);
    assert_eq!(parts.focus_manager.focused_id(), Some("y"));
    assert_eq!(parts.tick_rate, Some(Duration::from_millis(250)));
    assert!(!parts.terminal_config.mouse_capture);
}

#[test]
fn builder_defaults() {
    let parts = AppBuilder::<u8, ()>::new().main_ui(0).build().ok().expect("builds");
    assert!(parts.terminal_config.mouse_capture);
    assert_eq!(parts.tick_rate, None);
    assert!(parts.tasks.is_empty());
    assert!(parts.tab_manager.is_empty());
    assert!(parts.focus_manager.is_empty());
}

#[test]
fn terminal_config_default_captures_pointer() {
    assert!(TerminalConfig::default().mouse_capture);
}

#[test]
fn cancel_signal_fires_once() {
    let mut signal = CancelSignal::new();
    let ctx = signal.subscribe();
    let other = ctx.clone_context();
    assert!(!signal.fired());
    assert!(!ctx.is_cancelled());
    assert!(signal.fire());
    assert!(signal.fired());
    assert!(ctx.is_cancelled());
    assert!(other.is_cancelled());
    assert!(!signal.fire());
    assert!(ctx.is_cancelled());
}
