use startup_focus::{main_window_label, plan_setup, WindowCommand};

#[test]
fn found_window_is_shown_then_focused() {
    let cmds = plan_setup(true);
    assert_eq!(cmds, vec![WindowCommand::Show, WindowCommand::SetFocus]);
}

#[test]
fn missing_window_gets_no_commands() {
    let cmds = plan_setup(false);
    assert!(cmds.is_empty());
}

#[test]
fn window_label_is_main() {
    assert_eq!(main_window_label(), "main");
}
