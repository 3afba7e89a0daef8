use desktop_shell::shortcut::{
    main_window_label, new_task_event, new_task_hotkey, shortcut_actions, Hotkey, ShortcutState,
    WindowAction,
};

#[test]
fn press_with_window_shows_focuses_then_emits_once() {
    let r = shortcut_actions(ShortcutState::Pressed, true);
    assert_eq!(
        r,
        vec![WindowAction::Show, WindowAction::Focus, WindowAction::EmitNewTask]
    );
    assert_eq!(r.iter().filter(|a| **a == WindowAction::EmitNewTask).count(), 1);
}

#[test]
fn release_with_window_does_nothing() {
    assert!(shortcut_actions(ShortcutState::Released, true).is_empty());
}

#[test]
fn release_without_window_does_nothing() {
    assert!(shortcut_actions(ShortcutState::Released, false).is_empty());
}

#[test]
fn press_without_window_does_nothing() {
    assert!(shortcut_actions(ShortcutState::Pressed, false).is_empty());
}

#[test]
fn each_press_emits_once_more() {
    let mut emitted = 0;
    for _ in 0..3 {
        emitted += shortcut_actions(ShortcutState::Pressed, true)
            .iter()
            .filter(|a| **a == WindowAction::EmitNewTask)
            .count();
        emitted += shortcut_actions(ShortcutState::Released, true)
            .iter()
            .filter(|a| **a == WindowAction::EmitNewTask)
            .count();
    }
    assert_eq!(emitted, 3);
}

#[test]
fn hotkey_is_ctrl_alt_super_n() {
    assert_eq!(
        new_task_hotkey(),
        Hotkey { control: true, alt: true, shift: false, super_key: true, key: 'N' }
    );
}

#[test]
fn event_and_window_names() {
    assert_eq!(new_task_event(), "global-shortcut-new-task");
    assert_eq!(main_window_label(), "main");
}
