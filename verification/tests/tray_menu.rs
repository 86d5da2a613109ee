use daily_shell::tray::{
    build_tray_menu, build_tray_menu_v2, tray_command_for_id, tray_toggle_lock_label,
    tray_toggle_lock_label_v2, tray_toggle_visibility_label_v2, TrayCommand, TrayMenuEntry,
    TRAY_ID, TRAY_TOOLTIP,
};

const ALL_COMMANDS: [TrayCommand; 4] = [
    TrayCommand::OpenMain,
    TrayCommand::ToggleWidgetVisibility,
    TrayCommand::ToggleWidgetLock,
    TrayCommand::Exit,
];

#[test]
fn tray_is_known_as_daily() {
    assert_eq!(TRAY_ID, "daily-tray");
    assert_eq!(TRAY_TOOLTIP, "daily");
}

#[test]
fn lock_label_names_what_the_entry_will_do() {
    assert_eq!(tray_toggle_lock_label_v2(true), "Unlock Widget");
    assert_eq!(tray_toggle_lock_label_v2(false), "Lock Widget");
}

#[test]
fn visibility_label_names_what_the_entry_will_do() {
    assert_eq!(tray_toggle_visibility_label_v2(true), "Hide Widget");
    assert_eq!(tray_toggle_visibility_label_v2(false), "Show Widget");
}

#[test]
fn first_generation_lock_label() {
    assert_eq!(tray_toggle_lock_label(true), "解锁 Widget");
    assert_eq!(tray_toggle_lock_label(false), "锁定 Widget");
}

#[test]
fn commands_carry_their_identifiers() {
    assert_eq!(TrayCommand::OpenMain.id(), "tray-open-main");
    assert_eq!(TrayCommand::ToggleWidgetVisibility.id(), "tray-toggle-widget-visibility");
    assert_eq!(TrayCommand::ToggleWidgetLock.id(), "tray-toggle-widget-lock");
    assert_eq!(TrayCommand::Exit.id(), "tray-exit");
}

#[test]
fn identifiers_are_pairwise_distinct() {
    for first in ALL_COMMANDS {
        for second in ALL_COMMANDS {
            assert_eq!(first.id() == second.id(), first == second);
        }
    }
}

#[test]
fn a_command_is_found_by_its_identifier() {
    for command in ALL_COMMANDS {
        assert_eq!(tray_command_for_id(command.id()), Some(command));
    }
}

#[test]
fn unknown_identifiers_belong_to_no_command() {
    assert_eq!(tray_command_for_id(""), None);
    assert_eq!(tray_command_for_id("tray"), None);
    assert_eq!(tray_command_for_id("tray-exit "), None);
    assert_eq!(tray_command_for_id("Tray-Exit"), None);
    assert_eq!(tray_command_for_id("tray-open-main-window"), None);
    assert_eq!(tray_command_for_id("daily-tray"), None);
}

#[test]
fn menu_has_four_entries_in_order() {
    assert_eq!(
        build_tray_menu_v2(false, false),
        vec![
            TrayMenuEntry {
                command: TrayCommand::OpenMain,
                label: "Open Main Window",
                enabled: true
            },
            TrayMenuEntry {
                command: TrayCommand::ToggleWidgetVisibility,
                label: "Show Widget",
                enabled: true
            },
            TrayMenuEntry {
                command: TrayCommand::ToggleWidgetLock,
                label: "Lock Widget",
                enabled: true
            },
            TrayMenuEntry { command: TrayCommand::Exit, label: "Exit", enabled: true },
        ]
    );
}

#[test]
fn menu_labels_follow_the_two_states() {
    for locked in [false, true] {
        for visible in [false, true] {
            let menu = build_tray_menu_v2(locked, visible);
            assert_eq!(menu.len(), 4);
            assert_eq!(menu[0].label, "Open Main Window");
            assert_eq!(menu[1].command, TrayCommand::ToggleWidgetVisibility);
            assert_eq!(menu[1].label, if visible { "Hide Widget" } else { "Show Widget" });
            assert_eq!(menu[2].command, TrayCommand::ToggleWidgetLock);
            assert_eq!(menu[2].label, if locked { "Unlock Widget" } else { "Lock Widget" });
            assert_eq!(menu[3].label, "Exit");
            assert!(menu.iter().all(|entry| entry.enabled));
        }
    }
}

#[test]
fn first_generation_menu_has_three_entries_in_order() {
    assert_eq!(
        build_tray_menu(true),
        vec![
            TrayMenuEntry { command: TrayCommand::OpenMain, label: "打开标准窗口", enabled: true },
            TrayMenuEntry {
                command: TrayCommand::ToggleWidgetLock,
                label: "解锁 Widget",
                enabled: true
            },
            TrayMenuEntry { command: TrayCommand::Exit, label: "退出应用", enabled: true },
        ]
    );
    assert_eq!(build_tray_menu(false)[1].label, "锁定 Widget");
}
