//! The tray menu: its entries, their labels, and the command each stands for.

use vstd::prelude::*;

verus! {

/// The name under which the window system knows the tray icon.
pub const TRAY_ID: &'static str = "daily-tray";

/// The text shown when the pointer rests on the tray icon.
pub const TRAY_TOOLTIP: &'static str = "daily";

/// What an entry of the tray menu asks for.
#[derive(Clone, Copy, PartialEq, Eq, Structural, Debug)]
pub enum TrayCommand {
    /// Bring the main window to the front.
    OpenMain,
    /// Show the widget if it is hidden, hide it if it is shown.
    ToggleWidgetVisibility,
    /// Lock the widget if it is unlocked, unlock it if it is locked.
    ToggleWidgetLock,
    /// Leave the application.
    Exit,
}

impl TrayCommand {
    /// The identifier that the menu entry of the command carries.
    pub open spec fn id_text(self) -> Seq<char> {
        match self {
            TrayCommand::OpenMain => "tray-open-main"@,
            TrayCommand::ToggleWidgetVisibility => "tray-toggle-widget-visibility"@,
            TrayCommand::ToggleWidgetLock => "tray-toggle-widget-lock"@,
            TrayCommand::Exit => "tray-exit"@,
        }
    }

    /// The identifier that the menu entry of the command carries.
    pub fn id(self) -> (id: &'static str)
        ensures
            id@ == self.id_text(),
    {
        match self {
            TrayCommand::OpenMain => "tray-open-main",
            TrayCommand::ToggleWidgetVisibility => "tray-toggle-widget-visibility",
            TrayCommand::ToggleWidgetLock => "tray-toggle-widget-lock",
            TrayCommand::Exit => "tray-exit",
        }
    }
}

/// No two commands share an identifier.
pub proof fn lemma_command_ids_differ(first: TrayCommand, second: TrayCommand)
    requires
        first != second,
    ensures
        first.id_text() != second.id_text(),
{
    reveal_strlit("tray-open-main");
    reveal_strlit("tray-toggle-widget-visibility");
    reveal_strlit("tray-toggle-widget-lock");
    reveal_strlit("tray-exit");
    assert("tray-open-main"@.len() == 14);
    assert("tray-toggle-widget-visibility"@.len() == 29);
    assert("tray-toggle-widget-lock"@.len() == 23);
    assert("tray-exit"@.len() == 9);
}

/// The command whose menu entry carries the identifier, if there is one.
pub open spec fn command_of_id(id: Seq<char>) -> Option<TrayCommand> {
    if id == TrayCommand::OpenMain.id_text() {
        Some(TrayCommand::OpenMain)
    } else if id == TrayCommand::ToggleWidgetLock.id_text() {
        Some(TrayCommand::ToggleWidgetLock)
    } else if id == TrayCommand::ToggleWidgetVisibility.id_text() {
        Some(TrayCommand::ToggleWidgetVisibility)
    } else if id == TrayCommand::Exit.id_text() {
        Some(TrayCommand::Exit)
    } else {
        None
    }
}

/// The command whose menu entry carries the identifier, if there is one.
pub fn tray_command_for_id(id: &str) -> (command: Option<TrayCommand>)
    ensures
        command == command_of_id(id@),
        match command {
            Some(found) => found.id_text() == id@,
            None => forall|other: TrayCommand| other.id_text() != id@,
        },
{
    if id.eq("tray-open-main") {
        Some(TrayCommand::OpenMain)
    } else if id.eq("tray-toggle-widget-lock") {
        Some(TrayCommand::ToggleWidgetLock)
    } else if id.eq("tray-toggle-widget-visibility") {
        Some(TrayCommand::ToggleWidgetVisibility)
    } else if id.eq("tray-exit") {
        Some(TrayCommand::Exit)
    } else {
        assert forall|other: TrayCommand| other.id_text() != id@ by {
            match other {
                TrayCommand::OpenMain => {},
                TrayCommand::ToggleWidgetVisibility => {},
                TrayCommand::ToggleWidgetLock => {},
                TrayCommand::Exit => {},
            }
        }
        None
    }
}

/// Looking up the identifier of a command gives the command back.
pub proof fn lemma_command_found_by_its_id(command: TrayCommand)
    ensures
        command_of_id(command.id_text()) == Some(command),
{
    lemma_command_ids_differ(TrayCommand::OpenMain, TrayCommand::ToggleWidgetLock);
    lemma_command_ids_differ(TrayCommand::OpenMain, TrayCommand::ToggleWidgetVisibility);
    lemma_command_ids_differ(TrayCommand::OpenMain, TrayCommand::Exit);
    lemma_command_ids_differ(TrayCommand::ToggleWidgetLock, TrayCommand::ToggleWidgetVisibility);
    lemma_command_ids_differ(TrayCommand::ToggleWidgetLock, TrayCommand::Exit);
    lemma_command_ids_differ(TrayCommand::ToggleWidgetVisibility, TrayCommand::Exit);
}

/// One entry of the tray menu.
#[derive(Clone, Copy, PartialEq, Eq, Debug)]
pub struct TrayMenuEntry {
    /// What choosing the entry asks for.
    pub command: TrayCommand,
    /// The text that the entry shows.
    pub label: &'static str,
    /// Whether the entry can be chosen.
    pub enabled: bool,
}

/// What an entry of the tray menu holds.
pub struct TrayMenuEntryView {
    pub command: TrayCommand,
    pub label: Seq<char>,
    pub enabled: bool,
}

impl View for TrayMenuEntry {
    type V = TrayMenuEntryView;

    open spec fn view(&self) -> TrayMenuEntryView {
        TrayMenuEntryView { command: self.command, label: self.label@, enabled: self.enabled }
    }
}

/// What the entries of a menu hold, in order.
pub open spec fn menu_view(menu: Seq<TrayMenuEntry>) -> Seq<TrayMenuEntryView> {
    menu.map_values(|entry: TrayMenuEntry| entry@)
}

/// An entry that can be chosen.
pub open spec fn entry(command: TrayCommand, label: Seq<char>) -> TrayMenuEntryView {
    TrayMenuEntryView { command, label, enabled: true }
}

/// Label of the lock entry in the first-generation menu.
pub open spec fn tray_toggle_lock_label_text(locked: bool) -> Seq<char> {
    if locked {
        "解锁 Widget"@
    } else {
        "锁定 Widget"@
    }
}

/// Label of the lock entry: it names what choosing the entry will do.
pub open spec fn tray_toggle_lock_label_v2_text(locked: bool) -> Seq<char> {
    if locked {
        "Unlock Widget"@
    } else {
        "Lock Widget"@
    }
}

/// Label of the visibility entry: it names what choosing the entry will do.
pub open spec fn tray_toggle_visibility_label_v2_text(visible: bool) -> Seq<char> {
    if visible {
        "Hide Widget"@
    } else {
        "Show Widget"@
    }
}

pub fn tray_toggle_lock_label(locked: bool) -> (label: &'static str)
    ensures
        label@ == tray_toggle_lock_label_text(locked),
{
    if locked {
        "解锁 Widget"
    } else {
        "锁定 Widget"
    }
}

pub fn tray_toggle_lock_label_v2(locked: bool) -> (label: &'static str)
    ensures
        label@ == tray_toggle_lock_label_v2_text(locked),
{
    if locked {
        "Unlock Widget"
    } else {
        "Lock Widget"
    }
}

pub fn tray_toggle_visibility_label_v2(visible: bool) -> (label: &'static str)
    ensures
        label@ == tray_toggle_visibility_label_v2_text(visible),
{
    if visible {
        "Hide Widget"
    } else {
        "Show Widget"
    }
}

/// The first-generation menu: the main window, the lock, the exit.
pub open spec fn tray_menu(widget_locked: bool) -> Seq<TrayMenuEntryView> {
    seq![
        entry(TrayCommand::OpenMain, "打开标准窗口"@),
        entry(TrayCommand::ToggleWidgetLock, tray_toggle_lock_label_text(widget_locked)),
        entry(TrayCommand::Exit, "退出应用"@),
    ]
}

/// The menu: the main window, the visibility, the lock, the exit.
pub open spec fn tray_menu_v2(widget_locked: bool, widget_visible: bool) -> Seq<
    TrayMenuEntryView,
> {
    seq![
        entry(TrayCommand::OpenMain, "Open Main Window"@),
        entry(
            TrayCommand::ToggleWidgetVisibility,
            tray_toggle_visibility_label_v2_text(widget_visible),
        ),
        entry(TrayCommand::ToggleWidgetLock, tray_toggle_lock_label_v2_text(widget_locked)),
        entry(TrayCommand::Exit, "Exit"@),
    ]
}

/// The entries of the first-generation menu for a state of the lock.
pub fn build_tray_menu(widget_locked: bool) -> (menu: Vec<TrayMenuEntry>)
    ensures
        menu_view(menu@) == tray_menu(widget_locked),
{
    let mut menu: Vec<TrayMenuEntry> = Vec::new();
    menu.push(TrayMenuEntry { command: TrayCommand::OpenMain, label: "打开标准窗口", enabled: true });
    menu.push(
        TrayMenuEntry {
            command: TrayCommand::ToggleWidgetLock,
            label: tray_toggle_lock_label(widget_locked),
            enabled: true,
        },
    );
    menu.push(TrayMenuEntry { command: TrayCommand::Exit, label: "退出应用", enabled: true });
    assert(menu_view(menu@) =~= tray_menu(widget_locked));
    menu
}

/// The entries of the menu for a state of the lock and of the visibility.
pub fn build_tray_menu_v2(widget_locked: bool, widget_visible: bool) -> (menu: Vec<TrayMenuEntry>)
    ensures
        menu_view(menu@) == tray_menu_v2(widget_locked, widget_visible),
{
    let mut menu: Vec<TrayMenuEntry> = Vec::new();
    menu.push(
        TrayMenuEntry { command: TrayCommand::OpenMain, label: "Open Main Window", enabled: true },
    );
    menu.push(
        TrayMenuEntry {
            command: TrayCommand::ToggleWidgetVisibility,
            label: tray_toggle_visibility_label_v2(widget_visible),
            enabled: true,
        },
    );
    menu.push(
        TrayMenuEntry {
            command: TrayCommand::ToggleWidgetLock,
            label: tray_toggle_lock_label_v2(widget_locked),
            enabled: true,
        },
    );
    menu.push(TrayMenuEntry { command: TrayCommand::Exit, label: "Exit", enabled: true });
    assert(menu_view(menu@) =~= tray_menu_v2(widget_locked, widget_visible));
    menu
}

/// The two labels of an entry differ, so the label shows the state.
pub proof fn lemma_labels_tell_states_apart()
    ensures
        tray_toggle_lock_label_text(true) != tray_toggle_lock_label_text(false),
        tray_toggle_lock_label_v2_text(true) != tray_toggle_lock_label_v2_text(false),
        tray_toggle_visibility_label_v2_text(true) != tray_toggle_visibility_label_v2_text(false),
{
    reveal_strlit("解锁 Widget");
    reveal_strlit("锁定 Widget");
    reveal_strlit("Unlock Widget");
    reveal_strlit("Lock Widget");
    reveal_strlit("Hide Widget");
    reveal_strlit("Show Widget");
    assert("解锁 Widget"@[0] != "锁定 Widget"@[0]);
    assert("Unlock Widget"@[0] != "Lock Widget"@[0]);
    assert("Hide Widget"@[0] != "Show Widget"@[0]);
}

} // verus!
