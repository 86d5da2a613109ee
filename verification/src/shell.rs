//! What the shell decides: how the flags of the application change on an
//! event, and what has to be done about it, in order.
//!
//! The functions here touch no window, tray or file. Each takes the flags
//! and an event, changes the flags, and returns the effects that the caller
//! carries out one after the other.

use crate::journal::Notice;
use crate::text::str_contains;
use crate::tray::{build_tray_menu_v2, command_of_id, tray_command_for_id, tray_menu_v2};
use crate::tray::{menu_view, TrayCommand, TrayMenuEntry};
use crate::window::MAIN_WINDOW_LABEL;
use vstd::prelude::*;
use vstd::string::*;

verus! {

/// The event that tells the pages the state of the lock.
pub const EVENT_WIDGET_SET_LOCK: &'static str = "widget-set-lock-state";

/// The event that tells the pages whether the widget is visible.
pub const EVENT_WIDGET_SET_VISIBILITY: &'static str = "widget-set-visibility-state";

/// The keys of the shortcut that toggles the lock, as it is registered.
pub const TOGGLE_LOCK_SHORTCUT: &'static str = "ctrl+shift+l";

/// The flags of the application. A flag is `None` until it is registered.
#[derive(Clone, Copy, PartialEq, Eq, Debug)]
pub struct ShellFlags {
    /// Whether the application is on its way out.
    pub exiting: Option<bool>,
    /// Whether the widget is locked.
    pub widget_locked: Option<bool>,
    /// Whether the widget is visible.
    pub widget_visible: Option<bool>,
}

/// Something the caller has to do.
#[derive(Clone, Copy, PartialEq, Eq, Debug)]
pub enum Effect {
    /// Show the main window, restore it if it is minimized, and give it the
    /// focus.
    ShowMainWindow,
    /// Set the tray menu anew from the flags.
    RefreshTrayMenu,
    /// Set the first-generation tray menu anew for a state of the lock.
    RefreshLegacyTrayMenu { widget_locked: bool },
    /// Tell the pages the state of the lock.
    EmitLockState { locked: bool },
    /// Tell the pages whether the widget is visible.
    EmitVisibilityState { visible: bool },
    /// Write the visibility of the widget to the configuration. Where
    /// `must_succeed` holds, a failure ends the run of effects and is the
    /// answer to the event; elsewhere it is passed over.
    PersistVisibility { visible: bool, must_succeed: bool },
    /// Write an entry to the event log.
    Log(Notice),
    /// Leave the application with the exit code.
    Exit { code: i32 },
    /// Keep the window that asked to be closed.
    PreventClose,
    /// Minimize the window that asked to be closed.
    MinimizeWindow,
}

/// Why a state could not be synchronized.
#[derive(Clone, Copy, PartialEq, Eq, Structural, Debug)]
pub enum SyncError {
    /// The lock of the widget was never registered.
    LockStateMissing,
    /// The visibility of the widget was never registered.
    VisibilityStateMissing,
}

impl SyncError {
    /// The message that stands for the error.
    pub open spec fn text(self) -> Seq<char> {
        match self {
            SyncError::LockStateMissing => "Widget lock state is not initialized."@,
            SyncError::VisibilityStateMissing => "Widget visibility state is not initialized."@,
        }
    }

    /// The message that stands for the error.
    pub fn message(self) -> (message: String)
        ensures
            message@ == self.text(),
    {
        match self {
            SyncError::LockStateMissing => String::from_str(
                "Widget lock state is not initialized.",
            ),
            SyncError::VisibilityStateMissing => String::from_str(
                "Widget visibility state is not initialized.",
            ),
        }
    }
}

/// A flag as it is read where an unregistered one counts as off.
pub open spec fn flag_or_off(flag: Option<bool>) -> bool {
    match flag {
        Some(value) => value,
        None => false,
    }
}

impl ShellFlags {
    /// The flags before anything is registered.
    pub open spec fn unregistered_flags() -> ShellFlags {
        ShellFlags { exiting: None, widget_locked: None, widget_visible: None }
    }

    /// The flags as they are registered at startup.
    pub open spec fn startup_flags(widget_visible: bool) -> ShellFlags {
        ShellFlags {
            exiting: Some(false),
            widget_locked: Some(false),
            widget_visible: Some(widget_visible),
        }
    }

    /// The flags before anything is registered.
    pub fn unregistered() -> (flags: ShellFlags)
        ensures
            flags == Self::unregistered_flags(),
    {
        ShellFlags { exiting: None, widget_locked: None, widget_visible: None }
    }

    /// The flags as they are registered at startup: not exiting, unlocked,
    /// and visible as the configuration says.
    pub fn at_startup(widget_visible: bool) -> (flags: ShellFlags)
        ensures
            flags == Self::startup_flags(widget_visible),
    {
        ShellFlags {
            exiting: Some(false),
            widget_locked: Some(false),
            widget_visible: Some(widget_visible),
        }
    }
}

/// The entries of the tray menu for the flags; a flag that is not
/// registered counts as off.
pub fn refresh_tray_menu_v2(flags: &ShellFlags) -> (menu: Vec<TrayMenuEntry>)
    ensures
        menu_view(menu@) == tray_menu_v2(
            flag_or_off(flags.widget_locked),
            flag_or_off(flags.widget_visible),
        ),
{
    let widget_locked = match flags.widget_locked {
        Some(value) => value,
        None => false,
    };
    let widget_visible = match flags.widget_visible {
        Some(value) => value,
        None => false,
    };
    build_tray_menu_v2(widget_locked, widget_visible)
}

/// The flags after the lock is toggled: a registered lock is inverted.
pub open spec fn lock_toggled(flags: ShellFlags) -> ShellFlags {
    match flags.widget_locked {
        Some(locked) => ShellFlags { widget_locked: Some(!locked), ..flags },
        None => flags,
    }
}

/// The flags after the visibility is toggled: a registered visibility is
/// inverted.
pub open spec fn visibility_toggled(flags: ShellFlags) -> ShellFlags {
    match flags.widget_visible {
        Some(visible) => ShellFlags { widget_visible: Some(!visible), ..flags },
        None => flags,
    }
}

/// What toggling the lock asks for with the first-generation menu: the
/// menu, the pages and the log learn the new state, in this order.
pub open spec fn legacy_lock_toggle_effects(flags: ShellFlags) -> Seq<Effect> {
    match flags.widget_locked {
        Some(locked) => seq![
            Effect::RefreshLegacyTrayMenu { widget_locked: !locked },
            Effect::EmitLockState { locked: !locked },
            Effect::Log(Notice::WidgetLockToggled { locked: !locked }),
        ],
        None => Seq::<Effect>::empty(),
    }
}

/// What toggling the lock asks for: the menu, the pages and the log learn
/// the new state, in this order.
pub open spec fn lock_toggle_effects(flags: ShellFlags) -> Seq<Effect> {
    match flags.widget_locked {
        Some(locked) => seq![
            Effect::RefreshTrayMenu,
            Effect::EmitLockState { locked: !locked },
            Effect::Log(Notice::WidgetLockToggled { locked: !locked }),
        ],
        None => Seq::<Effect>::empty(),
    }
}

/// What toggling the visibility asks for: the configuration, the menu, the
/// pages and the log learn the new state, in this order; the toggle stands
/// even if the configuration cannot be written.
pub open spec fn visibility_toggle_effects(flags: ShellFlags) -> Seq<Effect> {
    match flags.widget_visible {
        Some(visible) => seq![
            Effect::PersistVisibility { visible: !visible, must_succeed: false },
            Effect::RefreshTrayMenu,
            Effect::EmitVisibilityState { visible: !visible },
            Effect::Log(Notice::WidgetVisibilityToggled { visible: !visible }),
        ],
        None => Seq::<Effect>::empty(),
    }
}

/// Toggles the lock of the widget, with the first-generation menu. Nothing
/// happens while the lock is not registered.
pub fn toggle_widget_lock(flags: &mut ShellFlags) -> (effects: Vec<Effect>)
    ensures
        *final(flags) == lock_toggled(*old(flags)),
        effects@ == legacy_lock_toggle_effects(*old(flags)),
{
    let mut effects: Vec<Effect> = Vec::new();
    if let Some(locked) = flags.widget_locked {
        let next_locked = !locked;
        flags.widget_locked = Some(next_locked);
        effects.push(Effect::RefreshLegacyTrayMenu { widget_locked: next_locked });
        effects.push(Effect::EmitLockState { locked: next_locked });
        effects.push(Effect::Log(Notice::WidgetLockToggled { locked: next_locked }));
    }
    assert(effects@ =~= legacy_lock_toggle_effects(*old(flags)));
    effects
}

/// Toggles the lock of the widget. Nothing happens while the lock is not
/// registered.
pub fn toggle_widget_lock_v2(flags: &mut ShellFlags) -> (effects: Vec<Effect>)
    ensures
        *final(flags) == lock_toggled(*old(flags)),
        effects@ == lock_toggle_effects(*old(flags)),
{
    let mut effects: Vec<Effect> = Vec::new();
    if let Some(locked) = flags.widget_locked {
        let next_locked = !locked;
        flags.widget_locked = Some(next_locked);
        effects.push(Effect::RefreshTrayMenu);
        effects.push(Effect::EmitLockState { locked: next_locked });
        effects.push(Effect::Log(Notice::WidgetLockToggled { locked: next_locked }));
    }
    assert(effects@ =~= lock_toggle_effects(*old(flags)));
    effects
}

/// Toggles the visibility of the widget. Nothing happens while the
/// visibility is not registered.
pub fn toggle_widget_visibility_v2(flags: &mut ShellFlags) -> (effects: Vec<Effect>)
    ensures
        *final(flags) == visibility_toggled(*old(flags)),
        effects@ == visibility_toggle_effects(*old(flags)),
{
    let mut effects: Vec<Effect> = Vec::new();
    if let Some(visible) = flags.widget_visible {
        let next_visible = !visible;
        flags.widget_visible = Some(next_visible);
        effects.push(Effect::PersistVisibility { visible: next_visible, must_succeed: false });
        effects.push(Effect::RefreshTrayMenu);
        effects.push(Effect::EmitVisibilityState { visible: next_visible });
        effects.push(Effect::Log(Notice::WidgetVisibilityToggled { visible: next_visible }));
    }
    assert(effects@ =~= visibility_toggle_effects(*old(flags)));
    effects
}

/// The flags after an entry of the tray menu was chosen.
pub open spec fn flags_after_menu(flags: ShellFlags, id: Seq<char>) -> ShellFlags {
    match command_of_id(id) {
        Some(TrayCommand::ToggleWidgetLock) => lock_toggled(flags),
        Some(TrayCommand::ToggleWidgetVisibility) => visibility_toggled(flags),
        Some(TrayCommand::Exit) => match flags.exiting {
            Some(_) => ShellFlags { exiting: Some(true), ..flags },
            None => flags,
        },
        _ => flags,
    }
}

/// What choosing an entry of the tray menu asks for. The request itself
/// is logged after what it set off, and before the application leaves.
pub open spec fn menu_effects(flags: ShellFlags, id: Seq<char>) -> Seq<Effect> {
    match command_of_id(id) {
        Some(TrayCommand::OpenMain) => seq![
            Effect::ShowMainWindow,
            Effect::Log(Notice::TrayOpenMain),
        ],
        Some(TrayCommand::ToggleWidgetLock) => lock_toggle_effects(flags).push(
            Effect::Log(Notice::TrayToggleWidgetLock),
        ),
        Some(TrayCommand::ToggleWidgetVisibility) => visibility_toggle_effects(flags).push(
            Effect::Log(Notice::TrayToggleWidgetVisibility),
        ),
        Some(TrayCommand::Exit) => seq![Effect::Log(Notice::TrayExit), Effect::Exit { code: 0 }],
        None => Seq::<Effect>::empty(),
    }
}

/// An entry of the tray menu was chosen: what changes and what is to be
/// done. An identifier that belongs to no entry changes and asks nothing.
pub fn on_menu_event(flags: &mut ShellFlags, id: &str) -> (effects: Vec<Effect>)
    ensures
        *final(flags) == flags_after_menu(*old(flags), id@),
        effects@ == menu_effects(*old(flags), id@),
{
    match tray_command_for_id(id) {
        Some(TrayCommand::OpenMain) => {
            let mut effects: Vec<Effect> = Vec::new();
            effects.push(Effect::ShowMainWindow);
            effects.push(Effect::Log(Notice::TrayOpenMain));
            assert(effects@ =~= menu_effects(*old(flags), id@));
            effects
        },
        Some(TrayCommand::ToggleWidgetLock) => {
            let mut effects = toggle_widget_lock_v2(flags);
            effects.push(Effect::Log(Notice::TrayToggleWidgetLock));
            effects
        },
        Some(TrayCommand::ToggleWidgetVisibility) => {
            let mut effects = toggle_widget_visibility_v2(flags);
            effects.push(Effect::Log(Notice::TrayToggleWidgetVisibility));
            effects
        },
        Some(TrayCommand::Exit) => {
            if flags.exiting.is_some() {
                flags.exiting = Some(true);
            }
            let mut effects: Vec<Effect> = Vec::new();
            effects.push(Effect::Log(Notice::TrayExit));
            effects.push(Effect::Exit { code: 0 });
            assert(effects@ =~= menu_effects(*old(flags), id@));
            effects
        },
        None => Vec::new(),
    }
}

/// What a request to close a window asks for: the main window is kept and
/// minimized instead, unless the application is on its way out; any other
/// window closes.
pub open spec fn close_request_effects(flags: ShellFlags, window_label: Seq<char>) -> Seq<Effect> {
    if window_label == MAIN_WINDOW_LABEL@ && !flag_or_off(flags.exiting) {
        seq![Effect::PreventClose, Effect::MinimizeWindow]
    } else {
        Seq::<Effect>::empty()
    }
}

/// A window asked to be closed: what is to be done.
pub fn on_close_requested(flags: &ShellFlags, window_label: &str) -> (effects: Vec<Effect>)
    ensures
        effects@ == close_request_effects(*flags, window_label@),
{
    let mut effects: Vec<Effect> = Vec::new();
    if !window_label.eq(MAIN_WINDOW_LABEL) {
        return effects;
    }
    let exiting = match flags.exiting {
        Some(value) => value,
        None => false,
    };
    if exiting {
        return effects;
    }
    effects.push(Effect::PreventClose);
    effects.push(Effect::MinimizeWindow);
    assert(effects@ =~= close_request_effects(*flags, window_label@));
    effects
}

/// A global shortcut changed: the lock is toggled when the keys of the
/// lock shortcut go down, and the request is logged after the toggle.
pub fn on_shortcut(flags: &mut ShellFlags, pressed: bool, is_lock_shortcut: bool) -> (effects: Vec<
    Effect,
>)
    ensures
        *final(flags) == if pressed && is_lock_shortcut {
            lock_toggled(*old(flags))
        } else {
            *old(flags)
        },
        effects@ == if pressed && is_lock_shortcut {
            lock_toggle_effects(*old(flags)).push(Effect::Log(Notice::ShortcutToggleWidgetLock))
        } else {
            Seq::<Effect>::empty()
        },
{
    if pressed && is_lock_shortcut {
        let mut effects = toggle_widget_lock_v2(flags);
        effects.push(Effect::Log(Notice::ShortcutToggleWidgetLock));
        effects
    } else {
        Vec::new()
    }
}

/// The pages report the state of the lock: it is taken over and the tray
/// menu follows. The report is refused while the lock is not registered.
pub fn sync_widget_locked_state(flags: &mut ShellFlags, locked: bool) -> (outcome: Result<
    Vec<Effect>,
    SyncError,
>)
    ensures
        match outcome {
            Ok(effects) => old(flags).widget_locked is Some && *final(flags) == (ShellFlags {
                widget_locked: Some(locked),
                ..*old(flags)
            }) && effects@ == seq![Effect::RefreshTrayMenu],
            Err(error) => old(flags).widget_locked is None && *final(flags) == *old(flags)
                && error == SyncError::LockStateMissing,
        },
{
    if flags.widget_locked.is_none() {
        return Err(SyncError::LockStateMissing);
    }
    flags.widget_locked = Some(locked);
    let mut effects: Vec<Effect> = Vec::new();
    effects.push(Effect::RefreshTrayMenu);
    assert(effects@ =~= seq![Effect::RefreshTrayMenu]);
    Ok(effects)
}

/// The pages report the visibility of the widget: it is taken over and
/// written to the configuration, and only then the tray menu follows. The
/// report is refused while the visibility is not registered.
pub fn sync_widget_visibility_state(flags: &mut ShellFlags, visible: bool) -> (outcome: Result<
    Vec<Effect>,
    SyncError,
>)
    ensures
        match outcome {
            Ok(effects) => old(flags).widget_visible is Some && *final(flags) == (ShellFlags {
                widget_visible: Some(visible),
                ..*old(flags)
            }) && effects@ == seq![
                Effect::PersistVisibility { visible, must_succeed: true },
                Effect::RefreshTrayMenu,
            ],
            Err(error) => old(flags).widget_visible is None && *final(flags) == *old(flags)
                && error == SyncError::VisibilityStateMissing,
        },
{
    if flags.widget_visible.is_none() {
        return Err(SyncError::VisibilityStateMissing);
    }
    flags.widget_visible = Some(visible);
    let mut effects: Vec<Effect> = Vec::new();
    effects.push(Effect::PersistVisibility { visible, must_succeed: true });
    effects.push(Effect::RefreshTrayMenu);
    assert(effects@ =~= seq![
        Effect::PersistVisibility { visible, must_succeed: true },
        Effect::RefreshTrayMenu,
    ]);
    Ok(effects)
}

/// Every entry of the tray menu is answered, whatever the flags: choosing
/// it is logged as the request it is.
pub proof fn lemma_every_entry_is_answered(flags: ShellFlags, command: TrayCommand)
    ensures
        menu_effects(flags, command.id_text()).contains(
            Effect::Log(
                match command {
                    TrayCommand::OpenMain => Notice::TrayOpenMain,
                    TrayCommand::ToggleWidgetLock => Notice::TrayToggleWidgetLock,
                    TrayCommand::ToggleWidgetVisibility => Notice::TrayToggleWidgetVisibility,
                    TrayCommand::Exit => Notice::TrayExit,
                },
            ),
        ),
{
    crate::tray::lemma_command_found_by_its_id(command);
    let effects = menu_effects(flags, command.id_text());
    match command {
        TrayCommand::OpenMain => {
            assert(effects[1] == Effect::Log(Notice::TrayOpenMain));
        },
        TrayCommand::ToggleWidgetLock => {
            assert(effects[effects.len() - 1] == Effect::Log(Notice::TrayToggleWidgetLock));
        },
        TrayCommand::ToggleWidgetVisibility => {
            assert(effects[effects.len() - 1] == Effect::Log(
                Notice::TrayToggleWidgetVisibility,
            ));
        },
        TrayCommand::Exit => {
            assert(effects[0] == Effect::Log(Notice::TrayExit));
        },
    }
}

/// Toggling twice brings the flags back.
pub proof fn lemma_toggle_twice_restores(flags: ShellFlags)
    ensures
        lock_toggled(lock_toggled(flags)) == flags,
        visibility_toggled(visibility_toggled(flags)) == flags,
{
}

/// A toggle changes one flag and leaves the two others alone.
pub proof fn lemma_toggles_are_independent(flags: ShellFlags)
    ensures
        lock_toggled(flags).exiting == flags.exiting,
        lock_toggled(flags).widget_visible == flags.widget_visible,
        visibility_toggled(flags).exiting == flags.exiting,
        visibility_toggled(flags).widget_locked == flags.widget_locked,
        lock_toggled(visibility_toggled(flags)) == visibility_toggled(lock_toggled(flags)),
{
}

/// Once the application is on its way out, no entry of the tray menu
/// brings it back, and the main window is free to close.
pub proof fn lemma_exit_is_final(flags: ShellFlags, id: Seq<char>)
    requires
        flags.exiting == Some(true),
    ensures
        flags_after_menu(flags, id).exiting == Some(true),
        close_request_effects(flags_after_menu(flags, id), MAIN_WINDOW_LABEL@) == Seq::<
            Effect,
        >::empty(),
{
}

/// After the exit entry was chosen with the flags registered, the main
/// window closes when asked; before that it is kept and minimized.
pub proof fn lemma_exit_entry_frees_main_window(flags: ShellFlags)
    requires
        flags.exiting == Some(false),
    ensures
        close_request_effects(flags, MAIN_WINDOW_LABEL@) == seq![
            Effect::PreventClose,
            Effect::MinimizeWindow,
        ],
        close_request_effects(
            flags_after_menu(flags, TrayCommand::Exit.id_text()),
            MAIN_WINDOW_LABEL@,
        ) == Seq::<Effect>::empty(),
{
    crate::tray::lemma_command_found_by_its_id(TrayCommand::Exit);
}

/// The text by which the one harmless error at shutdown is known.
pub const WIN_UNREGISTER_CLASS_ERROR_TOKEN: &'static str =
    "Failed to unregister class Chrome_WidgetWin_0. Error = 1412";

/// Whether an error that ended the application can be passed over: on
/// Windows, the failure to unregister the window class of the web view;
/// elsewhere none.
pub fn is_ignorable_shutdown_error(message: &str, on_windows: bool) -> (ignorable: bool)
    ensures
        ignorable == (on_windows && crate::text::text_contains(
            message@,
            WIN_UNREGISTER_CLASS_ERROR_TOKEN@,
        )),
{
    on_windows && str_contains(message, WIN_UNREGISTER_CLASS_ERROR_TOKEN)
}

} // verus!
