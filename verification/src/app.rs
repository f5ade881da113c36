use vstd::prelude::*;

use crate::tray::TRAY_CALLBACK_MESSAGE;

verus! {

/// `WM_DESTROY`: the window is being destroyed.
pub const WM_DESTROY: u32 = 0x0002;

/// `WM_CONTEXTMENU`: the user asked for a context menu.
pub const WM_CONTEXTMENU: u32 = 0x007B;

/// `WM_COMMAND`: a menu command was chosen.
pub const WM_COMMAND: u32 = 0x0111;

/// `WM_RBUTTONUP`: the right mouse button was released.
pub const WM_RBUTTONUP: u32 = 0x0205;

/// `WM_APP`: first message number free for the application's own use.
pub const WM_APP: u32 = 0x8000;

/// Posted from the CPU sampler to the window with a new load value.
pub const WM_APP_CPU_UPDATE: u32 = WM_APP + 1;

/// Command id of the "Exit" context-menu entry.
pub const ID_MENU_EXIT: usize = 1001;

/// `ERROR_ALREADY_EXISTS`: the named object existed before the call.
pub const ERROR_ALREADY_EXISTS: u32 = 183;

/// What the window does with one message.
#[derive(PartialEq, Eq, Structural, Clone, Copy, Debug)]
pub enum WindowAction {
    /// Re-register the tray icon (the taskbar was recreated); answer 0.
    RestoreTray,
    /// Show this load on the tray icon; answer 0.
    UpdateTray(u8),
    /// Open the context menu; answer 0.
    ShowContextMenu,
    /// Destroy the window; answer 0.
    DestroyWindow,
    /// Post the quit message with exit code 0; answer 0.
    PostQuit,
    /// Nothing to do; answer 0.
    Ignore,
    /// Hand the message to the platform's default handling.
    Default,
}

/// The low 16 bits of a message parameter.
pub open spec fn low_word(v: int) -> int {
    v % 0x10000
}

/// How the window answers message `msg` with parameters `wparam` and
/// `lparam`, where `taskbar_created` is the registered number of the
/// taskbar-recreated broadcast (0 while unregistered).
pub open spec fn dispatch_spec(msg: u32, wparam: usize, lparam: isize, taskbar_created: u32)
    -> WindowAction {
    if taskbar_created != 0 && msg == taskbar_created {
        WindowAction::RestoreTray
    } else if msg == WM_APP_CPU_UPDATE {
        WindowAction::UpdateTray((wparam as int % 256) as u8)
    } else if msg == TRAY_CALLBACK_MESSAGE {
        let event = low_word(lparam as int);
        if event == WM_CONTEXTMENU || event == WM_RBUTTONUP {
            WindowAction::ShowContextMenu
        } else {
            WindowAction::Ignore
        }
    } else if msg == WM_COMMAND {
        if low_word(wparam as int) == ID_MENU_EXIT {
            WindowAction::DestroyWindow
        } else {
            WindowAction::Ignore
        }
    } else if msg == WM_DESTROY {
        WindowAction::PostQuit
    } else {
        WindowAction::Default
    }
}

/// The tray application's window.
pub struct CpuApp;

impl CpuApp {
    /// Decides what the window does with one message.
    pub fn dispatch(msg: u32, wparam: usize, lparam: isize, taskbar_created: u32) -> (action:
        WindowAction)
        ensures
            action == dispatch_spec(msg, wparam, lparam, taskbar_created),
            msg == 0x0401 && (taskbar_created == 0 || taskbar_created != msg) ==> (action
                == WindowAction::ShowContextMenu <==> (lparam as int % 0x10000 == 0x7B
                || lparam as int % 0x10000 == 0x205)),
            msg == 0x0401 && (taskbar_created == 0 || taskbar_created != msg) ==> (action
                == WindowAction::ShowContextMenu || action == WindowAction::Ignore),
    {
        proof {
            lemma_tray_callback(wparam, lparam, taskbar_created);
        }
        if taskbar_created != 0 && msg == taskbar_created {
            return WindowAction::RestoreTray;
        }
        if msg == WM_APP_CPU_UPDATE {
            let load: u8 = (wparam & 0xff) as u8;
            assert(load == wparam as int % 256) by (bit_vector)
                requires
                    load == (wparam & 0xff) as u8;
            WindowAction::UpdateTray(load)
        } else if msg == TRAY_CALLBACK_MESSAGE {
            let event: u32 = (lparam & 0xffff) as u32;
            assert(event == lparam as int % 0x10000) by (bit_vector)
                requires
                    event == (lparam & 0xffff) as u32;
            if event == WM_CONTEXTMENU || event == WM_RBUTTONUP {
                WindowAction::ShowContextMenu
            } else {
                WindowAction::Ignore
            }
        } else if msg == WM_COMMAND {
            let command: usize = wparam & 0xffff;
            assert(command == wparam as int % 0x10000) by (bit_vector)
                requires
                    command == wparam & 0xffff;
            if command == ID_MENU_EXIT {
                WindowAction::DestroyWindow
            } else {
                WindowAction::Ignore
            }
        } else if msg == WM_DESTROY {
            WindowAction::PostQuit
        } else {
            WindowAction::Default
        }
    }

    /// Whether another instance holds the single-instance lock, given
    /// whether creating the lock returned a handle and the platform's last
    /// error code after that call. When no handle came back the answer is
    /// `false`: the program then runs rather than risk not running at all.
    pub fn already_running(created: bool, last_error: u32) -> (b: bool)
        ensures
            b <==> created && last_error == ERROR_ALREADY_EXISTS,
            b <==> created && last_error == 183,
    {
        created && last_error == ERROR_ALREADY_EXISTS
    }
}

/// A load posted to the window arrives unchanged, unless the message number
/// is taken by the taskbar broadcast.
pub proof fn lemma_load_round_trip(load: u8, lparam: isize, taskbar_created: u32)
    requires
        taskbar_created == 0 || taskbar_created != WM_APP_CPU_UPDATE,
    ensures
        dispatch_spec(WM_APP_CPU_UPDATE, load as usize, lparam, taskbar_created)
            == WindowAction::UpdateTray(load),
{
}

/// The taskbar broadcast, once registered, restores the tray icon whatever
/// its number and parameters.
pub proof fn lemma_taskbar_first(msg: u32, wparam: usize, lparam: isize)
    requires
        msg != 0,
    ensures
        dispatch_spec(msg, wparam, lparam, msg) == WindowAction::RestoreTray,
{
}

/// A message the window does not handle itself goes to the platform's
/// default handling.
pub proof fn lemma_unknown_goes_to_default(msg: u32, wparam: usize, lparam: isize, taskbar_created: u32)
    requires
        taskbar_created == 0 || msg != taskbar_created,
        msg != WM_APP_CPU_UPDATE,
        msg != TRAY_CALLBACK_MESSAGE,
        msg != WM_COMMAND,
        msg != WM_DESTROY,
    ensures
        dispatch_spec(msg, wparam, lparam, taskbar_created) == WindowAction::Default,
{
}

/// The tray icon's callback (message 0x0401) opens the context menu exactly
/// when the low 16 bits of `lparam` name a context-menu request (0x007B) or a
/// right-button release (0x0205), whatever the high bits (which carry the
/// icon's identifier), and is otherwise ignored.
pub proof fn lemma_tray_callback(wparam: usize, lparam: isize, taskbar_created: u32)
    ensures
        taskbar_created == 0 || taskbar_created != 0x0401 ==> {
            let action = dispatch_spec(0x0401, wparam, lparam, taskbar_created);
            &&& action == WindowAction::ShowContextMenu <==> (lparam as int % 0x10000 == 0x7B
                || lparam as int % 0x10000 == 0x205)
            &&& action == WindowAction::ShowContextMenu || action == WindowAction::Ignore
        },
{
}

/// For every icon identifier `id`, a context-menu request or a right-button
/// release on the tray icon opens the context menu.
pub proof fn lemma_tray_right_click_any_icon(id: int, wparam: usize, taskbar_created: u32)
    requires
        0 <= id < 0x8000,
        taskbar_created == 0 || taskbar_created != 0x0401,
    ensures
        dispatch_spec(0x0401, wparam, (id * 0x10000 + 0x7B) as isize, taskbar_created)
            == WindowAction::ShowContextMenu,
        dispatch_spec(0x0401, wparam, (id * 0x10000 + 0x205) as isize, taskbar_created)
            == WindowAction::ShowContextMenu,
{
    assert((id * 0x10000 + 0x7B) % 0x10000 == 0x7B);
    assert((id * 0x10000 + 0x205) % 0x10000 == 0x205);
}

/// What each message does, by its number: 0x8001 shows the low byte of
/// `wparam` as the load; 0x0111 destroys the window exactly when the low 16
/// bits of `wparam` are 1001 (the Exit entry) and is otherwise ignored;
/// 0x0002 posts the quit message; any other message, unless it is the
/// registered taskbar broadcast, goes to the default handling.
pub proof fn lemma_dispatch_table(msg: u32, wparam: usize, lparam: isize, taskbar_created: u32)
    requires
        taskbar_created == 0 || taskbar_created != msg,
    ensures
        msg == 0x8001 ==> dispatch_spec(msg, wparam, lparam, taskbar_created)
            == WindowAction::UpdateTray((wparam % 256) as u8),
        msg == 0x0111 ==> (dispatch_spec(msg, wparam, lparam, taskbar_created)
            == WindowAction::DestroyWindow <==> wparam as int % 0x10000 == 1001),
        msg == 0x0111 ==> (dispatch_spec(msg, wparam, lparam, taskbar_created)
            == WindowAction::DestroyWindow || dispatch_spec(msg, wparam, lparam, taskbar_created)
            == WindowAction::Ignore),
        msg == 0x0002 ==> dispatch_spec(msg, wparam, lparam, taskbar_created)
            == WindowAction::PostQuit,
        msg != 0x8001 && msg != 0x0401 && msg != 0x0111 && msg != 0x0002 ==> dispatch_spec(
            msg,
            wparam,
            lparam,
            taskbar_created,
        ) == WindowAction::Default,
{
}

} // verus!
