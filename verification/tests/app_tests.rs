use cpu_tray::app::{
    CpuApp, WindowAction, ID_MENU_EXIT, WM_APP_CPU_UPDATE, WM_COMMAND, WM_CONTEXTMENU, WM_DESTROY,
    WM_RBUTTONUP,
};
use cpu_tray::tray::TRAY_CALLBACK_MESSAGE;

const TASKBAR: u32 = 0xC0F1;

#[test]
fn message_numbers() {
    assert_eq!(WM_APP_CPU_UPDATE, 0x8001);
    assert_eq!(TRAY_CALLBACK_MESSAGE, 0x0401);
}

#[test]
fn taskbar_recreated_restores() {
    assert_eq!(CpuApp::dispatch(TASKBAR, 0, 0, TASKBAR), WindowAction::RestoreTray);
    // Unregistered (0) never matches.
    assert_eq!(CpuApp::dispatch(0, 0, 0, 0), WindowAction::Default);
}

#[test]
fn load_update_carries_low_byte() {
    for v in [0usize, 1, 42, 100, 255] {
        assert_eq!(
            CpuApp::dispatch(WM_APP_CPU_UPDATE, v, 0, TASKBAR),
            WindowAction::UpdateTray(v as u8)
        );
    }
    assert_eq!(
        CpuApp::dispatch(WM_APP_CPU_UPDATE, 0x1_2A, 0, 0),
        WindowAction::UpdateTray(0x2A)
    );
}

#[test]
fn tray_callback_opens_menu_on_right_click() {
    let m = TRAY_CALLBACK_MESSAGE;
    assert_eq!(CpuApp::dispatch(m, 0, WM_CONTEXTMENU as isize, 0), WindowAction::ShowContextMenu);
    assert_eq!(CpuApp::dispatch(m, 0, WM_RBUTTONUP as isize, 0), WindowAction::ShowContextMenu);
    // Only the low word names the event.
    assert_eq!(
        CpuApp::dispatch(m, 0, (5 << 16) | WM_RBUTTONUP as isize, 0),
        WindowAction::ShowContextMenu
    );
    assert_eq!(CpuApp::dispatch(m, 0, -65536 + 0x7B, 0), WindowAction::ShowContextMenu);
    assert_eq!(CpuApp::dispatch(m, 0, 0x0201, 0), WindowAction::Ignore);
}

#[test]
fn exit_command_destroys_window() {
    assert_eq!(CpuApp::dispatch(WM_COMMAND, ID_MENU_EXIT, 0, 0), WindowAction::DestroyWindow);
    assert_eq!(
        CpuApp::dispatch(WM_COMMAND, (1 << 16) | ID_MENU_EXIT, 0, 0),
        WindowAction::DestroyWindow
    );
    assert_eq!(CpuApp::dispatch(WM_COMMAND, 1002, 0, 0), WindowAction::Ignore);
}

#[test]
fn destroy_posts_quit_and_rest_is_default() {
    assert_eq!(CpuApp::dispatch(WM_DESTROY, 0, 0, 0), WindowAction::PostQuit);
    assert_eq!(CpuApp::dispatch(0x000F, 0, 0, TASKBAR), WindowAction::Default);
}

#[test]
fn single_instance_check() {
    assert!(CpuApp::already_running(true, 183));
    assert!(!CpuApp::already_running(true, 0));
    assert!(!CpuApp::already_running(false, 183));
    assert!(!CpuApp::already_running(false, 0));
}
