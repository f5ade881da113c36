use cpu_tray::protocol::{ShellOp, ShellPlan};
use cpu_tray::tray::{
    TooltipGenerator, TrayIcon, NIF_ALL, TRAY_CALLBACK_MESSAGE, TRAY_ICON_ID,
};

fn utf16_buf(s: &str) -> [u16; 128] {
    let mut buf = [0u16; 128];
    for (i, u) in s.encode_utf16().take(127).enumerate() {
        buf[i] = u;
    }
    buf
}

/// Runs a plan, answering each call from `outcomes`, and returns the calls.
fn run(mut plan: ShellPlan, outcomes: &[bool]) -> Vec<ShellOp> {
    let mut ops = Vec::new();
    let mut i = 0;
    while let Some(op) = plan.op() {
        ops.push(op);
        plan.advance(outcomes[i]);
        i += 1;
    }
    assert!(plan.is_done());
    ops
}

use ShellOp::{Add, Delete, Modify, SetVersion};

#[test]
fn tooltip_buffer_of_short_text() {
    let buf = TooltipGenerator::create_tooltip_inner(&"CPU".to_string());
    assert_eq!(&buf[..4], &[67, 80, 85, 0]);
    assert!(buf[3..].iter().all(|&u| u == 0));
    assert_eq!(buf, utf16_buf("CPU"));
}

#[test]
fn tooltip_buffer_cuts_long_text() {
    let long = "a".repeat(200);
    let buf = TooltipGenerator::create_tooltip_inner(&long);
    assert!(buf[..127].iter().all(|&u| u == 97));
    assert_eq!(buf[127], 0);
    let exact = "b".repeat(127);
    let buf = TooltipGenerator::create_tooltip_inner(&exact);
    assert!(buf[..127].iter().all(|&u| u == 98));
    assert_eq!(buf[127], 0);
}

#[test]
fn tooltip_cache_gives_same_buffer() {
    let mut g = TooltipGenerator::new();
    let a = g.generate_tooltip("CPU: 12%".to_string());
    let b = g.generate_tooltip("CPU: 12%".to_string());
    let c = g.generate_tooltip("CPU: 13%".to_string());
    assert_eq!(a, b);
    assert_eq!(a, utf16_buf("CPU: 12%"));
    assert_eq!(c, utf16_buf("CPU: 13%"));
}

#[test]
fn register_protocol() {
    assert_eq!(run(ShellPlan::register(), &[true, true, true]), vec![Delete, Add, SetVersion]);
    assert_eq!(run(ShellPlan::register(), &[false, true, true]), vec![Delete, Add, SetVersion]);
    assert_eq!(
        run(ShellPlan::register(), &[true, false, true, true, true]),
        vec![Delete, Add, Delete, Add, SetVersion]
    );
    assert_eq!(
        run(ShellPlan::register(), &[true, false, true, false, true]),
        vec![Delete, Add, Delete, Add, SetVersion]
    );
}

#[test]
fn refresh_protocol() {
    assert_eq!(run(ShellPlan::refresh(), &[true]), vec![Modify]);
    assert_eq!(
        run(ShellPlan::refresh(), &[false, true, true, true, false]),
        vec![Modify, Delete, Add, SetVersion, Modify]
    );
    assert_eq!(
        run(ShellPlan::refresh(), &[false, true, false, true, true, true, true]),
        vec![Modify, Delete, Add, Delete, Add, SetVersion, Modify]
    );
}

#[test]
fn restore_protocol() {
    assert_eq!(
        run(ShellPlan::restore(), &[true, true, true, true]),
        vec![Delete, Add, SetVersion, Modify]
    );
    assert_eq!(
        run(ShellPlan::restore(), &[true, true, true, false, true, true, true, true]),
        vec![Delete, Add, SetVersion, Modify, Delete, Add, SetVersion, Modify]
    );
}

/// Runs the tray's pending plan, answering each call from `outcomes`.
fn drive(tray: &mut TrayIcon, outcomes: &[bool]) -> Vec<ShellOp> {
    let mut ops = Vec::new();
    let mut i = 0;
    while let Some(op) = tray.pending() {
        ops.push(op);
        tray.complete(outcomes[i]);
        i += 1;
    }
    ops
}

#[test]
fn tray_new_registers_idle_icon() {
    let mut tray = TrayIcon::new(0x1234, 500);
    let d = *tray.notify_data();
    assert_eq!(d.hwnd, 0x1234);
    assert_eq!(d.id, TRAY_ICON_ID);
    assert_eq!(d.callback_message, TRAY_CALLBACK_MESSAGE);
    assert_eq!(d.icon, 500);
    assert_eq!(d.tip, utf16_buf("CPU"));
    assert_eq!(d.flags, NIF_ALL);
    assert_eq!(tray.current_value(), 0);
    assert_eq!(drive(&mut tray, &[true, true, true]), vec![Delete, Add, SetVersion]);
    assert_eq!(tray.pending(), None);
}

#[test]
fn tray_update_shows_load() {
    let mut tray = TrayIcon::new(7, 500);
    drive(&mut tray, &[true, true, true]);
    assert!(tray.needs_icon(55));
    tray.update(55, Some(955));
    assert_eq!(tray.current_value(), 55);
    assert_eq!(tray.notify_data().icon, 955);
    assert_eq!(tray.notify_data().tip, utf16_buf("CPU: 55%"));
    assert_eq!(drive(&mut tray, &[true]), vec![Modify]);
    // A failed modification re-registers the icon and sends the data again.
    tray.update(56, Some(956));
    assert_eq!(
        drive(&mut tray, &[false, true, true, true, true]),
        vec![Modify, Delete, Add, SetVersion, Modify]
    );
    // The cached icon is reused.
    assert!(!tray.needs_icon(55));
    tray.update(55, None);
    assert_eq!(tray.notify_data().icon, 955);
}

#[test]
fn tray_restore_keeps_displayed_state() {
    let mut tray = TrayIcon::new(7, 500);
    drive(&mut tray, &[true, true, true]);
    // Never updated: the idle tooltip is shown, and restore keeps it.
    let before = *tray.notify_data();
    tray.restore();
    assert_eq!(
        drive(&mut tray, &[true, true, true, true]),
        vec![Delete, Add, SetVersion, Modify]
    );
    let after = *tray.notify_data();
    assert_eq!(after.tip, utf16_buf("CPU"));
    assert_eq!(after.icon, before.icon);
    assert_eq!(after.tip, before.tip);
    assert_eq!(tray.current_value(), 0);

    // After an update, restore sends that load's data again.
    tray.update(73, Some(973));
    drive(&mut tray, &[true]);
    tray.restore();
    assert_eq!(tray.notify_data().tip, utf16_buf("CPU: 73%"));
    assert_eq!(
        drive(&mut tray, &[true, false, true, true, true, false, true, true, true, true]),
        vec![Delete, Add, Delete, Add, SetVersion, Modify, Delete, Add, SetVersion, Modify]
    );
    assert_eq!(tray.notify_data().tip, utf16_buf("CPU: 73%"));
    assert_eq!(tray.notify_data().icon, 973);
    assert_eq!(tray.current_value(), 73);
}
