[package]
name = "cpu_tray"
version = "0.1.0"
edition = "2021"
publish = false

[dependencies]
winapi = { version = "0.3", features = ["winuser", "wincon", "shellapi", "libloaderapi", "wingdi", "windef", "minwindef", "winerror", "errhandlingapi", "synchapi"] }
winreg = "*"
cpu-monitor = "*"
image = { version = "*", default-features = false }
imageproc = { version = "*", default-features = false }
ab_glyph = "*"
