# cpu_tray

A notification-area CPU monitor for Windows. The verified library (`src/`)
holds its logic: UTF-16 and decimal text, the icon and tooltip caches, the
order of shell calls that registers, refreshes and restores the tray icon
(`protocol`), and the window-message dispatcher (`app`). The application
(`app/`) makes the platform calls: window creation and message loop, the
shell's notification-icon calls, icon drawing, processor sampling, the
single-instance lock and autostart registration.

The application draws the digits with the font `app/fonts/OpenSans-Semibold.ttf`,
which has to be supplied next to its sources.
