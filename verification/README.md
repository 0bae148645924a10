# thide

A taskbar auto-hide tray application for Windows 10/11 that reveals the
taskbar when the cursor dwells on the edge it is docked to, keeps it shown
while the Start menu is open, and re-applies the Insider watermark patch to
Explorer.

- `src/` is the verified library (Verus): taskbar geometry (`geometry`), the
  visibility rules and appbar commands (`visibility`), the tray's event
  handling (`tray`), the hover and Start menu debouncers (`hover`,
  `start_menu`), ASCII case-insensitive names (`text`), the data side of the
  watermark patch (`watermark`) and the tray icon's pixels (`icon`, through
  the `ico` crate).
- `app/` is the Windows program around it: Win32 calls, the tray icon, the
  event loop and its worker threads, and the command line.
- `tests/` runs the library on concrete values.
