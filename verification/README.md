# auto_input

Auto Input types a text into the focused window key by key (for places that
refuse pasting), pastes it with Ctrl+V, or types it inside a VMware guest
through `vmrun`. Two global hotkeys start a run with the clipboard or with a
custom text.

The library under `src/` holds the program's logic, verified with Verus:

- `hotkey`: hotkey definitions and how they are shown, the key table and
  `vk_name`, and the bookkeeping of the hotkey worker (which hotkeys are
  registered with Windows, what to register and unregister).
- `input`: the input modes, the keystrokes that type a text and the course
  of a key-by-key run (`Typist`), the Ctrl+V key events, the course of a
  guest run step by step (`vmrun_step`), and everything a guest run hands to `vmrun` (arguments, the text
  file, the PowerShell script, the error messages).
- `app`: the window's state and how each change, tray command, hotkey event
  and tick moves it and what it asks of the system; the saved settings and
  their defaults; what the window shows (hints, colours, the clipboard
  preview, the key picker).
- `icon`: the 32×32 keyboard icon, pixel by pixel.
- `text`: decimal numerals, `u64` parsing, trimming and the other string
  helpers, each proved against a specification written from the standard
  library's documented behaviour (that the specifications match the standard
  library is checked by tests that compare the two, not by proof).

`app/` is the program around it: the iced window, the tray icon, the hotkey
worker thread, the Win32 calls, the settings file, and the threads that type.
