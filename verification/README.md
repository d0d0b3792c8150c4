# polishd

A tray application that polishes the selected text with a language model (through
OpenRouter) and pastes the result back, or applies a custom instruction to it.

- `src/` is the verified library: the selection/polish/paste sessions and the custom
  instruction submission as state machines (`flow`, `state`, `submit`), request building
  and response handling (`polisher`, `failure`, `prompt`), settings (`settings`), the
  rounded window shape (`shape`), monitor lookup (`monitor`), the focus probes
  (`editable`), window lookup by title (`force_focus`) and the string routines they rest
  on (`text`).
- `app/` is the Tauri shell: windows, tray, global shortcuts, clipboard, keystrokes,
  HTTP, accessibility APIs and X11. It performs the effects that the state machines ask
  for and feeds their outcomes back as events.
- `tests/` exercises the library on concrete values.
