# Own View

A screen-privacy overlay: a veil over the whole screen with a cutout that follows
the pointer, toggled by a global shortcut or from the tray.

`src/` is the application's logic as a verified library:

- `base64`, `json`, `text`: encodings of bytes, string literals and numbers
- `overlay`: the overlay's page, its data URL, and the scripts that drive it
- `cursor`: reading the pointer's position from a tool's report
- `config`, `places`: the settings, how they are loaded, and where files live
- `autostart`: keeping the list of programs started at login in line
- `windows`, `tasks`, `state`: the actions on windows, what is asked of them, and how
  the state answers events

Functions whose names begin with `law_` state what holds across functions.

`app/` is the program around it: windows, tray, files, processes. It carries out
the tasks, actions and steps that the library decides on. `tests/` runs the library.
