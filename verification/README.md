# gartray

A quick settings panel for the gar desktop: volume, brightness, WiFi,
Bluetooth, battery, Do Not Disturb and power actions, driven by a daemon
that a small control client (`gartrayctl`) talks to over a Unix socket.

## Layout

- `src/` is the verified library (Verus). Every public function states its
  behaviour in `requires`/`ensures`, and the laws that tie functions
  together are public proof functions (named `law_*`).
  - `ipc`, `daemon`, `config`: commands and replies, the daemon's state
    machine (show/hide/toggle with its debounce, start-up checks against a
    running instance), configuration defaults and paths.
  - `panel`: the panel's modules (WiFi list building, Bluetooth devices,
    power commands and logout fallbacks, battery status, PulseAudio sink
    state, DND, the enterprise WiFi form) and `panel::input`, the state
    machine that turns X events into effects.
  - `tray`: system tray logic (icon data and theme lookup, colour parsing
    and icon layout, XEmbed docking, StatusNotifier services, menus).
  - `text`, `host`: string helpers with their specifications, and the few
    calls into std and `dirs` that the library trusts.
- `app/` is the program around the library: command line, sockets, PID
  file, the X11 window and its cairo drawing, D-Bus, PulseAudio, sysfs and
  helper programs. It decides nothing that the library can decide.
- `tests/` runs the library on concrete values.
