# audiosource

A Linux client for the Audio Source Android app: it turns the phone's
microphone into a PulseAudio/PipeWire source, either over `adb` or through a
small HTTPS page the phone opens.

The decisions of the program live in the verified library under `src/`:

- `text` — character-level text handling (substring search, lines, tokens,
  trimming, decimal numerals, hex), specified over `Seq<char>`.
- `naming` — the device name (SHA-256 of the serial) and the `adb` environment.
- `pulse` — `pactl`/`pacat`/`parec` command lines and the reading of module listings.
- `adb` — `adb` command lines, choosing and waiting for the phone, permissions, forwarding.
- `stream` — the relay from the phone's socket into `pacat`, as a state machine.
- `bridge` — the main procedure of `audiosource run`, as a state machine.
- `meter` — peak level, silence detection and the level bar.
- `settings` — the saved mute state, volume and custom art, and their text in `config.json`.
- `logo` — the art above the log: chosen, shaped and cut to the space there is.
- `console` — the terminal console's state and key handling.
- `tray` — the tray icon's menu and actions.
- `web` — the web address, its QR code and the HTTPS certificate.

`app/` holds the program around it: command-line parsing, processes, sockets,
files, the terminal and tray front ends and the web server, each driving the
library's state machines.
