# ears

Voice-to-text for the Linux desktop: push-to-talk (`ears toggle`), a
hands-free voice-activity daemon (`ears vad`), a WebSocket audio listener
(`ears ws-listen`) and an interactive terminal interface (`ears`).

## Layout

- `src/` — the library, verified with Verus. It holds the decisions and
  data of the program: the LocalAgreement transcript policy, progressive
  typing and its corrections, text filters, the recording state machine,
  PID-file and stop protocols, configuration and profile rules, the
  provider request/response templates, voice-activity hysteresis and
  segment assembly, WAV encoding, the socket and WebSocket protocols, volume
  ducking bookkeeping, and the terminal interface as a state machine with
  its panel views. Each public function states its result in its contract;
  the `law_*` proof functions state properties that span several calls.
- `app/` — the program around the library: command-line parsing, files,
  processes, sockets, HTTP, audio capture, the Silero model, and drawing
  the panels with ratatui. It performs what the library decides.
- `tests/` — tests of the library on concrete values.

Calls into outside crates that the library makes (URL and JSON parsing, base64, lowercasing,
sorting, time) go through a few trusted wrappers whose contracts say what
the outside function returns.
