# voxly

The verified core of Voxly, a local realtime speech-to-text desktop
application. `src/` is the library, checked with Verus; `app/` is the Tauri
application around it (audio devices, network downloads, async runtime,
floating-point signal processing), which performs what the library decides.

Modules of the library:

- `coordinator`: the transcription lifecycle as a state machine (idle,
  recording, finalizing) with debounce, and the command handle.
- `audio`: capture framing, the rolling sample buffer, and voice-activity
  smoothing (onset run, pre-roll, hangover) over per-frame loudness.
- `inference`: the placeholder streaming engine and the streaming lease
  protocol of the engine manager.
- `model`: the primary model, its download URL, resume and pause/cancel
  rules, and lifecycle events.
- `config`, `error`, `events`: settings, the error type, event payloads.
