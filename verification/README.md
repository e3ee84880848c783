# hanhcute

The transcription core of the HanhCute desktop app, written in Verus.

- `src/` is the verified library: timestamp formatting and grouping of
  transcribed segments, the buffering state machine of the media decoder,
  the chunking and progress logic of file transcription, the state of the
  transcription manager (single model load, idle unloading, cancellation),
  and the language and accelerator decisions taken around the speech
  engines. Every public function states its result in `ensures`; the laws
  that span several functions are public proof functions (`lemma_*`).
- `tests/` runs the library on concrete values.
- `app/` is ordinary Rust around the library: WAV and media file I/O
  (hound, symphonia), resampling of float samples (rubato), the
  thread-safe manager with its idle watcher, the command handlers, and the
  serde/specta/clap copies of the library's types.
