# LightSnip

An instant-replay recorder. While a game runs, the frames of the last seconds are kept in
memory; F9 exports them as an MP4 clip with FFmpeg, F10 switches the recording, F11 takes a
screenshot.

- `src/` is the recorder's logic, verified with Verus: the state and what changes it, the
  capture cycle, the replay buffer, the detection of games, the library of captures, and the
  laws that hold of them.
- `tests/` runs the library on concrete values.
- `app/` is the program: the window (eframe), the keyboard hook (rdev), the screen (xcap), the
  processes (sysinfo), and FFmpeg.
