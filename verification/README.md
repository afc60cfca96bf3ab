# talking_head

The logic of Talking Head, a webcam bubble overlay for Wayland, as a Verus
library whose functions carry proved contracts, with the GTK, GStreamer,
tray and socket plumbing around it in `app/`.

## Layout

- `src/text.rs` — decimal numbers (`u32`/`i32` spelling and parsing), trimming
  and string comparison, each stated as the std behaviour it matches; the
  Unicode lowercase mapping comes from std.
- `src/cli.rs` — subcommands, `--size` parsing, the request each subcommand
  sends, and how a reply is reported.
- `src/ipc.rs` — request and reply types, line framing, the PID file, the
  saved overlay position and the remembered webcam, and the running-daemon
  check (which probes the recorded process with `nix`).
- `src/camera.rs` — choosing the capture resolution (largest within 1280x720, or the
  largest on offer when none fits),
  listing webcams, and the capture pipeline description.
- `src/overlay.rs` — the bubble's position, size, visibility and dragging.
- `src/daemon.rs` — the daemon's state machine: how each request changes the
  state, what it answers and which effect the toolkit carries out; reactions
  to camera errors and reconnect attempts.
- `src/tray.rs`, `src/dialog.rs`, `src/install.rs` — the tray menu, the webcam
  picker's labels and choice, and the launcher entry.
- `tests/` — tests on concrete values.
- `app/` — the binary: argument parsing, sockets, files, GTK windows,
  GStreamer pipelines and the tray service, calling the library for every
  decision.

The laws the library proves are the public `lemma_*` proof functions: the
PID, position and device files read back what was written, framed messages
come out unchanged, toggling twice restores the daemon, `size` and `status`
agree, drags keep the bubble on screen, and the chosen capture resolution is
the largest on offer within 1280 by 720 (the largest of all when none
fits).
