# mountui

A terminal tool for viewing mounts, keeping bookmarks of remote filesystems
(SSHFS, NFS, SMB) and mounting or unmounting them on Linux and macOS.

The library in `src/` is verified with Verus:

- `text` — characters, whitespace, trimming, searching, lines and words,
  decimal numbers, truncation.
- `path` — paths compared by their components.
- `bookmark` — bookmarks and protocols.
- `mount` — mount entries, disk usage, the mount/unmount commands of each
  platform (`mount::linux`, `mount::macos`) and the parsing of `/proc/mounts`,
  `mount` and `df` output.
- `app` — the application state and every step of it: keys in each mode, the
  bookmark form, finished background operations, saving, removing mount
  points, the disk usage cache. `app::laws` proves properties that hold for
  every state.
- `ui` — the text the screen shows: mount point rows, remote filesystem
  types, status and help lines.
- `config` — where the bookmarks file lives.

A step never does outside work itself: it returns an `Effect`, and the
program in `app/` performs it (running commands, reading and writing files,
spawning background tasks) and hands the outcome back. `app/` also reads
keys, draws the screen with ratatui and stores bookmarks as TOML.
