# livewall

`livewallctl` sets any video as a live wallpaper or screensaver on macOS
Sonoma, Sequoia and Tahoe by registering it in the system's aerial manifest.

The crate is written in Verus:

- `src/` is the verified library: where the wallpaper store is for each macOS
  release, from the renderer's open files, the known stores in order of
  priority and the folders that hold UUID-named videos (`path_resolver`, with
  what holds of every resolved store in `resolve_laws`), the manifest entries and their edits (`manifest`),
  the timestamped backup and staging names of a manifest save, the ffmpeg
  command lines (`ffmpeg`), the order of daemon signals and checks
  (`daemon`), what each verb decides and the order of its file and process stages (`commands`), and the Unix path and text
  arithmetic they rest on (`paths`, `text`).
- `app/` is the program around it: argument parsing, reading and writing
  `entries.json` (checked to parse, backed up, written beside the manifest and
  renamed over it), running `sw_vers`, `pgrep`, `lsof`, `killall` and ffmpeg,
  walking folders, and copying files.
- `tests/` runs the library on concrete values.
