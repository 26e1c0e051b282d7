# kstd

A kernel-side standard library: path manipulation, file-system operations,
task configuration and the plain data types of the kernel's interface,
verified with Verus.

## Layout

- `src/` — the verified library.
  - `api::path` — `Path`, `PathBuf` and `Component`, with their specifications
    (`spec_parent`, `spec_file_name`, `spec_push`, `spec_canonicalize`, …);
    `api::path_laws` proves what the operations keep.
  - `api::fs` — file-system operations as step machines: each operation asks
    for one kernel call at a time (`Request`), takes the kernel's answer
    (`Reply`) and decides the next step, until it finishes with its result.
    The contracts give every transition, including each error and its message.
    `canonicalize` walks the canonical form segment by segment and follows
    symbolic links (at most `LINK_LIMIT` of them; a link past that is left as
    it stands, and the walk never fails).
  - `api::task`, `api::env` — what is sent to tasks and the settings a task is
    spawned with; the current directory.
  - `raw`, `front` — the kernel's data types: file-system errors and inodes,
    inode flags, signals, devices, memory zones, the trap frame.
  - `text` — character-sequence helpers and the one trusted item, a wrapper of
    `String::from_utf8_lossy`.
- `tests/` — tests of the library, among them the file-system operations run
  against a small in-memory kernel.
- `app/` — the kernel bindings and the loops that answer the step machines'
  requests with kernel calls; spawning, join handles and the runtime pieces.
