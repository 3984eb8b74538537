# textquest_dll

The hook logic of the TextQuest client DLL as a Verus-verified library.

- `src/` — the verified library. `src/hooks/` holds one module per hook:
  debug-register slots (`hwbp`, `slot_manager`, `integrity`), exception-handler
  hooks (`veh_hook`), detours, packet capture, timing correction, render modes,
  the overlay lifecycle, the spoofed fingerprint and firmware tables, WMI query
  rewriting, casting and targeting, and the game loop with its slash-command
  parsers, casting loop, command queue and enter-world sequence. Platform
  effects (debug registers, code bytes, page protection) go through the
  `HwbpPlatform` and `VehPlatform` traits, whose contracts model the platform
  state; `StubPlatform` and `StubVehPlatform` implement them in memory.
- `tests/` — tests of the library.
- `app/` — ordinary Rust around the library: process-wide state, the per-frame
  driver, the hook-rotation thread, file lookups, the floating-point command
  parsers, and error types for `std::error::Error`.

Some items the hook code reads come from the project's shared crate, which
is not part of this library: the offset rebasing (`hooks::detours::rebase`
and `EQ_PREFERRED_BASE`, the executable's preferred load address) and the
xorshift generator behind command jitter (`hooks::game_loop::jitter`). They
are written here as the library's own verified code; the preferred base
address is the value the hooks were written against and is not checked
against that crate.
