# zest

The decision logic of Zest, a tray utility that shows a radial menu of the
conversions and archive actions that make sense for the files selected in
Explorer, written in Verus and verified.

`src/` is the library:

- `file_kind` — extension classification, the lossy-to-lossy warning.
- `path` — the file-name, stem, extension, parent and join rules it uses.
- `selection` — the selected files; reading a shell view's entries into
  paths, dropping virtual shell items; which Explorer window entry to try
  first.
- `menu` — ring 1 categories and ring 2 targets for a selection.
- `naming` — collision-safe output paths in the configured location.
- `settings` — the settings model, its defaults, gradient editing, and where
  the settings file lives (the local data directory comes from
  `directories`).
- `convert` — jobs, `dispatch` and the image, media, text and archive
  engines; image decoding and encoding go through the `image` crate.
- `hotkey`, `tray`, `updater` — hotkey bindings (parsed by `global_hotkey`),
  the tray menu and what its items and icon clicks do, update cadence.
- `overlay` — the ring navigation model and the overlay window's decisions
  for each pointer and window event.
- `session` — what a running session decides: which selection a menu or a
  picked action works on, the fallback ring, the jobs an action becomes, and
  the start-up notice about shortcuts that could not be bound.

`app/` is the binary around it: command line, settings file, hotkey
registration, running jobs against the disk, and the floating-point ring
geometry. `tests/` exercises the library.
