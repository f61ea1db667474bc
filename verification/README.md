# suite_install

Installer for the public programs of the `rusty-suite` GitHub account.

- `src/` is the verified library: the GitHub lookups (as step functions
  that decide each request and what its answer leads to), the choice of the
  Windows asset of a release, size and SHA-256 checks of downloads, the
  installation, pre-check and uninstallation flows (as step functions from
  the outcome of the last command to the progress-log changes and the next
  command), the progress log, the program list logic, paths, timestamps,
  translations and the text functions these rely on.
- `app/` is the program around it: HTTP requests, JSON decoding, files,
  archives, certificates, shortcuts, the worker threads and the egui
  screens.
- `tests/` runs the library on concrete values.

The window (`app/window.rs`) is an `eframe` application, and `eframe` is
not declared in `Cargo.toml`: `app/` compiles once it is added
(`eframe = { version = "0.29", default-features = false, features =
["glow", "default_fonts", "x11"] }`, and `winreg` for Windows builds). The
animated image of the progress screen, decoded with the `image` crate, is
not part of `app/`.
