# iced_lens

The verified core of the IcedLens media viewer, written in Verus.

- `src/` holds the library: the media list of a directory (which files are
  media, their sort order), navigation with wrap-around, image-only and
  filtered peeks, skipping of media that fail to load, media filters, media
  classification, configuration defaults and the choices made while loading
  `settings.toml`, directory resolution, the persisted state, the screen,
  settings and AI-model decisions, and the value types of the media, AI,
  video and metadata interfaces. Every function carries a contract that
  Verus proves; the laws of the library are public proof functions.
- `tests/` runs the library on concrete values.
- `app/` is a small command-line front end: it reads arguments, the
  environment, the configuration file (TOML) and the state file (CBOR),
  lists directories, and walks through the media with the library.

Floating-point settings (zoom step, volume, seek step) are held in integer
units in the library: percent, milliseconds, hundredths.
