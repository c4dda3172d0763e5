# nice_plug_slint

Plugin editors for [nice-plug](https://codeberg.org/RustAudio/nice-plug) whose UI is drawn by
Slint in a window that baseview opens.

- `src/` decides: which events reach the UI and which the host, what happens in a frame and
  in what order a window is opened, what is saved of a window, who may resize it. It is
  verified with Verus. Each function states what it returns; `src/laws.rs`, `src/frame.rs` and
  `src/opening.rs` also prove what holds of sequences of calls.
- `app/` performs: it implements the traits of baseview, Slint and nice-plug, converts
  between their types and those of `src/`, and does the floating-point arithmetic.
- `tests/` runs the library on concrete values, with the real Slint and nice-plug.

Scale factors, logical sizes and positions pass through the library as the bit patterns of
floating-point numbers. A position in logical pixels is kept as a physical position and the
scale factor that divides it; a scroll distance as an amount and the number that multiplies it.

Slint's FemtoVG renderer is taken from its own crate, `i-slint-renderer-femtovg`. Slint
re-exports the same types under its feature `renderer-femtovg`, but that feature also brings
the dependencies of Slint's own windowing backends into the lock file, some two hundred
packages that an editor in a baseview window has no use for.
