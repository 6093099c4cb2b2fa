# dosomekamas

Core of a forgemagie assistant for Dofus, verified with Verus.

- `src/` — the library. Verus proves the contracts of its functions; the
  calls into std and into the `regex`, `image` and `base64` crates go through
  trusted wrappers whose contracts are taken on trust:
  - `engine/` — stat weights and sink capacity (`sink`), rune tier tables
    (`probability`, `ev`), and the ranking that picks the recommended rune and
    its alternatives (`decision`);
  - `ocr/` — parsing of OCR text into item stats (`parser`), the choice of
    the monitor holding a screen region and the PNG/base64 encoding of the
    region (`capture`), and the computing steps around text recognition:
    base64 and image decoding, tidying the output (`recognize`);
  - `text`, `raster`, `base64_text` — string, image and base64 operations,
    through std and the `image` and `base64` crates;
  - `models`, `errors` — shared data types.
- `app/` — the desktop application: Tauri commands, screen capture, Tesseract,
  and the floating-point probability and expected-value model, which calls
  into the library.
- `tests/` — tests of the library.
