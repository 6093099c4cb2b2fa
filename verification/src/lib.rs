//! Forgemagie assistant core: rune weights, sink capacity, rune ranking,
//! OCR stat-line parsing and screen-region encoding. Verus proves the
//! contracts of the library's functions; the calls into std, `regex`,
//! `image` and `base64` go through a few trusted wrappers whose contracts are
//! taken on trust.
pub mod base64_text;
pub mod engine;
pub mod errors;
pub mod models;
pub mod ocr;
pub mod raster;
pub mod text;
