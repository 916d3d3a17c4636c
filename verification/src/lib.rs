//! Glue generation for binding async Rust functions to Dart.
//!
//! The library holds the text processing behind the code generators:
//! sniffing the generated Dart FFI bindings for async glue functions,
//! building the Dart extension classes, generating the Rust `extern "C"`
//! wrappers, and the bookkeeping of a completer that reports results back.

pub mod text;
pub mod genesis;
pub mod interface;
pub mod rust_glue;
pub mod completer;
pub mod api;
pub mod json;
pub mod dart_ext;
pub mod api_parse;
pub mod derive_glue;
pub mod dart_api_class;
pub mod easync_dart;
pub mod channel;
pub mod platform;
pub mod opaque;
