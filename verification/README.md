# async_bindgen

Glue between async Rust functions and Dart, with the logic verified by Verus.

`src/` is the verified library:

- `text`, `json`: trimming, line splitting, prefixes and JSON text, each
  against a specification over character sequences.
- `genesis`: sniffs the Dart FFI bindings for the pairs of call and result
  glue functions and joins them into async signatures.
- `dart_ext`, `dart_api_class`, `easync_dart`: the Dart extensions and API
  classes, rendered with Handlebars from JSON data built here.
- `interface`, `rust_glue`: reads an interface description of async Rust
  functions and generates their `extern "C"` wrappers.
- `api_parse`, `derive_glue`: what the `api` attribute expands to.
- `completer`, `platform`, `opaque`, `api`: the bookkeeping of a call that is
  answered at most once, and the values passed across the boundary.

`app/` holds the command line generator, file I/O, the async runtimes and
the `extern "C"` entry points. `tests/` runs the library on concrete inputs.
