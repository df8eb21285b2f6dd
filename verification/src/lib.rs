//! Decoding and classification of machine-word-sized immediate values: small
//! integers, single-byte characters, booleans and a few singleton markers,
//! all encoded directly inside a pointer-sized word by a fixed tagging scheme.
pub mod sexp;
