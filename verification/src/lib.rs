//! The document model of a design-tool file, and the decoder that builds it
//! from the JSON-shaped document that the tool's file API serves.
//!
//! Decoding is all-or-nothing. [`figma::File::decode_text`] takes the text
//! of a document and returns the whole file or one [`error::DecodeError`],
//! which says what kind of failure it was and gives the path from the root
//! to the place that was refused. It keeps no state and touches nothing
//! outside its argument, so any number of callers may decode at once.
//!
//! The text is parsed by `serde_json` (see [`parse`]); everything after that
//! is this crate's own code, from [`json::Json`] to the model in [`figma`].
//! Each decoder comes with a `spec` function from the mathematical value of
//! its input to the mathematical value of its result, and is proved to
//! compute exactly that.
//!
//! # Choices where the format leaves one
//!
//! * A real number is kept as its decimal text ([`json::Number`]); an
//!   integer field accepts only a number written as an integer, in range.
//! * A field with a default takes the default only where the field is
//!   absent. A field that is there and malformed is a failure.
//! * Where a record names a field more than once, the last one counts. The
//!   parser already resolves repeated names in this way, so this only
//!   matters for a value that was built by hand.
//! * A registry refuses a key that occurs twice
//!   ([`error::ErrorKind::DuplicateKey`]). Text that repeats a key has the
//!   repetition resolved by the parser, which keeps the last entry.
//! * A rectangle may give one corner radius and four corner radii at once,
//!   an image paint a static and an animated reference at once. Both are
//!   kept as they came; none is preferred and none is refused.
//! * A primitive that lacks a component is a type mismatch at the primitive;
//!   a record that lacks a required field is a missing field that names it.
//! * The nesting of a document is not limited here. The parser refuses text
//!   that is nested more deeply than its own fixed limit, so a value that
//!   came from text is of bounded depth; [`figma::Node::decode`] recurses
//!   once for each level of the value it is given.

pub mod error;
pub mod json;
pub mod parse;
pub mod wire;
pub mod figma;
