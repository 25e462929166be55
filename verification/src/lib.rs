//! Decoding of dynamically typed runtime terms into statically typed shapes.
//!
//! A [`term::Term`] is a fully materialised value of a dynamic runtime: an
//! atom, a number, a binary, a list, a tuple or a map. The entry points in
//! [`de`] look at the shape of a term and say which callback of a shape
//! assembler is to be invoked, and on which value. The cursors in [`access`]
//! walk sequences and maps, and the accessor in [`de`] classifies and opens
//! enum variants. [`util`] holds the primitive decoders and [`atoms`] the
//! names of atoms.
//!
//! [`codec`] holds the building blocks of hand-written codecs between typed
//! values and terms; [`codegen`], [`reserved_keywords`] and [`serde_types`]
//! hold sample shapes of every kind with their codecs. [`atom`] and
//! [`string_or_bin`] hold the table of interned atoms and its byte strings.
pub mod term;
pub mod error;
pub mod text;
pub mod atoms;
pub mod util;
pub mod access;
pub mod de;
pub mod string_or_bin;
pub mod atom;
pub mod codec;
pub mod codegen;
pub mod serde_types;
pub mod reserved_keywords;
