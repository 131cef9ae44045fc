//! SWF parser: converts the bytes of an SWF file to a movie value.
//!
//! Every parser of this crate is a function on bytes whose result is pinned
//! down by a specification on byte sequences.

pub mod error;
pub mod bytes;
pub mod bits;
pub mod fixed;
pub mod ast;
pub mod basic_data_types;
pub mod header;
pub mod image;
pub mod ast_tags;
pub mod sound;
pub mod video;
pub mod tags;
pub mod decompress;
pub mod tag;
pub mod movie;
pub mod actions;
pub mod avm1;
pub mod state;
pub mod stream_buffer;
pub mod streaming;
pub mod shape;
pub mod shape_tags;
pub mod display;
pub mod text;
pub mod text_tags;
pub mod button;
pub mod morph_shape;
