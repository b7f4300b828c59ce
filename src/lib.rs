//! A Unicode string stored as decoded scalar values: an owned, growable
//! buffer (`UnicodeString`) and borrowed views over runs of it
//! (`unicode_str`, `unicode_str_mut`), indexed by character position.
#![allow(non_camel_case_types)]

mod decode_error;
pub mod laws;
mod owned;
mod range;
mod std_calls;
mod str_slice;
mod str_slice_mut;

pub use decode_error::FromUtf8Error;
pub use owned::UnicodeString;
pub use range::{CharRange, SliceError};
pub use str_slice::{lex_cmp, unicode_str};
pub use str_slice_mut::unicode_str_mut;
