//! Fixed-length strings stored inline: `Str<N>` holds exactly `N` bytes of
//! valid UTF-8.

pub mod codec;
pub mod collect;
pub mod compare;
pub mod compare_text;
pub mod convert;
pub mod encoding;
pub mod error;
pub mod fixed;
pub mod laws;
pub mod lex;
pub mod text;

pub use collect::{Collector, TryStr};
pub use error::{InvalidLength, Utf8Error};
pub use fixed::Str;
