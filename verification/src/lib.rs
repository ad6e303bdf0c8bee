//! A decoder for the WebAssembly 1.0 binary module format.
//!
//! Every decoder is specified as a pure function from an input and a position
//! in it to either the value that starts there together with the position
//! behind it, or the failure that the bytes provoke together with the position
//! at which it shows.  The executable decoders are proved to compute exactly
//! that function.

pub mod elements;
pub mod io;
