//! A command-line HTTP client's core: it turns a flat set of options into one
//! outgoing request and routes the response to its sink under the output flags.
use vstd::prelude::*;

pub mod text;
pub mod headers;
pub mod options;
pub mod request;
pub mod writer;
pub mod laws;

verus! {

} // verus!
