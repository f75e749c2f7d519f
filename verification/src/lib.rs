//! A small bookkeeping command language: a single line such as `&10,food`
//! is tokenized into a marker and typed fields, classified as an income or
//! expense order, and turned into a domain record and a parameterized
//! insert statement for a backing store.

pub mod chars;
mod clock;
pub mod cmd;
pub mod errors;
pub mod laws;
pub mod parse_int;
pub mod record;
pub mod split;
pub mod statement;
pub mod token;
