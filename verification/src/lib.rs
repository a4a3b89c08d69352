//! A verified node for a line-delimited JSON message protocol.
//!
//! A harness drives the node by writing one JSON request per line on
//! standard input and reading one JSON response per line from standard
//! output.  This crate holds the verified core: the envelope codec that
//! decodes and encodes polymorphic message bodies by their `type`
//! discriminator, the generator of monotonically increasing message
//! identifiers, and the dispatch step that turns one input line into at
//! most one response line.  The blocking I/O loop around it is ordinary
//! unverified glue.

pub mod codec;
pub mod id_gen;
pub mod json;
pub mod models;
pub mod server;
pub mod wire;
