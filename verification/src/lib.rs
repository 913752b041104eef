//! An in-memory noticeboard service: notes are looked up by title,
//! streamed by author mail address, and appended from an incoming
//! sequence. The board is an ordered collection that is never reordered:
//! both lookup and streaming walk it in insertion order.

pub mod board;
pub mod laws;
pub mod model;
