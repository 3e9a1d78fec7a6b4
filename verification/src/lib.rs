//! Bridges a stream of parsed routing-protocol update records into
//! fully-owned, boundary-safe values that a foreign runtime can consume
//! through a lazy, pull-based iterator.
//!
//! The crate has four layers, leaves first:
//! - [`text`]: verified rendering of integers and byte payloads as text;
//! - [`ip`]: the address and prefix model with canonical textual rendering;
//! - [`element`] and [`encoder`]: the portable record and the pure
//!   field-by-field conversion rules;
//! - [`adapter`] and [`bridge`]: assembling one portable record per native
//!   record, and the cursor protocol with exactly-once termination.
//!
//! The upstream protocol parser and all I/O stay outside this crate; the
//! library works on plain native values handed to it.

pub mod adapter;
pub mod bridge;
pub mod element;
pub mod encoder;
pub mod ip;
pub mod laws;
pub mod text;
