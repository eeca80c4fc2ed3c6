//! Saving and restoring named multi-monitor layouts.
//!
//! The platform describes a display topology as flat arrays of path and mode
//! records that reference each other by array index and identify devices by
//! volatile numeric ids.  This crate normalizes such a snapshot into a
//! portable graph of devices, modes and paths ([`display::DisplayLayout`]),
//! and re-resolves a stored graph against a fresh enumeration to produce new
//! flat arrays that can be submitted back to the platform.  An ordered,
//! named collection of such snapshots ([`layouts::Layouts`]) supports the
//! surrounding tooling.
//!
//! All platform calls (querying the live topology, resolving device names,
//! applying a configuration, reading and writing the store's file) happen
//! outside this crate; the records they produce are carried here as plain
//! values.

pub mod display;
pub mod layouts;
pub mod strfmt;
pub mod windows_util;
