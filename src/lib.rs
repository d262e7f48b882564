//! Listing of Apple provisioning profiles: unwrapping the signed container,
//! decoding the embedded property list, normalizing it into a profile record,
//! and preparing the records for a table.

/// Command-line options and lookup directories.
pub mod args;
/// The signed container around a profile's payload.
pub mod envelope;
/// The property list inside the container.
pub mod decode;
/// The decoded value tree.
pub mod payload;
/// The display form of payload values.
pub mod project;
/// The profile record read from a payload.
pub mod record;
/// Sort keys and the stable sort of the listing.
pub mod sort;
/// The cells of the two tables.
pub mod render;
