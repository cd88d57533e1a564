//! Extraction of gzip files: choosing the inputs, reading each file's
//! members, and deciding what to do with every member that comes out.
pub mod gzip;
pub mod select;
pub mod text;
pub mod driver;
