//! Decoding of Melvor Idle save files into a JSON-like value tree.
pub mod laws;
pub mod save_file;
pub mod save_reader;
pub mod text;
pub mod traits;
pub mod value;
