//! Metadata describing the object dictionary, and the values stored in standard objects.
pub mod object_ids;
pub mod object_spec;
pub mod pdo;
pub mod time_types;
pub mod types;
pub mod values;
pub mod read_size;
