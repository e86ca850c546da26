//! Resolution of a machine's identity: platform, OS versions, cloud
//! instance type and collection level, flattened into five string fields.
pub mod error;
pub mod identity;
pub mod platform;
pub mod status;
pub mod text;
