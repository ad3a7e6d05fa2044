//! Safe-binding protocol for a native n-tuple event reader: status
//! translation, text marshalling, handle lifecycle and flag resolution.

pub mod status;
pub mod text;
pub mod reader;
pub mod flags;
