//! Verified core of a local font server: the name-table metadata
//! pipeline (parse, normalize, de-duplicate) and the path guard of the
//! file-streaming endpoint.

pub mod listing;
pub mod name_table;
pub mod path_guard;
pub mod record;
pub mod serve;
