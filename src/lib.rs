//! Restores a container's files from a backup tree and retires the backup
//! copies once they are verified in place.
pub mod path_map;
pub mod text;
pub mod classify;
pub mod retry;
pub mod restore;
pub mod cleanup;
pub mod batch;
pub mod transfer;
pub mod mount_table;
pub mod session;
pub mod integrity;
pub mod lockless;
pub mod resources;
