//! Block-device administration: validated, sequenced operations on disks,
//! partitions, filesystems and encrypted volumes, expressed as state machines
//! that ask their host to run tools and decide on what the tools answered.

pub mod config;
pub mod device;
pub mod dialogs;
pub mod disk;
pub mod engine;
pub mod error;
pub mod event;
pub mod guard;
pub mod luks;
pub mod number;
pub mod operations;
pub mod partition;
pub mod protocol;
pub mod size;
pub mod smart;
pub mod table;
pub mod text;
pub mod utils;
