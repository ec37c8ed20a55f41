//! Overlay-mount orchestration and boot-phase sequencing for systemless
//! modules.
//!
//! The library holds the decisions: which lower directories a partition
//! gets, in which order the operating system is asked to act, and what each
//! answer leads to. Every operation that touches the system is handed out as
//! an action; the caller performs it and reports how it went.

pub mod boot;
pub mod boot_completed;
pub mod image;
pub mod install;
pub mod modules;
pub mod partition;
pub mod paths;
pub mod post_fs_data;
pub mod services;
pub mod systemless;

pub use boot_completed::on_boot_completed;
pub use install::{daemon, install};
pub use partition::mount_partition;
pub use post_fs_data::on_post_data_fs;
pub use services::on_services;
pub use systemless::mount_systemlessly;
