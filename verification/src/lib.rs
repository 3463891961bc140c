//! ReaBoot: the planning logic of an installer for REAPER, ReaPack and ReaPack packages.

pub mod text;
pub mod recipe_id_extractor;
pub mod platform;
pub mod reaper_platform;
pub mod reaper_target;
pub mod path;
pub mod file_util;
pub mod reaper_resource_dir;
pub mod reapack_util;
pub mod version;
pub mod package_id;
pub mod version_id;
pub mod package_url;
pub mod section;
pub mod installed_package;
pub mod database;
pub mod conflicts;
pub mod recipe;
pub mod reaper_util;
pub mod display_util;
pub mod preparation_report;
pub mod report_markdown;
pub mod reapack_config;
pub mod hash_util;
pub mod installation_stage;
pub mod resolved_config;
pub mod install_args;
pub mod installation_model;
pub mod installer;
