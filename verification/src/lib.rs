//! Orchestration core for driving a set of packaging exporters.
//!
//! A project holds an ordered collection of exporters (Debian package,
//! AppImage, custom script).  Each enabled exporter validates the project
//! metadata, stages a directory tree described by a [`StagingPlan`],
//! and is then driven by an external process whose completion arrives as an
//! [`Outcome`].  The orchestrator fans a run out over every enabled
//! exporter, keeps one exporter's failure from stopping the others, and
//! aggregates the per-exporter states into a single "all settled" signal.

pub mod app_image;
pub mod casing;
pub mod config;
pub mod debian;
pub mod digits;
pub mod export;
pub mod meta;
pub mod plan;
pub mod project;
pub mod script;
pub mod setting;
pub mod status;

pub use app_image::AppImage;
pub use casing::upper_of;
pub use config::ExporterConfig;
pub use config::LayoutConfig;
pub use config::ProjectConfig;
pub use debian::Debian;
pub use digits::int_to_text;
pub use export::Exporter;
pub use export::ExportError;
pub use export::format_tag;
pub use export::format_tag_name;
pub use export::format_tag_present;
pub use meta::Meta;
pub use plan::CommandPlan;
pub use plan::EnvVar;
pub use plan::FileSource;
pub use plan::PlannedFile;
pub use plan::StagingPlan;
pub use project::Launch;
pub use project::Project;
pub use project::RunReport;
pub use project::all_settled;
pub use project::any_failure;
pub use project::apply_outcome_at;
pub use project::remove_marked;
pub use project::run_all;
pub use script::Layout;
pub use script::Script;
pub use setting::Setting;
pub use status::ExportStatus;
pub use status::Outcome;
