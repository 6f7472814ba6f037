//! The core of Shine: which files it owns, what an operation would do to them, and
//! how an interrupted operation is undone.
//!
//! The library decides and computes; it touches no file and runs no process. Where
//! an operation needs a host, a machine says what it asks for next, and takes in what
//! the host reports.
//!
//! - Plans and approvals: `plan`, `action`, `action_build`.
//! - Managed files of Apps: `manifest`, `receipts`, `json`, `copy_machine`,
//!   `assessed_files`, `app_*`.
//! - The lifecycle of Apps, demand by demand: `assess_run`, `install_drive`,
//!   `uninstall_drive`, `refresh_drive`, `upgrade_drive`, `hook_drive`.
//! - Interrupted operations: `journal`, `execution*`, `commit*`, `recovery*`,
//!   `restoration_laws`, `disk_laws`.
//! - Preset sources: `presets`, `bootstrap`, `app_metadata*`, `app_categories`,
//!   `runtime`.
//! - Reports for authors: `lint*`, `authoring`, `fixture*`.
//! - What holds of all inputs, over more than one function: the `*_laws` modules. Among
//!   them `lifecycle_laws` says what operations leave on a disk, `guard_laws` and
//!   `permit_laws` which operations are let through, `undo_laws` and `planner_laws` what
//!   recovery may do, and `inspection_laws` and `report_laws` what users are told.

pub mod action;
pub mod action_build;
pub mod app_artifact;
pub mod app_assess;
pub mod app_cache;
pub mod app_categories;
pub mod app_code;
pub mod app_dest;
pub mod app_flow;
pub mod app_install;
pub mod app_lifecycle;
pub mod app_metadata;
pub mod app_metadata_types;
pub mod app_refresh;
pub mod app_scope;
pub mod app_scripts;
pub mod app_types;
pub mod app_uninstall;
pub mod app_upgrade;
pub mod assess_run;
pub mod assessed_files;
pub mod authoring;
pub mod bootstrap;
pub mod code_laws;
pub mod command_detection;
pub mod commit;
pub mod commit_machine;
pub mod content;
pub mod context;
pub mod copy_machine;
pub mod disk_laws;
pub mod drive_laws;
pub mod env;
pub mod execution;
pub mod execution_fault;
pub mod execution_laws;
pub mod execution_machine;
pub mod execution_run;
pub mod fixture;
pub mod fixture_laws;
pub mod fixture_state;
pub mod fixture_types;
pub mod guard_laws;
pub mod hook_drive;
pub mod host;
pub mod host_laws;
pub mod inspection;
pub mod inspection_laws;
pub mod install_drive;
pub mod journal;
pub mod json;
pub mod lexical;
pub mod lifecycle;
pub mod lifecycle_laws;
pub mod lint;
pub mod lint_laws;
pub mod lint_report;
pub mod machine_laws;
pub mod manifest;
pub mod path;
pub mod permit_laws;
pub mod plan;
pub mod planner_laws;
pub mod preset_laws;
pub mod presets;
pub mod privileged;
pub mod receipts;
pub mod recovery;
pub mod recovery_apply;
pub mod recovery_laws;
pub mod recovery_machine;
pub mod recovery_plan;
pub mod recovery_planner;
pub mod recovery_run;
pub mod refresh_drive;
pub mod report_laws;
pub mod restoration_laws;
pub mod runtime;
pub mod scope_laws;
pub mod sorted;
pub mod split_dns;
pub mod text;
pub mod text_laws;
pub mod uninstall_drive;
pub mod undo_laws;
pub mod upgrade_drive;
pub mod validation;
