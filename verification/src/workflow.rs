//! Workflow definitions, their compiler, and the rules by which a run advances.
pub mod compile;
pub mod model;
pub mod compile_laws;
pub mod definition_laws;
pub mod signature_laws;
pub mod registry;
pub mod json;
pub mod json_laws;
pub mod binding;
pub mod binding_laws;
pub mod agent;
pub mod resolve;
pub mod source;
pub mod source_laws;
pub mod budget;
pub mod budget_laws;
pub mod store;
pub mod store_laws;
pub mod record_laws;
pub mod retry_laws;
pub mod drive;
pub mod drive_laws;
pub mod step_laws;
pub mod conductor;
pub mod control_laws;
pub mod blackboard;
pub mod blackboard_laws;
pub mod board_laws;
pub mod wording;
pub mod wording_laws;
