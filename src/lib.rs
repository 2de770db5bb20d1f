//! Session-scoped orchestration of a generate / install / simulate / repair
//! pipeline for generated Forge scripts: the decisions, parsers and
//! bookkeeping, each stated by a contract.
pub mod coalesce;
pub mod explorer;
pub mod fence;
pub mod guidelines;
pub mod install;
pub mod forge_output;
pub mod models;
pub mod pipeline;
pub mod registry;
pub mod step;
pub mod text;
