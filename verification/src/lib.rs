//! Decision logic of the strategy MCP server: parameter validation, risk limits
//! for buyable quantities, task-phase reconciliation and request screening.

pub mod error;
pub mod limits;
pub mod decimal;
pub mod text;
pub mod risk;
pub mod buyable;
pub mod watcher;
pub mod json;
pub mod validate;
pub mod holdings;
pub mod bars;
pub mod notes;
pub mod refs;
pub mod exec;
pub mod schema;
pub mod indicator;
pub mod llm;
pub mod market;
pub mod screening;
pub mod request;
pub mod access;
pub mod records;
pub mod models;
