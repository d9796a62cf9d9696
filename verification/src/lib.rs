//! Adaptive Hollow Reflector endpoint library: risk scoring, graduated
//! response decisions and the flagged-process bookkeeping of the agent.

pub mod action;
pub mod detection;
pub mod enforcement;
pub mod hollow;
pub mod hollow_basic;
pub mod imports;
pub mod kernel;
pub mod measure;
pub mod process_tree;
pub mod run_options;
pub mod text;
