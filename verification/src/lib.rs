//! Channel gateway core: allowlist matching, security gating (autonomy,
//! action budget, workspace path sandbox), webhook payload normalization,
//! and the decision logic of the gateway's tools.

pub mod allowlist;
pub mod calculator;
mod clock;
pub mod email;
pub mod gateway;
pub mod jsonval;
pub mod linq;
pub mod message;
pub mod search;
pub mod security;
pub mod service;
pub mod text;

