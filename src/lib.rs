//! Scaffolding logic for app-chains: the versioned chain record, the data
//! availability backends behind one capability, and the decisions taken when
//! fetching node software.

pub mod config;
pub mod da;
pub mod github;
