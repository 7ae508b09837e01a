//! Message handlers built on the resolver subsystem: the group auto-source
//! flow and the account-linking text flow.

pub mod group_source;
pub mod text;
