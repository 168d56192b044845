//! Billing report for a cloud account: the settings of a run, the warehouse
//! query and the summary of its rows, and the chat message that reports it.

pub mod amount;
pub mod bigquery;
pub mod config;
pub mod discord;
pub mod text;
