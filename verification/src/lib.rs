//! A small command-execution core: the data model of an execution request and
//! its tagged outcome, the mode dispatch on the request's timeout, and the
//! mapping of every execution event to exactly one wire-visible response.
//!
//! Launching a child process, racing it against a deadline and killing it on
//! timeout are operating-system work that an outer layer performs; it reports
//! what happened as a [`api_models::ProcessEvent`], and everything this crate
//! decides from that event is verified.

pub mod api_actions;
pub mod api_models;
