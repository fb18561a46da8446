//! Orchestration of a node health evaluation.
//!
//! A target node is compared with a trusted baseline node by a fixed pipeline
//! of evaluators. This crate holds the decisions of that pipeline as a state
//! machine: the caller performs each [`run::Action`] (a fetch, an evaluator
//! call, a pause) and hands the outcome back as an [`run::Event`].
//!
//! [`runner`] holds the runner and its steps, [`run`] the protocol that the
//! steps follow. [`model`] describes a whole run from what its collaborators
//! answer, and [`laws`] proves what holds of every run.

pub mod error;
pub mod evaluator;
pub mod finding;
pub mod laws;
pub mod metrics;
pub mod model;
pub mod run;
pub mod runner;
