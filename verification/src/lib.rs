//! Core logic of a weekly newsletter assembly pipeline: deterministic
//! send-slot computation, issue-number-keyed content rotation, link
//! triage, render-context assembly, and the campaign-creation state
//! machine that drives the email-service collaborator.

pub mod book;
pub mod email;
pub mod errors;
pub mod issue_number;
pub mod links;
pub mod model;
pub mod orchestrator;
pub mod quotes;
pub mod render;
pub mod rotation;
pub mod schedule;
pub mod sponsor;
pub mod text;
