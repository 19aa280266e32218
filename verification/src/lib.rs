//! Decision logic for an interactive onboarding wizard that sets up a new
//! hosted web-service project.
//!
//! The library resolves, from optional command-line inputs and operator
//! answers, a complete plan: project name, target directory, web framework,
//! and whether to provision a remote hosting environment. All input/output
//! (prompts, the actual collaborator calls) lives outside the library; the
//! library is a state machine that tells its driver which prompt to show or
//! which collaborator to call next, and consumes the outcome as an event.

pub mod args;
pub mod laws;
pub mod resolver;
