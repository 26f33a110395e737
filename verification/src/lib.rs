//! The job-orchestration core of a video conversion service: the options a
//! job is submitted with, the record that tracks it, the colour sampler, the
//! progress monitor and the orchestrator that sequences a job's phases.

pub mod color;
pub mod command;
pub mod duration;
pub mod ident;
pub mod job;
pub mod numeral;
pub mod options;
pub mod orchestrator;
pub mod paths;
pub mod progress;
pub mod service;
pub mod text;
