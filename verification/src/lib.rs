//! Splitting an audio container into one file per embedded chapter.
//!
//! The library holds the decisions of the pipeline: which file each chapter is
//! written to, which arguments the probing and transcoding tools are started
//! with, and in which order and how many at a time the jobs run. Starting the
//! tools, reading their output and touching the file system is left to the
//! caller, who hands plain values in and takes plain values back.

pub mod command;
pub mod decimal;
pub mod error;
pub mod filename;
pub mod model;
pub mod paths;
pub mod plan;
pub mod probe;
pub mod runner;
pub mod text;
