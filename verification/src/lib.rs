//! Bulk duplication of a survey template, one copy per course.
//!
//! The library holds the verified logic of a small batch tool: it validates
//! the configuration and the command line, plans one authenticated copy
//! request per course in a course list, decides from the collected responses
//! whether the whole batch succeeded, and lays out the course-to-survey-id
//! output lines. The surrounding binary performs the environment reads, the
//! file read and the HTTP calls, and feeds their results back in as plain
//! values.

pub mod batch;
pub mod cli;
pub mod config;
pub mod error;
pub mod request;
pub mod response;
