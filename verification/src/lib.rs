//! Verified core of a service that hands out versioned definitions kept in a
//! Git repository: request routing, storage fetching, definition assembly and
//! the periodic publication of the latest definition, each as checked logic
//! around the calls that reach the outside world.
pub mod config;
pub mod error;
pub mod text;
pub mod channels;
pub mod definitions;
pub mod json;
pub mod storage_request;
pub mod latest_definition_updater;
pub mod git;
pub mod definition_file_reader;
pub mod definition_executor;
pub mod git_request_dispatch;
pub mod request_failure;
pub mod definition_request;
pub mod output_element;
pub mod arguments;
