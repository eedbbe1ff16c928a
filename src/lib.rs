//! Coverage extraction and the differential oracle of a fuzzer that runs two builds of
//! a command-line base64 utility on the same inputs and reports where they diverge.
pub mod base64;
pub mod bridge;
pub mod capture;
pub mod description;
pub mod executor;
pub mod feedbacks;
pub mod oracle;
pub mod region;
pub mod text;
