//! Verified core of a command-line client for an image-generation service.
//!
//! The library covers the request-dispatch and response-materialization
//! pipeline: choosing between a JSON "generate" request and a multipart
//! "edit" request, decoding the JSON response into base64 image payloads,
//! and deriving collision-free output filenames from the prompt text.
//! Network and file I/O, configuration and argument parsing live outside
//! the library and hand it plain values.

pub mod codec;
pub mod errors;
pub mod indicator;
pub mod json;
pub mod materialize;
pub mod orchestrate;
pub mod request;
pub mod slugger;
pub mod text;
