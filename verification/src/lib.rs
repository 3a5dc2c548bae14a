//! A typed client binding for the HTTP API of a remote AI-model service:
//! chat, completions, embeddings, images, audio, files, fine-tuning,
//! moderation, and assistants with their threads and runs.
//!
//! The library plans every call and reads every answer, and it performs no
//! network call itself:
//!
//! * [`client`] turns an operation into the request to send, and
//!   [`transport`] turns the response into a resource that carries the
//!   headers of that response.
//! * [`run`] holds the run, its status and the state graph of the status;
//!   [`polling`] decides how a wait for a run goes on after each poll, and
//!   [`lifecycle`] creates, polls, awaits and cancels a run over a
//!   transport that the caller hands in.
//! * [`json`], [`fields`] and [`resource`] are the wire model: documents,
//!   typed members, and what it means for a resource to be written and read.
//! * The other modules hold the resources of the API, one module for each
//!   part of it.
//!
//! Each function states what it returns and is verified against that; the
//! laws that connect the functions are proof functions beside them. The
//! few calls into other crates are marked as trusted where they stand.

pub mod assistant;
pub mod audio;
pub mod chat_completion;
pub mod client;
pub mod common;
pub mod edit;
pub mod embedding;
pub mod error;
pub mod fields;
pub mod file;
pub mod fine_tuning;
pub mod image;
pub mod json;
pub mod lifecycle;
pub mod message;
pub mod models;
pub mod moderation;
pub mod polling;
pub mod resource;
pub mod run;
pub mod string_map;
pub mod text;
pub mod thread;
pub mod transport;
