//! Session-scoped audio accumulation and the decisions of a transcription
//! request, kept free of I/O so that every rule is stated and proved.

pub mod chat;
pub mod history;
pub mod pipeline;
pub mod process;
pub mod session;
pub mod transcribe;
pub mod transcribe_stream;
pub mod upload;
