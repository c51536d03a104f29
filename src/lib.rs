//! Management of a long-lived speech-to-text worker process: the
//! length-prefixed framing of its pipes, the reading of its replies, and the
//! decisions that start, reuse and restart it.

pub mod frame;
pub mod error;
pub mod reply;
pub mod audio;
pub mod worker;
pub mod resolve;
