//! Batch conversion of MOV video files to MP4.
//!
//! The library holds the verified core of the converter: discovery of source
//! files by extension, derivation of output paths, construction of the
//! encoder's argument list, interpretation of the encoder's exit status, the
//! progress-reporting protocol, and the batch orchestration state machine.
//! All file-system access, the external encoder process, and terminal
//! rendering live outside the library and hand it plain values.

pub mod batch;
pub mod discovery;
pub mod encoder;
pub mod errors;
pub mod jobs;
pub mod paths;
pub mod progress;
pub mod prompt;
pub mod text;

pub use errors::AppError;
