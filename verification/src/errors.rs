//! Error types of the device-side video pipeline.

use vstd::prelude::*;
use std::path::PathBuf;
use std::time::Duration;

verus! {

/// Errors of file operations.
#[derive(Debug)]
pub enum FileError {
    Io(std::io::Error),
    UnsupportedFormat { format: String },
    CorruptedFile,
    PermissionDenied,
    FileNotFound { path: PathBuf },
    InvalidMetadata,
    InvalidSeekPosition,
    SeekFailed,
    SeekBeyondEnd,
    NoVideoStream,
    NalParseError,
    IndexBuildFailed { reason: String },
}

/// Errors of the FFmpeg integration.
#[derive(Debug)]
pub enum FFmpegError {
    NotAvailable,
    CommandFailed { message: String },
    ParseError { reason: String },
    IncompatibleVersion { version: String },
    Timeout { duration: Duration },
    UnsupportedFormat { format: String },
    Io(std::io::Error),
    Utf8Error(std::string::FromUtf8Error),
    ProcessError(String),
}

/// Errors shared by the device and the platform.
#[derive(Debug)]
pub enum VideoStreamError {
    QuicError(String),
    IoError(std::io::Error),
    SerdeError(serde_json::Error),
    BincodeError(String),
    DeviceNotFound(String),
    RecordingNotFound(String),
    SessionExpired(String),
    InvalidParameter(String),
    ProtocolError(String),
    NetworkError(String),
    FileNotFound(String),
}

} // verus!
