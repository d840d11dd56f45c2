//! Error types for OmneCache operations.
//!
//! [`CacheableError`] covers the core caching operations; read-side faults
//! are normally collapsed to a miss instead of surfacing one of these, so
//! they appear mostly on the write path.  [`ConfigurationError`] covers
//! turning a configuration value into a cache tier.

use vstd::prelude::*;

verus! {

/// Errors that can occur during cache operations.
#[derive(Debug, Clone, Copy, PartialEq, Eq, Structural)]
pub enum CacheableError {
    /// The requested data was not found in any tier
    NotFound,
    /// No viable tier was available for writing
    WriteError,
    /// A payload was unexpectedly empty
    EmptyBuffer,
    /// A key string was unexpectedly empty
    EmptyKey,
    /// A non-empty key failed validation (separator, NUL, leading dot, length)
    InvalidKey,
    /// Capacity admission or disk space refused a new entry
    StorageFull,
    /// An advisory lock could not be obtained
    LockContention,
    /// A written entry failed read-back verification
    IntegrityFailure,
    /// A bounded filesystem operation ran out of time
    Timeout,
    /// The filesystem refused the operation's permissions
    PermissionDenied,
    /// A path that the operation needs does not exist
    NotFoundOnDisk,
    /// The filesystem rejected the operation's input
    InvalidInput,
    /// Any other I/O failure
    Io,
}

impl CacheableError {
    /// The description each error carries.
    pub open spec fn spec_message(self) -> Seq<char> {
        match self {
            CacheableError::NotFound => "Data not found"@,
            CacheableError::WriteError => "Could not find a viable cache to write to"@,
            CacheableError::EmptyBuffer => "Keys cannot have an empty value"@,
            CacheableError::EmptyKey => "Keys cannot be empty"@,
            CacheableError::InvalidKey => "Invalid characters in cache key"@,
            CacheableError::StorageFull => "Cannot exceed cache limit"@,
            CacheableError::LockContention => "File could not obtain a lock."@,
            CacheableError::IntegrityFailure => "Written data failed verification"@,
            CacheableError::Timeout => "Operation timed out"@,
            CacheableError::PermissionDenied => "Permission denied"@,
            CacheableError::NotFoundOnDisk => "Path does not exist"@,
            CacheableError::InvalidInput => "Invalid input"@,
            CacheableError::Io => "IO error"@,
        }
    }

    /// A human-readable description of the error.
    pub fn message(&self) -> (r: &'static str)
        ensures
            r@ == self.spec_message(),
    {
        match self {
            CacheableError::NotFound => "Data not found",
            CacheableError::WriteError => "Could not find a viable cache to write to",
            CacheableError::EmptyBuffer => "Keys cannot have an empty value",
            CacheableError::EmptyKey => "Keys cannot be empty",
            CacheableError::InvalidKey => "Invalid characters in cache key",
            CacheableError::StorageFull => "Cannot exceed cache limit",
            CacheableError::LockContention => "File could not obtain a lock.",
            CacheableError::IntegrityFailure => "Written data failed verification",
            CacheableError::Timeout => "Operation timed out",
            CacheableError::PermissionDenied => "Permission denied",
            CacheableError::NotFoundOnDisk => "Path does not exist",
            CacheableError::InvalidInput => "Invalid input",
            CacheableError::Io => "IO error",
        }
    }
}

/// Errors that can occur when building a cache from a configuration.
#[derive(Debug, Clone, PartialEq, Eq)]
pub enum ConfigurationError {
    /// IO error while reaching the configured paths
    Io(String),
    /// The tier is marked disabled in its configuration
    Disabled,
    /// The configuration names no path for a directory-backed tier
    MissingPath,
    /// The configuration names no capacity for a bounded tier
    MissingItems,
    /// The configured capacity is not a positive number
    InvalidItems,
    /// Configuration directory not found
    CfgDirNotFound,
}

impl ConfigurationError {
    /// The description each error carries; an I/O error repeats its cause.
    pub open spec fn spec_message(self) -> Seq<char> {
        match self {
            ConfigurationError::Io(msg) => "IO error: "@ + msg@,
            ConfigurationError::Disabled => "cache tier is disabled"@,
            ConfigurationError::MissingPath => "cache path not specified"@,
            ConfigurationError::MissingItems => "cache items not specified"@,
            ConfigurationError::InvalidItems => "cache items must be a positive number"@,
            ConfigurationError::CfgDirNotFound => "directory not found"@,
        }
    }

    /// A human-readable description of the error.
    pub fn message(&self) -> (r: String)
        ensures
            r@ == self.spec_message(),
    {
        match self {
            ConfigurationError::Io(msg) => String::from_str("IO error: ").concat(msg.as_str()),
            ConfigurationError::Disabled => String::from_str("cache tier is disabled"),
            ConfigurationError::MissingPath => String::from_str("cache path not specified"),
            ConfigurationError::MissingItems => String::from_str("cache items not specified"),
            ConfigurationError::InvalidItems => String::from_str(
                "cache items must be a positive number",
            ),
            ConfigurationError::CfgDirNotFound => String::from_str("directory not found"),
        }
    }
}

} // verus!
