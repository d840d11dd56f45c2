use omnecache::error::{CacheableError, ConfigurationError};

#[test]
fn test_byte_cacheable_error_display() {
    let error = CacheableError::NotFound;
    assert_eq!(error.message(), "Data not found");
}

#[test]
fn test_configuration_error_display() {
    let error = ConfigurationError::CfgDirNotFound;
    assert_eq!(error.message(), "directory not found");
}

#[test]
fn test_configuration_error_io_display() {
    let config_error = ConfigurationError::Io("IO error".to_string());
    assert_eq!(config_error.message(), "IO error: IO error");
}

#[test]
fn cacheable_error_messages() {
    assert_eq!(
        CacheableError::WriteError.message(),
        "Could not find a viable cache to write to"
    );
    assert_eq!(CacheableError::EmptyBuffer.message(), "Keys cannot have an empty value");
    assert_eq!(CacheableError::EmptyKey.message(), "Keys cannot be empty");
    assert_eq!(CacheableError::StorageFull.message(), "Cannot exceed cache limit");
}
