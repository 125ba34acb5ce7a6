use netbeat::engine::config::BindInterface;
use netbeat::engine::protocol::{
    generate_random_buffer, validate_chunk_size, write_message, DOWNLOAD_DONE, DOWNLOAD_START,
    PING_DONE, PING_MESSAGE, PING_RESPONSE, PROTOCOL_VERSION, UPLOAD_DONE, UPLOAD_START,
};
use netbeat::utils::error::NetbeatError;

#[test]
fn test_bind_interface_to_ip() {
    assert_eq!(BindInterface::All.to_ip(), "0.0.0.0");
    assert_eq!(BindInterface::Localhost.to_ip(), "127.0.0.1");
}

#[test]
fn test_bind_interface_display() {
    assert_eq!(BindInterface::All.to_string(), "all");
    assert_eq!(BindInterface::Localhost.to_string(), "localhost");
}

#[test]
fn test_generate_random_buffer_size() {
    let buffer = generate_random_buffer(1024);
    assert_eq!(buffer.len(), 1024);
}

#[test]
fn test_generate_random_buffer_different_calls() {
    let buf1 = generate_random_buffer(100);
    let buf2 = generate_random_buffer(100);
    assert_ne!(buf1, buf2); // Should be different random data
}

#[test]
fn test_protocol_constants() {
    assert_eq!(PROTOCOL_VERSION, *b"NETBEAT_1.0");
    assert_eq!(PING_MESSAGE, *b"NETBEAT_PING");
    assert_eq!(PING_RESPONSE, *b"NETBEAT_PONG");
    assert_eq!(PING_DONE, *b"NETBEAT_DONE");
    assert_eq!(UPLOAD_START, *b"NETBEAT_UPLOAD_START");
    assert_eq!(UPLOAD_DONE, *b"NETBEAT_UPLOAD_DONE");
    assert_eq!(DOWNLOAD_START, *b"NETBEAT_DOWNLOAD_START");
    assert_eq!(DOWNLOAD_DONE, *b"NETBEAT_DOWNLOAD_DONE");
}

#[test]
fn test_write_message() {
    let mut buffer = Vec::new();
    let message = b"Hello, World!";
    write_message(&mut buffer, message).unwrap();
    assert_eq!(buffer, message);
}

#[test]
fn test_validate_chunk_size() {
    let size = validate_chunk_size("1024", "server").unwrap();
    assert_eq!(size, "1024");

    let size = validate_chunk_size("16MiB", "client").unwrap();
    assert_eq!(size, "16MiB");

    let result = validate_chunk_size("1B", "client");
    assert!(result.is_err());
    if let Err(e) = result {
        assert!(matches!(e, NetbeatError::ClientError { .. }));
        assert!(e.to_string().contains("must be at least 1KiB"));
    }

    let result = validate_chunk_size("1GiB", "server");
    assert!(result.is_err());
    if let Err(e) = result {
        assert!(matches!(e, NetbeatError::ServerError { .. }));
        assert!(e.to_string().contains("must not exceed 16MiB"));
    }

    // Test invalid format
    let result = validate_chunk_size("invalid", "client");
    assert!(result.is_err());
    if let Err(e) = result {
        assert!(matches!(e, NetbeatError::ClientError { .. }));
        assert!(e.to_string().contains("Invalid chunk size"));
    }

    let result = validate_chunk_size("", "server");
    assert!(result.is_err());
    if let Err(e) = result {
        assert!(matches!(e, NetbeatError::ServerError { .. }));
        assert!(e.to_string().contains("Invalid chunk size"));
    }
}

#[test]
fn test_netbeat_error() {
    let error = NetbeatError::protocol("Invalid protocol".to_string());
    assert_eq!(error.to_string(), "Protocol error: Invalid protocol");

    let error = NetbeatError::server("Server not found".to_string());
    assert_eq!(error.to_string(), "Server error: Server not found");

    let error = NetbeatError::client("Client not found".to_string());
    assert_eq!(error.to_string(), "Client error: Client not found");

    let error = NetbeatError::test_execution("Test execution failed".to_string());
    assert_eq!(
        error.to_string(),
        "Test execution error: Test execution failed"
    );
}
