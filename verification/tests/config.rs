use netbeat::engine::address::IpAddress;
use netbeat::engine::client::Client;
use netbeat::engine::config::BindInterface;
use netbeat::engine::protocol::{check_chunk_size, resolve_chunk_size};
use netbeat::engine::server::Server;
use netbeat::utils::error::NetbeatError;
use netbeat::utils::logging::Logger;

#[test]
fn test_build_client() {
    let client = Client::builder("0.0.0.0")
        .port(8080)
        .data(Some("100MiB"))
        .time(10)
        .chunk_size("1024")
        .unwrap()
        .ping_count(10)
        .return_json(false)
        .timeout(60)
        .retries(5)
        .quiet(true)
        .verbose(false)
        .build()
        .unwrap();

    assert_eq!(client.socket_addr.port, 8080);
    assert_eq!(client.socket_addr.ip, IpAddress::V4([0, 0, 0, 0]));
    assert_eq!(client.data, Some(100 * 1024 * 1024));
    assert_eq!(client.time, 10);
    assert_eq!(client.chunk_size, 1024);
    assert_eq!(client.ping_count, 10);
    assert_eq!(client.return_json, false);
    assert_eq!(client.timeout, 60);
    assert_eq!(client.retries, 5);

    let _: Logger = client.logger;
    assert_eq!(client.logger.quiet, true);
    assert_eq!(client.logger.verbose, false);
}

#[test]
fn test_build_client_invalid_input() {
    // Invalid target
    let result = Client::builder("invalid_target").build();

    assert!(result.is_err());
    if let Err(e) = result {
        assert!(matches!(e, NetbeatError::ClientError { .. }));
        assert!(e.to_string().contains("Invalid IP address"));
    }

    // Invalid Target Data
    let result = Client::builder("0.0.0.0").data(Some("1MMM")).build();

    assert!(result.is_err());
    if let Err(e) = result {
        assert!(matches!(e, NetbeatError::ClientError { .. }));
        assert!(e.to_string().contains("Invalid target data"));
    }

    // Invalid Chunk Size
    let result = Client::builder("0.0.0.0").chunk_size("1MM");

    assert!(result.is_err());
    if let Err(e) = result {
        assert!(matches!(e, NetbeatError::ClientError { .. }));
        assert!(e.to_string().contains("Invalid chunk size"));
    }
}

#[test]
fn test_build_server() {
    let server = Server::builder()
        .interface(BindInterface::All)
        .port(8080)
        .chunk_size("1024")
        .unwrap()
        .max_connections(100)
        .quiet(true)
        .verbose(false)
        .build()
        .unwrap();

    assert_eq!(server.socket_addr.port, 8080);
    assert_eq!(server.socket_addr.ip, IpAddress::V4([0, 0, 0, 0]));
    assert_eq!(server.chunk_size, 1024);
    assert_eq!(server.max_connections, 100);

    let _: Logger = server.logger;
    assert_eq!(server.logger.quiet, true);
    assert_eq!(server.logger.verbose, false);
}

#[test]
fn test_build_server_invalid_input() {
    // Invalid Chunk Size
    let result = Server::builder().chunk_size("1MM");

    assert!(result.is_err());
    if let Err(e) = result {
        assert!(matches!(e, NetbeatError::ServerError { .. }));
        assert!(e.to_string().contains("Invalid chunk size"));
    }
}

#[test]
fn client_defaults() {
    let client = Client::builder("::1").build().unwrap();
    assert_eq!(client.socket_addr.ip, IpAddress::V6([0, 0, 0, 0, 0, 0, 0, 1]));
    assert_eq!(client.socket_addr.port, 5050);
    assert_eq!(client.data, None);
    assert_eq!(client.time, 10);
    assert_eq!(client.chunk_size, 65536);
    assert_eq!(client.ping_count, 20);
    assert_eq!(client.return_json, false);
    assert_eq!(client.timeout, 30);
    assert_eq!(client.retries, 3);
    assert_eq!(client.logger, Logger::new(false, false));
}

#[test]
fn server_defaults() {
    let server = Server::builder().build().unwrap();
    assert_eq!(server.socket_addr.ip, IpAddress::V4([0, 0, 0, 0]));
    assert_eq!(server.socket_addr.port, 5050);
    assert_eq!(server.chunk_size, 65536);
    assert_eq!(server.max_connections, 50);
    assert_eq!(server.logger, Logger::new(false, false));
    let server = Server::builder().interface(BindInterface::Localhost).build().unwrap();
    assert_eq!(server.socket_addr.ip, IpAddress::V4([127, 0, 0, 1]));
}

#[test]
fn an_address_is_read_into_its_parts() {
    let client = Client::builder("192.168.1.20").port(1).build().unwrap();
    assert_eq!(client.socket_addr.ip, IpAddress::V4([192, 168, 1, 20]));
    let client = Client::builder("2001:db8::8a2e:370:7334").build().unwrap();
    assert_eq!(
        client.socket_addr.ip,
        IpAddress::V6([0x2001, 0xdb8, 0, 0, 0, 0x8a2e, 0x370, 0x7334])
    );
    for target in ["", "localhost", "256.1.1.1", "1.2.3", "1.2.3.4:80", " 1.2.3.4"] {
        let error = Client::builder(target).build().unwrap_err();
        assert!(matches!(error, NetbeatError::ClientError { .. }));
        assert!(error
            .to_string()
            .starts_with(&format!("Client error: Invalid IP address ({target}) - ")));
    }
}

#[test]
fn an_unreadable_address_is_reported_before_unreadable_data() {
    let error = Client::builder("nowhere").data(Some("1MMM")).build().unwrap_err();
    assert!(error.to_string().contains("Invalid IP address (nowhere)"));
    let error = Client::builder("10.0.0.1").data(Some("1MMM")).build().unwrap_err();
    assert!(error
        .to_string()
        .starts_with("Client error: Invalid target data (\"1MMM\") - "));
}

#[test]
fn data_is_read_under_the_binary_unit_convention() {
    let sizes = [
        ("0", 0u64),
        ("1", 1),
        ("4096", 4096),
        ("1KiB", 1024),
        ("1KB", 1000),
        ("10MB", 10_000_000),
        ("1GiB", 1024 * 1024 * 1024),
        ("1.5KiB", 1536),
    ];
    for (text, bytes) in sizes {
        let client = Client::builder("10.0.0.1").data(Some(text)).build().unwrap();
        assert_eq!(client.data, Some(bytes), "{text}");
    }
    let client = Client::builder("10.0.0.1").data(None).build().unwrap();
    assert_eq!(client.data, None);
}

#[test]
fn chunk_sizes_from_one_kib_to_sixteen_mib_resolve_to_their_byte_count() {
    let sizes = [
        ("1024", 1024u64),
        ("1KiB", 1024),
        ("1025", 1025),
        ("32KiB", 32 * 1024),
        ("64KiB", 65536),
        ("1MB", 1_000_000),
        ("16MiB", 16 * 1024 * 1024),
        ("16777216", 16_777_216),
    ];
    for (text, bytes) in sizes {
        assert_eq!(resolve_chunk_size(text, "client").unwrap(), bytes, "{text}");
        assert_eq!(resolve_chunk_size(text, "server").unwrap(), bytes, "{text}");
        let client = Client::builder("10.0.0.1").chunk_size(text).unwrap().build().unwrap();
        assert_eq!(client.chunk_size, bytes);
        let server = Server::builder().chunk_size(text).unwrap().build().unwrap();
        assert_eq!(server.chunk_size, bytes);
    }
}

#[test]
fn chunk_sizes_out_of_range_or_malformed_are_refused() {
    for text in ["0", "1", "1023", "1KB", "1000"] {
        let error = resolve_chunk_size(text, "client").unwrap_err();
        assert_eq!(error.to_string(), "Client error: Chunk size must be at least 1KiB", "{text}");
        let error = resolve_chunk_size(text, "server").unwrap_err();
        assert_eq!(error.to_string(), "Server error: Chunk size must be at least 1KiB", "{text}");
    }
    for text in ["16777217", "17MiB", "1GiB", "1TiB"] {
        let error = resolve_chunk_size(text, "client").unwrap_err();
        assert_eq!(error.to_string(), "Client error: Chunk size must not exceed 16MiB", "{text}");
    }
    for text in ["", "KiB", "64 K i B", "64XiB", "sixty-four", "-64KiB", "1MM"] {
        let error = resolve_chunk_size(text, "server").unwrap_err();
        assert!(matches!(error, NetbeatError::ServerError { .. }));
        assert!(
            error
                .to_string()
                .starts_with(&format!("Server error: Invalid chunk size '{text}' - ")),
            "{text}"
        );
        let error = resolve_chunk_size(text, "anything").unwrap_err();
        assert!(matches!(error, NetbeatError::ClientError { .. }));
    }
}

#[test]
fn check_chunk_size_decides_from_what_was_read() {
    assert_eq!(check_chunk_size("1KiB", Ok(1024), "client").unwrap(), 1024);
    assert_eq!(check_chunk_size("16MiB", Ok(16_777_216), "server").unwrap(), 16_777_216);
    let error = check_chunk_size("x", Ok(1023), "server").unwrap_err();
    assert_eq!(error.to_string(), "Server error: Chunk size must be at least 1KiB");
    let error = check_chunk_size("x", Ok(16_777_217), "client").unwrap_err();
    assert_eq!(error.to_string(), "Client error: Chunk size must not exceed 16MiB");
    let error = check_chunk_size("6x", Err("no unit".to_string()), "client").unwrap_err();
    assert_eq!(error.to_string(), "Client error: Invalid chunk size '6x' - no unit");
    let error = check_chunk_size("6x", Err("no unit".to_string()), "server").unwrap_err();
    assert_eq!(error.to_string(), "Server error: Invalid chunk size '6x' - no unit");
}

#[test]
fn build_from_decides_from_what_was_read() {
    let client = Client::builder("ignored")
        .data(Some("also ignored"))
        .build_from(Ok(IpAddress::V4([1, 2, 3, 4])), Ok(77))
        .unwrap();
    assert_eq!(client.socket_addr.ip, IpAddress::V4([1, 2, 3, 4]));
    assert_eq!(client.data, Some(77));
    let client = Client::builder("ignored")
        .build_from(Ok(IpAddress::V4([1, 2, 3, 4])), Err("unused".to_string()))
        .unwrap();
    assert_eq!(client.data, None);
    let error = Client::builder("t")
        .data(Some("d"))
        .build_from(Err("bad address".to_string()), Err("bad size".to_string()))
        .unwrap_err();
    assert_eq!(error.to_string(), "Client error: Invalid IP address (t) - bad address");
    let error = Client::builder("t")
        .data(Some("a\"b"))
        .build_from(Ok(IpAddress::V4([1, 2, 3, 4])), Err("bad size".to_string()))
        .unwrap_err();
    assert_eq!(error.to_string(), "Client error: Invalid target data (\"a\\\"b\") - bad size");
}

#[test]
fn a_rejected_text_is_answered_with_the_complaint_of_its_reader() {
    let error = resolve_chunk_size("", "server").unwrap_err();
    assert_eq!(
        error.to_string(),
        "Server error: Invalid chunk size '' - no value can be found"
    );
    let error = resolve_chunk_size("x", "client").unwrap_err();
    assert_eq!(
        error.to_string(),
        "Client error: Invalid chunk size 'x' - the character 'x' is not a number"
    );
    let error = Client::builder("nowhere").build().unwrap_err();
    assert_eq!(
        error.to_string(),
        "Client error: Invalid IP address (nowhere) - invalid IP address syntax"
    );
    let error = Client::builder("10.0.0.1").data(Some("")).build().unwrap_err();
    assert_eq!(
        error.to_string(),
        "Client error: Invalid target data (\"\") - no value can be found"
    );
}

#[test]
fn the_library_offers_its_main_types_at_its_root() {
    let client: netbeat::Client = netbeat::Client::builder("10.0.0.1").build().unwrap();
    let server: netbeat::Server = netbeat::Server::builder()
        .interface(netbeat::BindInterface::All)
        .build()
        .unwrap();
    assert_eq!(client.socket_addr.port, server.socket_addr.port);
    let error: netbeat::NetbeatError = netbeat::NetbeatError::client("x".to_string());
    assert_eq!(error.to_string(), "Client error: x");
}
