use netbeat::cli::grammar::CliError;
use netbeat::cli::{run, Cli, Commands, Endpoint};
use netbeat::engine::address::IpAddress;
use netbeat::engine::config::BindInterface;
use netbeat::utils::error::NetbeatError;

#[test]
fn cli_test_run_command_with_all_options() {
    let args = [
        "netbeat",
        "run",
        "example.com",
        "--port",
        "8080",
        "--data",
        "1GiB",
        "--time",
        "30",
        "--chunk-size",
        "128KiB",
    ];
    let cli = Cli::try_parse_from(&args).unwrap();

    match cli.command {
        Commands::Run(run_args) => {
            assert_eq!(run_args.target, "example.com");
            assert_eq!(run_args.port, 8080);
            assert_eq!(run_args.data.as_deref(), Some("1GiB"));
            assert_eq!(run_args.time, 30);
            assert_eq!(run_args.chunk_size, "128KiB");
        }
        _ => panic!("Expected Run command"),
    }
}

#[test]
fn cli_test_serve_command_basic() {
    let args = ["netbeat", "serve"];
    let cli = Cli::try_parse_from(&args).unwrap();

    match cli.command {
        Commands::Serve(serve_args) => {
            assert_eq!(serve_args.interface.to_ip(), "0.0.0.0"); // default
            assert_eq!(serve_args.port, 5050); // default
            assert_eq!(serve_args.chunk_size, "64KiB"); // default
        }
        _ => panic!("Expected Serve command"),
    }
}

#[test]
fn cli_test_invalid_command_fails() {
    let args = ["netbeat", "invalid-command"];
    let result = Cli::try_parse_from(&args);
    assert!(result.is_err());
}

#[test]
fn cli_test_missing_target_for_run_fails() {
    let args = ["netbeat", "run"];
    let result = Cli::try_parse_from(&args);
    assert!(result.is_err());
}

#[test]
fn cli_test_short_flags() {
    let args = [
        "netbeat",
        "run",
        "localhost",
        "-p",
        "3000",
        "-d",
        "50MiB",
        "-t",
        "60",
        "-c",
        "16KiB",
    ];
    let cli = Cli::try_parse_from(&args).unwrap();

    match cli.command {
        Commands::Run(run_args) => {
            assert_eq!(run_args.target, "localhost");
            assert_eq!(run_args.port, 3000);
            assert_eq!(run_args.data.as_deref(), Some("50MiB"));
            assert_eq!(run_args.time, 60);
            assert_eq!(run_args.chunk_size, "16KiB");
        }
        _ => panic!("Expected Run command"),
    }
}

#[test]
fn mod_test_run_command_with_all_options() {
    let args = [
        "netbeat",
        "run",
        "example.com",
        "--port",
        "8080",
        "--data",
        "1GiB",
        "--time",
        "30",
        "--chunk-size",
        "128KiB",
        "--ping-count",
        "20",
    ];
    let cli = Cli::try_parse_from(&args).unwrap();

    match cli.command {
        Commands::Run(run_args) => {
            assert_eq!(run_args.target, "example.com");
            assert_eq!(run_args.port, 8080);
            assert_eq!(run_args.data.as_deref(), Some("1GiB"));
            assert_eq!(run_args.time, 30);
            assert_eq!(run_args.chunk_size, "128KiB");
            assert_eq!(run_args.ping_count, 20);
        }
        _ => panic!("Expected Run command"),
    }
}

#[test]
fn mod_test_serve_command_basic() {
    let args = ["netbeat", "serve"];
    let cli = Cli::try_parse_from(&args).unwrap();

    match cli.command {
        Commands::Serve(serve_args) => {
            assert!(matches!(serve_args.interface, BindInterface::All)); // default
            assert_eq!(serve_args.port, 5050); // default
            assert_eq!(serve_args.chunk_size, "64KiB"); // default
        }
        _ => panic!("Expected Serve command"),
    }
}

#[test]
fn mod_test_serve_command_with_options() {
    let args = [
        "netbeat",
        "serve",
        "--interface",
        "all",
        "--port",
        "9090",
        "--chunk-size",
        "32KiB",
    ];
    let cli = Cli::try_parse_from(&args).unwrap();

    match cli.command {
        Commands::Serve(serve_args) => {
            assert!(matches!(serve_args.interface, BindInterface::All));
            assert_eq!(serve_args.port, 9090);
            assert_eq!(serve_args.chunk_size, "32KiB");
        }
        _ => panic!("Expected Serve command"),
    }
}

#[test]
fn mod_test_invalid_command_fails() {
    let args = ["netbeat", "invalid-command"];
    let result = Cli::try_parse_from(&args);
    assert!(result.is_err());
}

#[test]
fn mod_test_missing_target_for_run_fails() {
    let args = ["netbeat", "run"];
    let result = Cli::try_parse_from(&args);
    assert!(result.is_err());
}

#[test]
fn mod_test_short_flags() {
    let args = [
        "netbeat",
        "run",
        "localhost",
        "-p",
        "3000",
        "-d",
        "50MiB",
        "-t",
        "60",
        "-c",
        "16KiB",
    ];
    let cli = Cli::try_parse_from(&args).unwrap();

    match cli.command {
        Commands::Run(run_args) => {
            assert_eq!(run_args.target, "localhost");
            assert_eq!(run_args.port, 3000);
            assert_eq!(run_args.data.as_deref(), Some("50MiB"));
            assert_eq!(run_args.time, 60);
            assert_eq!(run_args.chunk_size, "16KiB");
        }
        _ => panic!("Expected Run command"),
    }
}

#[test]
fn run_defaults_follow_the_configuration() {
    let cli = Cli::try_parse_from(&["netbeat", "run", "192.168.1.1"]).unwrap();
    match cli.command {
        Commands::Run(run_args) => {
            assert_eq!(run_args.target, "192.168.1.1");
            assert_eq!(run_args.port, 5050);
            assert_eq!(run_args.data, None);
            assert_eq!(run_args.time, 10);
            assert_eq!(run_args.chunk_size, "64KiB");
            assert_eq!(run_args.ping_count, 20);
            assert_eq!(run_args.timeout, 30);
            assert_eq!(run_args.retries, 3);
            assert!(!run_args.json);
            assert!(!run_args.quiet);
            assert!(!run_args.verbose);
        }
        _ => panic!("Expected Run command"),
    }
}

#[test]
fn serve_defaults_and_all_options() {
    let cli = Cli::try_parse_from(&[
        "netbeat",
        "serve",
        "-i",
        "localhost",
        "--connections",
        "7",
        "-q",
        "-v",
    ])
    .unwrap();
    match cli.command {
        Commands::Serve(serve_args) => {
            assert_eq!(serve_args.interface, BindInterface::Localhost);
            assert_eq!(serve_args.port, 5050);
            assert_eq!(serve_args.connections, 7);
            assert!(serve_args.quiet);
            assert!(serve_args.verbose);
        }
        _ => panic!("Expected Serve command"),
    }
    let cli = Cli::try_parse_from(&["netbeat", "serve"]).unwrap();
    match cli.command {
        Commands::Serve(serve_args) => assert_eq!(serve_args.connections, 50),
        _ => panic!("Expected Serve command"),
    }
}

#[test]
fn each_kind_of_misuse_is_told_apart() {
    let result = Cli::try_parse_from(&["netbeat"]);
    assert!(matches!(result, Err(CliError::MissingCommand)));
    let result = Cli::try_parse_from(&[]);
    assert!(matches!(result, Err(CliError::MissingCommand)));
    let result = Cli::try_parse_from(&["netbeat", "invalid-command"]);
    assert!(matches!(result, Err(CliError::UnknownCommand(ref word)) if word == "invalid-command"));
    let result = Cli::try_parse_from(&["netbeat", "--frobnicate"]);
    assert!(matches!(result, Err(CliError::UnknownOption(ref word)) if word == "--frobnicate"));
    let result = Cli::try_parse_from(&["netbeat", "run"]);
    assert!(matches!(result, Err(CliError::MissingTarget)));
    let result = Cli::try_parse_from(&["netbeat", "run", "10.0.0.1", "10.0.0.2"]);
    assert!(matches!(result, Err(CliError::UnexpectedArgument(ref word)) if word == "10.0.0.2"));
    let result = Cli::try_parse_from(&["netbeat", "serve", "127.0.0.1"]);
    assert!(matches!(result, Err(CliError::UnexpectedArgument(ref word)) if word == "127.0.0.1"));
    let result = Cli::try_parse_from(&["netbeat", "run", "10.0.0.1", "--interface", "all"]);
    assert!(matches!(result, Err(CliError::UnknownOption(ref word)) if word == "--interface"));
    let result = Cli::try_parse_from(&["netbeat", "serve", "--data", "1GiB"]);
    assert!(matches!(result, Err(CliError::UnknownOption(ref word)) if word == "--data"));
    let result = Cli::try_parse_from(&["netbeat", "run", "10.0.0.1", "-p", "1", "--port", "2"]);
    assert!(matches!(result, Err(CliError::DuplicateOption(ref word)) if word == "--port"));
    let result = Cli::try_parse_from(&["netbeat", "run", "10.0.0.1", "-q", "-q"]);
    assert!(matches!(result, Err(CliError::DuplicateOption(ref word)) if word == "-q"));
    let result = Cli::try_parse_from(&["netbeat", "run", "10.0.0.1", "--port"]);
    assert!(matches!(result, Err(CliError::MissingValue(ref word)) if word == "--port"));
    let result = Cli::try_parse_from(&["netbeat", "serve", "-i", "everywhere"]);
    assert!(
        matches!(result, Err(CliError::InvalidValue { ref option, ref value }) if option == "-i" && value == "everywhere")
    );
}

#[test]
fn numbers_are_held_to_their_ranges() {
    for port in ["0", "65536", "-1", "+80", "80a", "", " 80", "99999999999999999999999"] {
        let result = Cli::try_parse_from(&["netbeat", "run", "10.0.0.1", "--port", port]);
        assert!(matches!(result, Err(CliError::InvalidValue { .. })), "port {port:?}");
    }
    for port in ["1", "65535", "0080"] {
        let result = Cli::try_parse_from(&["netbeat", "serve", "--port", port]);
        assert!(result.is_ok(), "port {port:?}");
    }
    for time in ["0", "3601"] {
        let result = Cli::try_parse_from(&["netbeat", "run", "10.0.0.1", "-t", time]);
        assert!(matches!(result, Err(CliError::InvalidValue { .. })));
    }
    for count in ["0", "1001"] {
        let result = Cli::try_parse_from(&["netbeat", "run", "10.0.0.1", "--ping-count", count]);
        assert!(matches!(result, Err(CliError::InvalidValue { .. })));
    }
    let cli = Cli::try_parse_from(&[
        "netbeat",
        "run",
        "10.0.0.1",
        "-t",
        "3600",
        "--ping-count",
        "1000",
        "--timeout",
        "18446744073709551615",
        "--retries",
        "4294967295",
        "-j",
    ])
    .unwrap();
    match cli.command {
        Commands::Run(run_args) => {
            assert_eq!(run_args.time, 3600);
            assert_eq!(run_args.ping_count, 1000);
            assert_eq!(run_args.timeout, u64::MAX);
            assert_eq!(run_args.retries, u32::MAX);
            assert!(run_args.json);
        }
        _ => panic!("Expected Run command"),
    }
    let result = Cli::try_parse_from(&["netbeat", "run", "10.0.0.1", "--retries", "4294967296"]);
    assert!(matches!(result, Err(CliError::InvalidValue { .. })));
    let result =
        Cli::try_parse_from(&["netbeat", "run", "10.0.0.1", "--timeout", "18446744073709551616"]);
    assert!(matches!(result, Err(CliError::InvalidValue { .. })));
}

#[test]
fn help_and_version_end_with_success() {
    for args in [
        vec!["netbeat", "--help"],
        vec!["netbeat", "-h"],
        vec!["netbeat", "help"],
        vec!["netbeat", "run", "--help"],
        vec!["netbeat", "serve", "-h"],
    ] {
        let error = Cli::try_parse_from(&args).unwrap_err();
        assert!(matches!(error, CliError::HelpRequested));
        assert_eq!(error.exit_code(), 0);
    }
    for args in [vec!["netbeat", "--version"], vec!["netbeat", "-V"]] {
        let error = Cli::try_parse_from(&args).unwrap_err();
        assert!(matches!(error, CliError::VersionRequested));
        assert_eq!(error.exit_code(), 0);
    }
    let error = Cli::try_parse_from(&["netbeat", "run", "--version"]).unwrap_err();
    assert!(matches!(error, CliError::UnknownOption(_)));
    assert_eq!(error.exit_code(), 2);
    assert_eq!(error.to_string(), "unexpected option: --version");
    let error = Cli::try_parse_from(&["netbeat", "run"]).unwrap_err();
    assert_eq!(error.exit_code(), 2);
    assert_eq!(error.to_string(), "the required argument <TARGET> was not provided");
    let error = Cli::try_parse_from(&["netbeat", "serve", "-p", "x"]).unwrap_err();
    assert_eq!(error.to_string(), "invalid value for -p: x");
}

#[test]
fn run_resolves_a_command_into_its_endpoint() {
    let cli = Cli::try_parse_from(&[
        "netbeat", "run", "10.1.1.11", "-p", "8080", "-d", "4KiB", "-c", "1KiB", "--ping-count",
        "4", "--retries", "5", "--timeout", "7", "-q",
    ])
    .unwrap();
    match run(cli).unwrap() {
        Endpoint::Client(client) => {
            assert_eq!(client.socket_addr.ip, IpAddress::V4([10, 1, 1, 11]));
            assert_eq!(client.socket_addr.port, 8080);
            assert_eq!(client.data, Some(4096));
            assert_eq!(client.chunk_size, 1024);
            assert_eq!(client.ping_count, 4);
            assert_eq!(client.retries, 5);
            assert_eq!(client.timeout, 7);
            assert_eq!(client.time, 10);
            assert!(client.logger.quiet);
        }
        Endpoint::Server(_) => panic!("Expected a client"),
    }
    let cli = Cli::try_parse_from(&["netbeat", "serve", "-i", "localhost", "--connections", "5"])
        .unwrap();
    match run(cli).unwrap() {
        Endpoint::Server(server) => {
            assert_eq!(server.socket_addr.ip, IpAddress::V4([127, 0, 0, 1]));
            assert_eq!(server.socket_addr.port, 5050);
            assert_eq!(server.chunk_size, 65536);
            assert_eq!(server.max_connections, 5);
        }
        Endpoint::Client(_) => panic!("Expected a server"),
    }
}

#[test]
fn run_reports_the_side_that_is_misconfigured() {
    let cli = Cli::try_parse_from(&["netbeat", "run", "example.com"]).unwrap();
    let error = run(cli).unwrap_err();
    assert!(matches!(error, NetbeatError::ClientError { .. }));
    assert!(error.to_string().contains("Invalid IP address (example.com)"));

    let cli = Cli::try_parse_from(&["netbeat", "run", "example.com", "-c", "1B"]).unwrap();
    let error = run(cli).unwrap_err();
    assert_eq!(error.to_string(), "Client error: Chunk size must be at least 1KiB");

    let cli = Cli::try_parse_from(&["netbeat", "serve", "-c", "17MiB"]).unwrap();
    let error = run(cli).unwrap_err();
    assert_eq!(error.to_string(), "Server error: Chunk size must not exceed 16MiB");
}
