use netbeat::output::reports::{NetbeatReport, PingReport, Ratio, SpeedReport};
use netbeat::utils::logging::Logger;

const SECOND: u64 = 1_000_000_000;

fn create_speed_report(report_type: &'static str) -> SpeedReport {
    let time = SECOND;
    let bytes = 1e6 as u64;
    SpeedReport::new(report_type, time, bytes).unwrap()
}

fn create_ping_report(no_pings: bool) -> PingReport {
    let ping_count = 4;
    let successful_pings = if no_pings { 0 } else { 2 };
    let ping_times = if no_pings {
        vec![]
    } else {
        vec![SECOND, 2 * SECOND, 3 * SECOND, 4 * SECOND]
    };
    PingReport::new(ping_count, successful_pings, ping_times)
}

#[test]
fn ping_report_figures() {
    let report = create_ping_report(false);
    assert_eq!(report.ping_count, 4);
    assert_eq!(report.successful_pings, 2);
    assert_eq!(report.lost_pings, 2);
    assert_eq!(report.min_ping, SECOND);
    assert_eq!(report.max_ping, 4 * SECOND);
    assert_eq!(report.avg_ping, 2_500_000_000);
    assert_eq!(report.packet_loss(), Ratio { numerator: 200, denominator: 4 });
    let loss = report.packet_loss();
    assert_eq!(loss.numerator as f64 / loss.denominator as f64, 50.0);
    assert_eq!(report.ping_times, vec![SECOND, 2 * SECOND, 3 * SECOND, 4 * SECOND]);
}

#[test]
fn ping_report_without_answers_is_all_zero() {
    let report = create_ping_report(true);
    assert_eq!(report.ping_count, 4);
    assert_eq!(report.successful_pings, 0);
    assert_eq!(report.lost_pings, 4);
    assert_eq!(report.min_ping, 0);
    assert_eq!(report.max_ping, 0);
    assert_eq!(report.avg_ping, 0);
    assert_eq!(report.packet_loss(), Ratio { numerator: 400, denominator: 4 });
    assert!(report.ping_times.is_empty());
}

#[test]
fn ping_report_rounds_the_mean_down_and_keeps_the_order_of_samples() {
    let report = PingReport::new(3, 3, vec![10, 3, 8]);
    assert_eq!(report.min_ping, 3);
    assert_eq!(report.max_ping, 10);
    assert_eq!(report.avg_ping, 7);
    assert_eq!(report.ping_times, vec![10, 3, 8]);
    let report = PingReport::new(2, 2, vec![1, 2]);
    assert_eq!(report.avg_ping, 1);
    let report = PingReport::new(1, 1, vec![42]);
    assert_eq!((report.min_ping, report.max_ping, report.avg_ping), (42, 42, 42));
    assert_eq!(report.packet_loss(), Ratio { numerator: 0, denominator: 1 });
}

#[test]
fn ping_report_takes_the_largest_samples_without_overflow() {
    let report = PingReport::new(3, 3, vec![u64::MAX, u64::MAX, u64::MAX - 3]);
    assert_eq!(report.min_ping, u64::MAX - 3);
    assert_eq!(report.max_ping, u64::MAX);
    assert_eq!(report.avg_ping, u64::MAX - 1);
}

#[test]
fn packet_loss_is_exact() {
    for (sent, answered) in [(1u32, 0u32), (3, 1), (7, 7), (1000, 333), (u32::MAX, 1)] {
        let report = PingReport::new(sent, answered, vec![]);
        let loss = report.packet_loss();
        assert_eq!(loss.numerator, (sent - answered) as u64 * 100);
        assert_eq!(loss.denominator, sent as u64);
    }
    let report = PingReport::new(0, 0, vec![]);
    assert_eq!(report.packet_loss(), Ratio { numerator: 0, denominator: 0 });
}

#[test]
fn speed_report_holds_what_it_was_given() {
    let report = create_speed_report("upload");
    assert_eq!(report.report_type, "upload");
    assert_eq!(report.duration, SECOND);
    assert_eq!(report.bytes, 1_000_000);
    assert_eq!(report.speed(), Some(1_000_000));
    let report = create_speed_report("download");
    assert_eq!(report.report_type, "download");
    assert_eq!(report.speed(), Some(1_000_000));
}

#[test]
fn speed_report_refuses_any_other_direction() {
    let error = SpeedReport::new("sideways", SECOND, 1).unwrap_err();
    assert_eq!(error, "Got `sideways` expected `download` or `upload`");
    let error = SpeedReport::new("", SECOND, 1).unwrap_err();
    assert_eq!(error, "Got `` expected `download` or `upload`");
    assert!(SpeedReport::new("Upload", SECOND, 1).is_err());
}

#[test]
fn speed_is_bytes_per_second_rounded_down() {
    let speed = |bytes: u64, nanos: u64| SpeedReport::new("upload", nanos, bytes).unwrap().speed();
    assert_eq!(speed(4096, 2 * SECOND), Some(2048));
    assert_eq!(speed(1, 3 * SECOND), Some(0));
    assert_eq!(speed(10, 3 * SECOND), Some(3));
    assert_eq!(speed(1, 1), Some(1_000_000_000));
    assert_eq!(speed(u64::MAX, 1), Some(u64::MAX as u128 * 1_000_000_000));
    assert_eq!(speed(0, SECOND), Some(0));
    assert_eq!(speed(4096, 0), None);
}

#[test]
fn a_netbeat_report_holds_the_three_reports_it_was_given() {
    let download_report = create_speed_report("download");
    let upload_report = create_speed_report("upload");
    let ping_report = create_ping_report(false);
    let netbeat_report = NetbeatReport::new(
        ping_report.clone(),
        upload_report.clone(),
        download_report.clone(),
    );
    assert_eq!(netbeat_report.ping_report.ping_times, ping_report.ping_times);
    assert_eq!(netbeat_report.ping_report.avg_ping, ping_report.avg_ping);
    assert_eq!(netbeat_report.upload_report.report_type, "upload");
    assert_eq!(netbeat_report.upload_report.bytes, upload_report.bytes);
    assert_eq!(netbeat_report.download_report.report_type, "download");
    assert_eq!(netbeat_report.download_report.duration, download_report.duration);
}

// Basic smoke test... defer testing to cli itself.
#[test]
fn test_logger() {
    let logger = Logger::new(true, false);
    logger.result("Result");
    logger.info("Info");
    logger.verbose("Verbose");
    logger.error("Error");
    logger.warn("Warning");
    logger.success("Success");
}

#[test]
fn logger_marks_and_suppresses_lines() {
    let plain = Logger::new(false, false);
    assert_eq!(plain.result("r"), "r");
    assert_eq!(plain.info("i"), Some("i".to_string()));
    assert_eq!(plain.verbose("v"), None);
    assert_eq!(plain.error("e"), "❌ e");
    assert_eq!(plain.warn("w"), Some("⚠️  w".to_string()));
    assert_eq!(plain.success("s"), Some("✅ s".to_string()));
    assert!(plain.shows_spinner());

    let verbose = Logger::new(true, false);
    assert_eq!(verbose.verbose("v"), Some("🔍 [VERBOSE] v".to_string()));
    assert_eq!(verbose.info("i"), Some("i".to_string()));
    assert!(!verbose.shows_spinner());

    for quiet in [Logger::new(false, true), Logger::new(true, true)] {
        assert_eq!(quiet.result("r"), "r");
        assert_eq!(quiet.info("i"), None);
        assert_eq!(quiet.verbose("v"), None);
        assert_eq!(quiet.error("e"), "❌ e");
        assert_eq!(quiet.warn("w"), None);
        assert_eq!(quiet.success("s"), None);
        assert!(!quiet.shows_spinner());
    }
}
