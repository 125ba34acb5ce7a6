//! Key test reports for netbeat.
//!
//! This module contains the primary reports for netbeat, including the PingReport,
//! SpeedReport, and NetbeatReport. They hold the figures of a speed test against a
//! target server as exact integers: durations in nanoseconds, amounts in bytes.

use crate::engine::text::{join2, same_text};
use vstd::prelude::*;
use vstd::string::StringExecFns;

verus! {

/// Nanoseconds in a second.
pub const NANOS_PER_SECOND: u64 = 1_000_000_000;

/// The sum of the samples.
pub open spec fn total(samples: Seq<u64>) -> nat
    decreases samples.len(),
{
    if samples.len() == 0 {
        0
    } else {
        total(samples.drop_last()) + samples.last() as nat
    }
}

/// Whether `m` is the least of the samples; of no samples, zero is.
pub open spec fn is_minimum(m: u64, samples: Seq<u64>) -> bool {
    if samples.len() == 0 {
        m == 0
    } else {
        samples.contains(m) && forall|i: int| 0 <= i < samples.len() ==> m <= samples[i]
    }
}

/// Whether `m` is the greatest of the samples; of no samples, zero is.
pub open spec fn is_maximum(m: u64, samples: Seq<u64>) -> bool {
    if samples.len() == 0 {
        m == 0
    } else {
        samples.contains(m) && forall|i: int| 0 <= i < samples.len() ==> samples[i] <= m
    }
}

/// The mean of the samples, rounded down to a whole nanosecond; of no samples, zero.
pub open spec fn mean(samples: Seq<u64>) -> nat {
    if samples.len() == 0 {
        0
    } else {
        total(samples) / samples.len()
    }
}

/// A sum of samples is at most as many times the largest value a sample can take.
pub proof fn lemma_total_bound(samples: Seq<u64>)
    ensures
        total(samples) <= samples.len() * u64::MAX,
    decreases samples.len(),
{
    if samples.len() > 0 {
        lemma_total_bound(samples.drop_last());
        assert((samples.len() - 1) * u64::MAX + u64::MAX == samples.len() * u64::MAX)
            by (nonlinear_arith);
    }
}

/// The mean lies between the least and the greatest sample.
pub proof fn lemma_mean_between(samples: Seq<u64>, low: u64, high: u64)
    requires
        samples.len() > 0,
        forall|i: int| 0 <= i < samples.len() ==> low <= #[trigger] samples[i] && samples[i] <= high,
    ensures
        low <= mean(samples) <= high,
{
    lemma_total_between(samples, low, high);
    let n = samples.len();
    let t = total(samples);
    assert(low <= t / n <= high) by (nonlinear_arith)
        requires
            n > 0,
            n * low <= t <= n * high,
    ;
}

proof fn lemma_total_between(samples: Seq<u64>, low: u64, high: u64)
    requires
        forall|i: int| 0 <= i < samples.len() ==> low <= #[trigger] samples[i] && samples[i] <= high,
    ensures
        samples.len() * low <= total(samples) <= samples.len() * high,
    decreases samples.len(),
{
    if samples.len() > 0 {
        let rest = samples.drop_last();
        assert forall|i: int| 0 <= i < rest.len() implies low <= #[trigger] rest[i] && rest[i]
            <= high by {}
        lemma_total_between(rest, low, high);
        let n = samples.len();
        assert((n - 1) * low + low == n * low) by (nonlinear_arith);
        assert((n - 1) * high + high == n * high) by (nonlinear_arith);
    }
}

/// The sum of the samples with one more is the sum before and the new sample.
pub proof fn lemma_total_push(samples: Seq<u64>, sample: u64)
    ensures
        total(samples.push(sample)) == total(samples) + sample,
{
    assert(samples.push(sample).drop_last() =~= samples);
}

/// With one more sample, the least is the lesser of the least before and the new
/// sample, and the greatest the greater of the greatest before and the new sample; the
/// first sample is both.
pub proof fn lemma_extremes_push(least: u64, greatest: u64, samples: Seq<u64>, sample: u64)
    requires
        is_minimum(least, samples),
        is_maximum(greatest, samples),
    ensures
        is_minimum(
            if samples.len() == 0 || sample < least {
                sample
            } else {
                least
            },
            samples.push(sample),
        ),
        is_maximum(
            if samples.len() == 0 || sample > greatest {
                sample
            } else {
                greatest
            },
            samples.push(sample),
        ),
{
    let more = samples.push(sample);
    assert(more[samples.len() as int] == sample);
    if samples.len() > 0 {
        let at_least = choose|k: int| 0 <= k < samples.len() && samples[k] == least;
        assert(more[at_least] == least);
        let at_greatest = choose|k: int| 0 <= k < samples.len() && samples[k] == greatest;
        assert(more[at_greatest] == greatest);
    }
    assert forall|j: int| 0 <= j < more.len() implies more[j] == (if j < samples.len() {
        samples[j]
    } else {
        sample
    }) by {}
}

/// An exact ratio of two whole numbers.
#[derive(Debug, Clone, Copy, PartialEq, Eq, Structural)]
pub struct Ratio {
    pub numerator: u64,
    pub denominator: u64,
}

/// Report for ping speed test.
#[derive(Debug, Clone)]
pub struct PingReport {
    /// Number of targeted pings
    pub ping_count: u32,
    /// Number of successful pings
    pub successful_pings: u32,
    /// Vector of ping times for each ping, in nanoseconds
    pub ping_times: Vec<u64>,
    /// Minimum ping time, in nanoseconds
    pub min_ping: u64,
    /// Maximum ping time, in nanoseconds
    pub max_ping: u64,
    /// Average ping time, in nanoseconds
    pub avg_ping: u64,
    /// Number of pings that were sent and not answered
    pub lost_pings: u32,
}

impl PingReport {
    /// Whether the figures of the report agree with one another: the answered pings
    /// are among the sent ones, the lost ones are the rest, and the least, greatest
    /// and mean time are those of the recorded times.
    pub open spec fn wf(&self) -> bool {
        &&& self.successful_pings <= self.ping_count
        &&& self.lost_pings == self.ping_count - self.successful_pings
        &&& is_minimum(self.min_ping, self.ping_times@)
        &&& is_maximum(self.max_ping, self.ping_times@)
        &&& self.avg_ping == mean(self.ping_times@)
    }

    /// The packet loss in percent, as an exact ratio: for `N` pings sent and `S`
    /// answered it is `(N - S) * 100` over `N`. Of no pings sent, the ratio is zero
    /// over zero.
    pub fn packet_loss(&self) -> (loss: Ratio)
        ensures
            loss.numerator == self.lost_pings * 100,
            loss.denominator == self.ping_count,
            self.wf() ==> loss.numerator == (self.ping_count - self.successful_pings) * 100,
    {
        Ratio { numerator: (self.lost_pings as u64) * 100, denominator: self.ping_count as u64 }
    }

    /// Create a new PingReport instance.
    pub fn new(ping_count: u32, successful_pings: u32, ping_times: Vec<u64>) -> (report:
        PingReport)
        requires
            successful_pings <= ping_count,
        ensures
            report.wf(),
            report.ping_count == ping_count,
            report.successful_pings == successful_pings,
            report.ping_times@ == ping_times@,
    {
        let mut min_ping: u64 = 0;
        let mut max_ping: u64 = 0;
        let mut sum: u128 = 0;
        let n = ping_times.len();
        let mut i: usize = 0;
        while i < n
            invariant
                i <= n,
                n == ping_times@.len(),
                is_minimum(min_ping, ping_times@.take(i as int)),
                is_maximum(max_ping, ping_times@.take(i as int)),
                sum == total(ping_times@.take(i as int)),
            decreases n - i,
        {
            let sample = ping_times[i];
            proof {
                let before = ping_times@.take(i as int);
                assert(ping_times@.take(i + 1) =~= before.push(sample));
                lemma_extremes_push(min_ping, max_ping, before, sample);
                lemma_total_push(before, sample);
                lemma_total_bound(before.push(sample));
                assert((i + 1) * u64::MAX <= u128::MAX) by (nonlinear_arith)
                    requires
                        i + 1 <= 0x1_0000_0000_0000_0000,
                        u64::MAX == 0xffff_ffff_ffff_ffff,
                        u128::MAX == 0xffff_ffff_ffff_ffff_ffff_ffff_ffff_ffff,
                ;
            }
            if i == 0 || sample < min_ping {
                min_ping = sample;
            }
            if i == 0 || sample > max_ping {
                max_ping = sample;
            }
            sum = sum + sample as u128;
            i = i + 1;
        }
        proof {
            assert(ping_times@.take(n as int) =~= ping_times@);
        }
        let avg_ping: u64 = if n == 0 {
            0
        } else {
            proof {
                assert forall|j: int| 0 <= j < ping_times@.len() implies 0 <= #[trigger] ping_times@[j]
                    && ping_times@[j] <= u64::MAX by {}
                lemma_mean_between(ping_times@, 0, u64::MAX);
            }
            (sum / (n as u128)) as u64
        };
        PingReport {
            ping_count,
            successful_pings,
            ping_times,
            min_ping,
            max_ping,
            avg_ping,
            lost_pings: ping_count - successful_pings,
        }
    }
}

/// Report for upload/download speed test.
#[derive(Debug, Clone)]
pub struct SpeedReport {
    /// Report type (upload/download)
    pub report_type: &'static str,
    /// Elapsed duration of the test, in nanoseconds
    pub duration: u64,
    /// Total bytes transferred
    pub bytes: u64,
}

/// Whether the text names a direction of transfer.
pub open spec fn is_direction(report_type: Seq<char>) -> bool {
    report_type == "download"@ || report_type == "upload"@
}

/// The bytes moved per second, rounded down; `None` for a transfer that took no time.
pub open spec fn throughput(bytes: u64, duration: u64) -> Option<nat> {
    if duration == 0 {
        None
    } else {
        Some(((bytes as nat) * (NANOS_PER_SECOND as nat)) / (duration as nat))
    }
}

impl SpeedReport {
    /// Create a new SpeedReport instance.
    pub fn new(report_type: &'static str, duration: u64, bytes: u64) -> (r: Result<
        SpeedReport,
        String,
    >)
        ensures
            is_direction(report_type@) ==> (r matches Ok(report) && report.report_type@
                == report_type@ && report.duration == duration && report.bytes == bytes),
            !is_direction(report_type@) ==> (r matches Err(message) && message@ == "Got `"@
                + report_type@ + "` expected `download` or `upload`"@),
    {
        if same_text(report_type, "download") || same_text(report_type, "upload") {
            Ok(SpeedReport { report_type, duration, bytes })
        } else {
            Err(join2("Got `", report_type).concat("` expected `download` or `upload`"))
        }
    }

    /// Speed in bytes per second, rounded down; `None` where the test took no time.
    pub fn speed(&self) -> (speed: Option<u128>)
        ensures
            match throughput(self.bytes, self.duration) {
                Some(rate) => speed == Some(rate as u128) && rate <= u128::MAX,
                None => speed is None,
            },
    {
        if self.duration == 0 {
            None
        } else {
            assert(self.bytes * NANOS_PER_SECOND <= u128::MAX) by (nonlinear_arith)
                requires
                    self.bytes <= 0xffff_ffff_ffff_ffff,
                    NANOS_PER_SECOND == 1_000_000_000,
                    u128::MAX == 0xffff_ffff_ffff_ffff_ffff_ffff_ffff_ffff,
            ;
            let scaled: u128 = (self.bytes as u128) * (NANOS_PER_SECOND as u128);
            Some(scaled / (self.duration as u128))
        }
    }
}

/// Primary report for Netbeat, including ping, upload, and download figures.
#[derive(Debug, Clone)]
pub struct NetbeatReport {
    pub ping_report: PingReport,
    pub upload_report: SpeedReport,
    pub download_report: SpeedReport,
}

impl NetbeatReport {
    /// Create a new NetbeatReport instance.
    pub fn new(ping_report: PingReport, upload_report: SpeedReport, download_report: SpeedReport)
        -> (report: NetbeatReport)
        ensures
            report.ping_report == ping_report,
            report.upload_report == upload_report,
            report.download_report == download_report,
    {
        NetbeatReport { ping_report, upload_report, download_report }
    }
}

} // verus!
