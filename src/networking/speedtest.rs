//! Speed-test phases and settings.
use vstd::prelude::*;

verus! {

/// Where a speed test stands; the download and upload phases carry their own
/// progress, 0 to 100.
#[derive(Debug, Clone, Copy, PartialEq, Eq, Structural)]
pub enum SpeedTestPhase {
    Ping,
    Download(u8),
    Upload(u8),
    Complete,
}

impl SpeedTestPhase {
    pub open spec fn spec_name(self) -> Seq<char> {
        match self {
            SpeedTestPhase::Ping => "Measuring Latency"@,
            SpeedTestPhase::Download(_) => "Testing Download Speed"@,
            SpeedTestPhase::Upload(_) => "Testing Upload Speed"@,
            SpeedTestPhase::Complete => "Test Complete"@,
        }
    }

    /// Overall progress: latency is the first tenth, download runs to 60 and
    /// upload to 100.
    pub open spec fn spec_progress(self) -> int {
        match self {
            SpeedTestPhase::Ping => 10,
            SpeedTestPhase::Download(p) => 10 + p / 2,
            SpeedTestPhase::Upload(p) => 60 + p / 2,
            SpeedTestPhase::Complete => 100,
        }
    }

    /// The phase's label.
    pub fn name(&self) -> (r: &'static str)
        ensures
            r@ == self.spec_name(),
    {
        match self {
            SpeedTestPhase::Ping => "Measuring Latency",
            SpeedTestPhase::Download(_) => "Testing Download Speed",
            SpeedTestPhase::Upload(_) => "Testing Upload Speed",
            SpeedTestPhase::Complete => "Test Complete",
        }
    }

    /// Overall progress of the test in percent.
    pub fn progress(&self) -> (r: u8)
        ensures
            r == self.spec_progress(),
    {
        match self {
            SpeedTestPhase::Ping => 10,
            SpeedTestPhase::Download(p) => 10 + (*p / 2),
            SpeedTestPhase::Upload(p) => 60 + (*p / 2),
            SpeedTestPhase::Complete => 100,
        }
    }
}

/// Where and how long to test.
#[derive(Debug, Clone)]
pub struct SpeedTestConfig {
    pub server_url: String,
    pub ping_count: usize,
    pub download_duration_secs: u64,
    pub upload_duration_secs: u64,
    pub download_size: usize,
    pub upload_size: usize,
}

impl Default for SpeedTestConfig {
    fn default() -> (r: SpeedTestConfig)
        ensures
            r.server_url@ == "https://speed.cloudflare.com"@,
            r.ping_count == 10,
            r.download_duration_secs == 10,
            r.upload_duration_secs == 10,
            r.download_size == 10 * 1024 * 1024,
            r.upload_size == 1024 * 1024,
    {
        SpeedTestConfig {
            server_url: "https://speed.cloudflare.com".to_string(),
            ping_count: 10,
            download_duration_secs: 10,
            upload_duration_secs: 10,
            download_size: 10 * 1024 * 1024,
            upload_size: 1024 * 1024,
        }
    }
}

} // verus!
