//! Progress reporting: the reporter interface that the orchestrators talk
//! to, and two reporters that measure the time since they were made.

use vstd::prelude::*;
use vstd::string::*;
use crate::utils::text::{decimal, decimal_string};

verus! {

/// `std::time::Instant`, a point in time of which nothing is known.
#[verifier::external_type_specification]
#[verifier::external_body]
pub struct ExInstant(std::time::Instant);

/// `Instant::now` reads the clock: nothing is known of the instant it gives.
pub assume_specification[ std::time::Instant::now ]() -> std::time::Instant;

/// `Instant::elapsed` reads the clock: nothing is known of the duration it
/// gives.
pub assume_specification[ std::time::Instant::elapsed ](
    instant: &std::time::Instant,
) -> std::time::Duration;

/// Progress reporter trait
pub trait ProgressReporter {
    /// Report progress update
    fn update(&self, message: &str);

    /// Report completion
    fn finish(&self, message: &str);

    /// Report an error
    fn error(&self, message: &str);
}

/// A reporter that marks each line by its kind.
pub struct SimpleProgressReporter {
    start_time: std::time::Instant,
}

/// A reporter that also tells the time since it was made.
pub struct TimedProgressReporter {
    start_time: std::time::Instant,
}

impl SimpleProgressReporter {
    /// A reporter whose clock starts now.
    pub fn new() -> Self {
        Self { start_time: std::time::Instant::now() }
    }

    /// The time since the reporter was made.
    pub fn elapsed(&self) -> std::time::Duration {
        self.start_time.elapsed()
    }

    /// The line for a progress update: `[*] ` and the message.
    pub fn update_line(&self, message: &str) -> (r: String)
        ensures
            r@ == "[*] "@ + message@,
    {
        String::from_str("[*] ").concat(message)
    }

    /// The line for a completion: `[+] ` and the message.
    pub fn finish_line(&self, message: &str) -> (r: String)
        ensures
            r@ == "[+] "@ + message@,
    {
        String::from_str("[+] ").concat(message)
    }

    /// The line for an error: `[!] ` and the message.
    pub fn error_line(&self, message: &str) -> (r: String)
        ensures
            r@ == "[!] "@ + message@,
    {
        String::from_str("[!] ").concat(message)
    }
}

impl TimedProgressReporter {
    /// A reporter whose clock starts now.
    pub fn new() -> Self {
        Self { start_time: std::time::Instant::now() }
    }

    /// The time since the reporter was made.
    pub fn elapsed(&self) -> std::time::Duration {
        self.start_time.elapsed()
    }
}

impl Default for SimpleProgressReporter {
    fn default() -> Self {
        Self::new()
    }
}

impl Default for TimedProgressReporter {
    fn default() -> Self {
        Self::new()
    }
}

/// A reporter that tells nothing: for runs whose progress nobody reads.
#[derive(Debug, Clone, Copy, PartialEq, Eq, Structural)]
pub struct SilentProgressReporter;

impl ProgressReporter for SilentProgressReporter {
    fn update(&self, _message: &str) {
    }

    fn finish(&self, _message: &str) {
    }

    fn error(&self, _message: &str) {
    }
}

/// How many addresses lie between two progress reports of a scan.
pub const PROGRESS_INTERVAL: usize = 100;

/// The progress message of a scan that has processed `processed` of `total`
/// addresses and found `found` records.
pub open spec fn scan_message(processed: nat, total: nat, found: nat) -> Seq<char> {
    "Processed "@ + decimal(processed) + "/"@ + decimal(total) + " IP addresses, found "@
        + decimal(found) + " PTR records"@
}

/// The progress message of a scan.
pub fn scan_progress_message(processed: usize, total: usize, found: usize) -> (r: String)
    ensures
        r@ == scan_message(processed as nat, total as nat, found as nat),
{
    let mut out = String::from_str("Processed ");
    out.append(decimal_string(processed as u64).as_str());
    out.append("/");
    out.append(decimal_string(total as u64).as_str());
    out.append(" IP addresses, found ");
    out.append(decimal_string(found as u64).as_str());
    out.append(" PTR records");
    out
}

/// Reports the progress of a scan before the address at index `processed`
/// is looked up: at every hundredth address, the first included.
pub fn report_scan_progress<P: ProgressReporter>(
    progress: &P,
    processed: usize,
    total: usize,
    found: usize,
) -> (reported: bool)
    ensures
        reported == (processed % PROGRESS_INTERVAL == 0),
{
    if processed % PROGRESS_INTERVAL == 0 {
        let message = scan_progress_message(processed, total, found);
        progress.update(message.as_str());
        true
    } else {
        false
    }
}

} // verus!
