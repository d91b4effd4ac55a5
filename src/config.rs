//! Configuration of the drag, in integer units.
//!
//! The acceleration is a fixed-point number in thousandths (`1000` is a
//! factor of one); durations are whole milliseconds.

use vstd::prelude::*;
use crate::text::same_text;

verus! {

/// Fixed-point denominator of the acceleration factor.
pub const ACCEL_ONE: u32 = 1000;

/// Verbosity of the log.
#[derive(Clone, Copy, Debug, PartialEq, Eq, Structural)]
pub enum LogLevel {
    OFF,
    ERROR,
    WARN,
    INFO,
    DEBUG,
    TRACE,
}

/// The settings read once at start and never changed afterwards.
#[derive(Clone, Debug)]
pub struct Configuration {
    /// Factor applied to every motion delta, in thousandths.
    pub acceleration: u32,
    /// Trailing-hold window after a gesture ends, in milliseconds.
    pub drag_end_delay: u64,
    /// Where the log goes: `stdout` or the path of a file.
    pub log_file: String,
    pub log_level: LogLevel,
    /// Least time between two motion emissions of one gesture, in milliseconds.
    pub response_time: u64,
}

/// Default acceleration: a factor of one.
pub fn default_1() -> (r: u32)
    ensures
        r == ACCEL_ONE,
{
    ACCEL_ONE
}

/// Default trailing-release delay: none.
pub fn default_0ms() -> (r: u64)
    ensures
        r == 0,
{
    0
}

/// Default response time: five milliseconds.
pub fn default_5ms() -> (r: u64)
    ensures
        r == 5,
{
    5
}

/// Default log destination: standard output.
pub fn default_stdout() -> (r: String)
    ensures
        r@ == "stdout"@,
{
    "stdout".to_string()
}

/// Default verbosity: informational messages.
pub fn default_info() -> (r: LogLevel)
    ensures
        r == LogLevel::INFO,
{
    LogLevel::INFO
}

impl Configuration {
    /// Whether the log goes to standard output rather than to a file.
    pub fn logs_to_stdout(&self) -> (r: bool)
        ensures
            r == (self.log_file@ == "stdout"@),
    {
        same_text(self.log_file.as_str(), "stdout")
    }
}

impl Default for Configuration {
    fn default() -> (r: Self)
        ensures
            r.acceleration == ACCEL_ONE,
            r.drag_end_delay == 0,
            r.log_file@ == "stdout"@,
            r.log_level == LogLevel::INFO,
            r.response_time == 5,
    {
        Configuration {
            acceleration: default_1(),
            drag_end_delay: default_0ms(),
            log_file: default_stdout(),
            log_level: default_info(),
            response_time: default_5ms(),
        }
    }
}

} // verus!
